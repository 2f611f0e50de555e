//! The stated laws of the parser, proved over the grammar functions: which
//! declaration kind each leading keyword produces, and that an unbalanced
//! angle-bracket span is a reported failure, never a silent truncation.

use vstd::prelude::*;

use crate::ast::{DeclarationV, ParseError};
use crate::grammar::{
    ScanEnd, StopKind, fn_leading_kw, is_kw, is_punct, p_attributes, p_declaration, p_discriminant,
    p_fn_params, p_generic_list, p_named_fields, p_tuple_fields, p_variants, p_vis, scan,
};
use crate::token::TokenV;

verus! {

broadcast use vstd::string::group_string_axioms;

/// The identifier that stands first after the leading attributes and
/// visibility, if there is one.
pub open spec fn leading_keyword(s: Seq<TokenV>) -> Option<Seq<char>> {
    match p_attributes(s, 0) {
        Err(_) => None,
        Ok((_attrs, a)) => {
            let (_vis, b) = p_vis(s, a);
            if 0 <= b < s.len() {
                match s[b] {
                    TokenV::Ident(kw) => Some(kw),
                    _ => None,
                }
            } else {
                None
            }
        },
    }
}

/// Exhaustive dispatch: whenever a parse succeeds, the declaration kind is
/// the one the leading keyword names — `struct`, `enum` and `union` give
/// that declaration, and a function qualifier or `fn` gives a function; an
/// input whose leading identifier is any other word fails with
/// `UnrecognizedDeclaration`, and one with no identifier there fails too.
pub proof fn lemma_exhaustive_dispatch(s: Seq<TokenV>)
    ensures
        p_declaration(s) matches Ok(r) ==> ({
            let kw = leading_keyword(s)->0;
            &&& leading_keyword(s) is Some
            &&& (kw == "struct"@ ==> r.0 is Struct)
            &&& (kw == "enum"@ ==> r.0 is Enum)
            &&& (kw == "union"@ ==> r.0 is Union)
            &&& (fn_leading_kw(kw) ==> r.0 is Function)
            &&& (kw == "struct"@ || kw == "enum"@ || kw == "union"@ || fn_leading_kw(kw))
        }),
        (leading_keyword(s) matches Some(kw) && kw != "struct"@ && kw != "enum"@ && kw != "union"@
            && !fn_leading_kw(kw)) ==> p_declaration(s) == Err::<
            (DeclarationV, int),
            ParseError,
        >(ParseError::UnrecognizedDeclaration),
{
    reveal_strlit("struct");
    reveal_strlit("enum");
    reveal_strlit("union");
    reveal_strlit("default");
    reveal_strlit("const");
    reveal_strlit("async");
    reveal_strlit("unsafe");
    reveal_strlit("extern");
    reveal_strlit("fn");
    assert("struct"@.len() == 6 && "enum"@.len() == 4 && "union"@.len() == 5 && "default"@.len()
        == 7 && "const"@.len() == 5 && "async"@.len() == 5 && "unsafe"@.len() == 6
        && "extern"@.len() == 6 && "fn"@.len() == 2);
    assert("union"@[0] == 'u' && "const"@[0] == 'c' && "async"@[0] == 'a' && "unsafe"@[0] == 'u'
        && "unsafe"@[1] == 'n' && "union"@[1] == 'n' && "unsafe"@[2] == 's' && "union"@[2] == 'i'
        && "struct"@[0] == 's' && "extern"@[0] == 'e');
    crate::grammar::lemma_attributes(s, 0);
    if let Ok((attrs, a)) = p_attributes(s, 0) {
        let (vis, b) = p_vis(s, a);
        assert(0 <= a);
        if 0 <= b < s.len() {
            if let TokenV::Ident(kw) = s[b] {
                assert(leading_keyword(s) == Some(kw));
                if kw == "struct"@ {
                    lemma_struct_rest_kind(s, b + 1, attrs, vis);
                    assert(p_declaration(s) == crate::grammar::p_struct_rest(s, b + 1, attrs, vis));
                } else if kw == "enum"@ {
                    lemma_enum_rest_kind(s, b + 1, attrs, vis);
                    assert(p_declaration(s) == crate::grammar::p_enum_rest(s, b + 1, attrs, vis));
                } else if kw == "union"@ {
                    lemma_union_rest_kind(s, b + 1, attrs, vis);
                    assert(p_declaration(s) == crate::grammar::p_union_rest(s, b + 1, attrs, vis));
                } else if fn_leading_kw(kw) {
                    lemma_fn_rest_kind(s, b, attrs, vis);
                    assert(p_declaration(s) == crate::grammar::p_fn_rest(s, b, attrs, vis));
                } else {
                    assert(p_declaration(s) == Err::<(DeclarationV, int), ParseError>(
                        ParseError::UnrecognizedDeclaration,
                    ));
                }
            }
        }
    }
}

proof fn lemma_struct_rest_kind(
    s: Seq<TokenV>,
    i: int,
    attrs: Seq<crate::ast::AttributeV>,
    vis: Option<crate::ast::VisMarkerV>,
)
    ensures
        crate::grammar::p_struct_rest(s, i, attrs, vis) matches Ok(r) ==> r.0 is Struct,
{
}

proof fn lemma_enum_rest_kind(
    s: Seq<TokenV>,
    i: int,
    attrs: Seq<crate::ast::AttributeV>,
    vis: Option<crate::ast::VisMarkerV>,
)
    ensures
        crate::grammar::p_enum_rest(s, i, attrs, vis) matches Ok(r) ==> r.0 is Enum,
{
}

proof fn lemma_union_rest_kind(
    s: Seq<TokenV>,
    i: int,
    attrs: Seq<crate::ast::AttributeV>,
    vis: Option<crate::ast::VisMarkerV>,
)
    ensures
        crate::grammar::p_union_rest(s, i, attrs, vis) matches Ok(r) ==> r.0 is Union,
{
}

proof fn lemma_fn_rest_kind(
    s: Seq<TokenV>,
    i: int,
    attrs: Seq<crate::ast::AttributeV>,
    vis: Option<crate::ast::VisMarkerV>,
)
    ensures
        crate::grammar::p_fn_rest(s, i, attrs, vis) matches Ok(r) ==> r.0 is Function,
{
}

/// Depth balance for tuple-field type spans: when the span scanner steps
/// outside the field list (its depth counter would go negative), the whole
/// field-list parse fails with `UnbalancedBrackets`; no truncated field
/// list is returned.
pub proof fn lemma_depth_balance_tuple(s: Seq<TokenV>, i: int)
    requires
        0 <= i < s.len(),
    ensures
        ({
            match p_attributes(s, i) {
                Ok((_attrs, a)) => {
                    let (_vis, b) = p_vis(s, a);
                    scan(s, b, 0, false, StopKind::Comma).1 == ScanEnd::Negative
                        ==> p_tuple_fields(s, i) == Err::<
                        Seq<crate::ast::TupleFieldV>,
                        ParseError,
                    >(ParseError::UnbalancedBrackets)
                },
                Err(_) => true,
            }
        }),
{
}

/// Depth balance for named-field type spans.
pub proof fn lemma_depth_balance_named(s: Seq<TokenV>, i: int)
    requires
        0 <= i < s.len(),
    ensures
        ({
            match p_attributes(s, i) {
                Ok((_attrs, a)) => {
                    let (_vis, b) = p_vis(s, a);
                    (s[b] is Ident && b + 2 < s.len() && is_punct(s[b + 1], ':') && scan(
                        s,
                        b + 2,
                        0,
                        false,
                        StopKind::Comma,
                    ).1 == ScanEnd::Negative) ==> p_named_fields(s, i) == Err::<
                        Seq<crate::ast::NamedFieldV>,
                        ParseError,
                    >(ParseError::UnbalancedBrackets)
                },
                Err(_) => true,
            }
        }),
{
}

/// Depth balance for function-parameter type spans.
pub proof fn lemma_depth_balance_params(s: Seq<TokenV>, i: int)
    requires
        0 <= i < s.len(),
    ensures
        ({
            match p_attributes(s, i) {
                Ok((_attrs, a)) => {
                    let (_vis, b) = (None::<crate::ast::VisMarkerV>, a);
                    ((s[a] matches TokenV::Ident(nm) && nm != "self"@ && nm != "mut"@) && a + 1
                        < s.len() && is_punct(s[a + 1], ':') && scan(
                        s,
                        a + 2,
                        0,
                        false,
                        StopKind::Comma,
                    ).1 == ScanEnd::Negative) ==> p_fn_params(s, i) == Err::<
                        Seq<crate::ast::FunctionParameterV>,
                        ParseError,
                    >(ParseError::UnbalancedBrackets)
                },
                Err(_) => true,
            }
        }),
{
}

/// Depth balance for a unit variant's discriminant span.
pub proof fn lemma_depth_balance_discriminant(s: Seq<TokenV>, i: int)
    requires
        0 <= i < s.len(),
    ensures
        ({
            match p_attributes(s, i) {
                Ok((_attrs, a)) => {
                    let (_vis, b) = p_vis(s, a);
                    (b < s.len() && s[b] is Ident && b + 1 < s.len() && is_punct(s[b + 1], '=')
                        && scan(s, b + 2, 0, false, StopKind::Comma).1 == ScanEnd::Negative)
                        ==> p_variants(s, i) == Err::<
                        Seq<crate::ast::EnumVariantV>,
                        ParseError,
                    >(ParseError::UnbalancedBrackets)
                },
                Err(_) => true,
            }
        }),
{
    crate::grammar::lemma_attributes(s, i);
    if let Ok((_attrs, a)) = p_attributes(s, i) {
        let (_vis, b) = p_vis(s, a);
        if b < s.len() && s[b] is Ident && b + 1 < s.len() && is_punct(s[b + 1], '=') && scan(
            s,
            b + 2,
            0,
            false,
            StopKind::Comma,
        ).1 == ScanEnd::Negative {
            assert(p_discriminant(s, b + 1) == Err::<(Option<Seq<TokenV>>, int), ParseError>(
                ParseError::UnbalancedBrackets,
            ));
        }
    }
}

/// Depth balance for a generic bound whose angle brackets never close: the
/// scanner runs to the end of the input, and the generic-list parse fails
/// with `UnexpectedEof`; it never returns a truncated list.
pub proof fn lemma_depth_balance_bound(s: Seq<TokenV>, i: int)
    requires
        0 <= i < s.len(),
        s[i] is Ident,
        !is_kw(s[i], "const"@),
        i + 1 < s.len(),
        is_punct(s[i + 1], ':'),
        scan(s, i + 2, 0, false, StopKind::Comma).1 == ScanEnd::Exhausted,
    ensures
        p_generic_list(s, i) == Err::<(Seq<crate::ast::GenericParamV>, int), ParseError>(
            ParseError::UnexpectedEof,
        ),
{
    crate::grammar::lemma_scan(s, i + 2, 0, false, StopKind::Comma);
    let j = scan(s, i + 2, 0, false, StopKind::Comma).0;
    assert(j == s.len());
    assert(p_generic_list(s, j) == Err::<(Seq<crate::ast::GenericParamV>, int), ParseError>(
        ParseError::UnexpectedEof,
    ));
}

} // verus!
