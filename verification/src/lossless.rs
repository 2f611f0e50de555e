//! The round-trip law: whatever the parser accepts re-emits, token for
//! token, as exactly the input tokens it consumed. One lemma per grammar
//! construct, by induction along the grammar, crowned by
//! [`lemma_round_trip`] for whole declarations.

use vstd::prelude::*;

use crate::ast::{ParseError, StructFieldsV, TyExprV, VisMarkerV, WhereClauseV};
use crate::emit::{
    e_attribute, e_attributes, e_declaration, e_enum, e_fn_param, e_fn_params, e_function,
    e_generic_param, e_generic_params, e_generics, e_named_field, e_named_fields, e_qualifiers,
    e_struct, e_tuple_field, e_tuple_fields, e_union, e_variant, e_variants, e_vis, e_where,
    lemma_e_concat_cons,
};
use crate::grammar::{
    ScanEnd, StopKind, is_group, is_kw, is_punct, lemma_attributes, lemma_scan, p_attributes,
    p_declaration, p_discriminant, p_enum_rest, p_field_ty, p_fn_params, p_fn_return, p_fn_rest,
    p_generic_list, p_generics, p_named_fields, p_qualifiers, p_struct_rest, p_tuple_fields,
    p_union_rest, p_variants, p_vis, p_where, scan,
};
use crate::token::{Delim, TokenV};

verus! {

broadcast use vstd::string::group_string_axioms;

/// An attribute run re-emits as the tokens it consumed.
pub proof fn lemma_rt_attributes(s: Seq<TokenV>, i: int)
    requires
        0 <= i <= s.len(),
    ensures
        p_attributes(s, i) matches Ok(r) ==> i <= r.1 <= s.len() && e_attributes(r.0)
            == s.subrange(i, r.1),
    decreases s.len() - i,
{
    lemma_attributes(s, i);
    if i >= s.len() || !is_punct(s[i], '#') {
        assert(e_attributes(Seq::empty()) =~= s.subrange(i, i));
    } else if i + 1 < s.len() && is_group(s[i + 1], Delim::Bracket) {
        lemma_rt_attributes(s, i + 2);
        if let Ok((rest, j)) = p_attributes(s, i + 2) {
            let attr = crate::ast::AttributeV { tokens: crate::grammar::group_tokens(s[i + 1]) };
            lemma_e_concat_cons(attr, rest, |a: crate::ast::AttributeV| e_attribute(a));
            if let TokenV::Group(dd, ts) = s[i + 1] {
                assert(e_attribute(attr) =~= s.subrange(i, i + 2));
            }
            assert(s.subrange(i, i + 2) + s.subrange(i + 2, j) =~= s.subrange(i, j));
        }
    }
}

/// A visibility marker re-emits as the tokens it consumed.
pub proof fn lemma_rt_vis(s: Seq<TokenV>, i: int)
    requires
        0 <= i <= s.len(),
    ensures
        i <= p_vis(s, i).1 <= s.len(),
        e_vis(p_vis(s, i).0) == s.subrange(i, p_vis(s, i).1),
{
    let (v, b) = p_vis(s, i);
    if i < s.len() && is_kw(s[i], "pub"@) {
        if i + 1 < s.len() && is_group(s[i + 1], Delim::Paren) {
            if let TokenV::Group(dd, ts) = s[i + 1] {
                assert(e_vis(v) =~= s.subrange(i, i + 2));
            }
        } else {
            assert(e_vis(v) =~= s.subrange(i, i + 1));
        }
    } else if i < s.len() && is_kw(s[i], "crate"@) {
        assert(e_vis(v) =~= s.subrange(i, i + 1));
    } else {
        assert(e_vis(v) =~= s.subrange(i, i));
    }
}

/// A field-type span, with its trailing comma when one was consumed,
/// re-emits as the tokens it consumed.
pub proof fn lemma_rt_field_ty(s: Seq<TokenV>, i: int)
    requires
        0 <= i <= s.len(),
    ensures
        p_field_ty(s, i) matches Ok(r) ==> i <= r.2 <= s.len() && r.0 + (if r.1 {
            seq![TokenV::Punct(',')]
        } else {
            Seq::<TokenV>::empty()
        }) == s.subrange(i, r.2),
{
    lemma_scan(s, i, 0, false, StopKind::Comma);
    let (j, end) = scan(s, i, 0, false, StopKind::Comma);
    match end {
        ScanEnd::Stopped => {
            assert(s[j] == TokenV::Punct(','));
            assert(s.subrange(i, j) + seq![TokenV::Punct(',')] =~= s.subrange(i, j + 1));
        },
        ScanEnd::Exhausted => {
            assert(s.subrange(i, j) + Seq::<TokenV>::empty() =~= s.subrange(i, j));
        },
        ScanEnd::Negative => {},
    }
}

/// A generic parameter list, entered past the `<`, re-emits (with the
/// closing `>`) as the tokens it consumed.
pub proof fn lemma_rt_generic_list(s: Seq<TokenV>, i: int)
    requires
        0 <= i <= s.len(),
    ensures
        p_generic_list(s, i) matches Ok(r) ==> i <= r.1 <= s.len() && e_generic_params(r.0) + seq![
            TokenV::Punct('>'),
        ] == s.subrange(i, r.1),
    decreases s.len() - i,
{
    if i >= s.len() {
    } else if is_punct(s[i], '>') {
        assert(e_generic_params(Seq::empty()) + seq![TokenV::Punct('>')] =~= s.subrange(i, i + 1));
    } else {
        let (prefix, p) = if is_punct(s[i], '\'') {
            (Some(crate::ast::GenericPrefix::Lifetime), i + 1)
        } else if is_kw(s[i], "const"@) {
            (Some(crate::ast::GenericPrefix::ConstParam), i + 1)
        } else {
            (None::<crate::ast::GenericPrefix>, i)
        };
        if p < s.len() {
            if let TokenV::Ident(name) = s[p] {
                let q = p + 1;
                if q < s.len() {
                    if is_punct(s[q], ':') {
                        lemma_scan(s, q + 1, 0, false, StopKind::Comma);
                        let (j, end) = scan(s, q + 1, 0, false, StopKind::Comma);
                        match end {
                            ScanEnd::Stopped => {
                                let param = crate::ast::GenericParamV {
                                    prefix,
                                    name,
                                    bound: Some(s.subrange(q + 1, j)),
                                    comma: true,
                                };
                                assert(e_generic_param(param) =~= s.subrange(i, j + 1));
                                lemma_rt_generic_cons(s, i, param, j + 1);
                            },
                            _ => {
                                let param = crate::ast::GenericParamV {
                                    prefix,
                                    name,
                                    bound: Some(s.subrange(q + 1, j)),
                                    comma: false,
                                };
                                assert(e_generic_param(param) =~= s.subrange(i, j));
                                lemma_rt_generic_cons(s, i, param, j);
                            },
                        }
                    } else if is_punct(s[q], ',') {
                        let param = crate::ast::GenericParamV {
                            prefix,
                            name,
                            bound: None,
                            comma: true,
                        };
                        assert(e_generic_param(param) =~= s.subrange(i, q + 1));
                        lemma_rt_generic_cons(s, i, param, q + 1);
                    } else if is_punct(s[q], '>') {
                        let param = crate::ast::GenericParamV {
                            prefix,
                            name,
                            bound: None,
                            comma: false,
                        };
                        assert(e_generic_param(param) =~= s.subrange(i, q));
                        lemma_rt_generic_cons(s, i, param, q);
                    }
                }
            }
        }
    }
}

/// One parsed generic parameter spans `[i, next)`, and the rest of the list
/// follows from `next`.
proof fn lemma_rt_generic_cons(s: Seq<TokenV>, i: int, param: crate::ast::GenericParamV, next: int)
    requires
        0 <= i < next <= s.len(),
        e_generic_param(param) == s.subrange(i, next),
        p_generic_list(s, i) == crate::grammar::p_generic_cons(s, param, next),
    ensures
        p_generic_list(s, i) matches Ok(r) ==> i <= r.1 <= s.len() && e_generic_params(r.0) + seq![
            TokenV::Punct('>'),
        ] == s.subrange(i, r.1),
    decreases s.len() - i, 1int,
{
    lemma_rt_generic_list(s, next);
    if let Ok((rest, j)) = p_generic_list(s, next) {
        lemma_e_concat_cons(param, rest, |p: crate::ast::GenericParamV| e_generic_param(p));
        assert((s.subrange(i, next) + e_generic_params(rest)) + seq![TokenV::Punct('>')]
            =~= s.subrange(i, next) + (e_generic_params(rest) + seq![TokenV::Punct('>')]));
        assert(s.subrange(i, next) + s.subrange(next, j) =~= s.subrange(i, j));
        assert((e_generic_params(seq![param] + rest)) + seq![TokenV::Punct('>')] =~= s.subrange(
            i,
            j,
        ));
    }
}

/// An optional generic list re-emits as the tokens it consumed.
pub proof fn lemma_rt_generics(s: Seq<TokenV>, i: int)
    requires
        0 <= i <= s.len(),
    ensures
        p_generics(s, i) matches Ok(r) ==> i <= r.1 <= s.len() && e_generics(r.0) == s.subrange(
            i,
            r.1,
        ),
{
    if 0 <= i < s.len() && is_punct(s[i], '<') {
        lemma_rt_generic_list(s, i + 1);
        if let Ok((params, j)) = p_generic_list(s, i + 1) {
            assert(seq![TokenV::Punct('<')] =~= s.subrange(i, i + 1));
            assert((seq![TokenV::Punct('<')] + (e_generic_params(params) + seq![
                TokenV::Punct('>'),
            ])) =~= seq![TokenV::Punct('<')] + e_generic_params(params) + seq![
                TokenV::Punct('>'),
            ]);
            assert(s.subrange(i, i + 1) + s.subrange(i + 1, j) =~= s.subrange(i, j));
        }
    } else {
        assert(e_generics(None::<crate::ast::GenericParamsV>) =~= s.subrange(i, i));
    }
}

/// An optional where-clause re-emits as the tokens it consumed.
pub proof fn lemma_rt_where(s: Seq<TokenV>, i: int)
    requires
        0 <= i <= s.len(),
    ensures
        i <= p_where(s, i).1 <= s.len(),
        e_where(p_where(s, i).0) == s.subrange(i, p_where(s, i).1),
{
    if 0 <= i < s.len() && is_kw(s[i], "where"@) {
        lemma_scan(s, i + 1, 0, false, StopKind::Body);
        let (j, _end) = scan(s, i + 1, 0, false, StopKind::Body);
        assert(e_where(Some(WhereClauseV { tokens: s.subrange(i + 1, j) })) =~= s.subrange(i, j));
    } else {
        assert(e_where(None::<WhereClauseV>) =~= s.subrange(i, i));
    }
}

/// An optional discriminant re-emits as the tokens it consumed.
pub proof fn lemma_rt_discriminant(s: Seq<TokenV>, i: int)
    requires
        0 <= i <= s.len(),
    ensures
        p_discriminant(s, i) matches Ok(r) ==> i <= r.1 <= s.len() && (match r.0 {
            Some(ts) => seq![TokenV::Punct('=')] + ts,
            None => Seq::<TokenV>::empty(),
        }) == s.subrange(i, r.1),
{
    if 0 <= i < s.len() && is_punct(s[i], '=') {
        lemma_scan(s, i + 1, 0, false, StopKind::Comma);
        let (j, end) = scan(s, i + 1, 0, false, StopKind::Comma);
        if end != ScanEnd::Negative {
            assert(seq![TokenV::Punct('=')] + s.subrange(i + 1, j) =~= s.subrange(i, j));
        }
    } else {
        assert(Seq::<TokenV>::empty() =~= s.subrange(i, i));
    }
}

/// A tuple-field list consumes and re-emits its whole input run.
pub proof fn lemma_rt_tuple_fields(s: Seq<TokenV>, i: int)
    requires
        0 <= i <= s.len(),
    ensures
        p_tuple_fields(s, i) matches Ok(fs) ==> e_tuple_fields(fs) == s.subrange(
            i,
            s.len() as int,
        ),
    decreases s.len() - i,
{
    if i >= s.len() {
        assert(e_tuple_fields(Seq::empty()) =~= s.subrange(i, i));
    } else {
        lemma_rt_attributes(s, i);
        lemma_attributes(s, i);
        if let Ok((attributes, a)) = p_attributes(s, i) {
            lemma_rt_vis(s, a);
            let (vis_marker, b) = p_vis(s, a);
            lemma_rt_field_ty(s, b);
            lemma_scan(s, b, 0, false, StopKind::Comma);
            if let Ok((ty, comma, j)) = p_field_ty(s, b) {
                let field = crate::ast::TupleFieldV {
                    attributes,
                    vis_marker,
                    ty: TyExprV { tokens: ty },
                    comma,
                };
                lemma_rt_tuple_fields(s, j);
                if let Ok(rest) = p_tuple_fields(s, j) {
                    lemma_e_concat_cons(field, rest, |f: crate::ast::TupleFieldV| e_tuple_field(f));
                    assert(e_tuple_field(field) =~= s.subrange(i, j));
                    assert(s.subrange(i, j) + s.subrange(j, s.len() as int) =~= s.subrange(
                        i,
                        s.len() as int,
                    ));
                }
            }
        }
    }
}

/// A named-field list consumes and re-emits its whole input run.
pub proof fn lemma_rt_named_fields(s: Seq<TokenV>, i: int)
    requires
        0 <= i <= s.len(),
    ensures
        p_named_fields(s, i) matches Ok(fs) ==> e_named_fields(fs) == s.subrange(
            i,
            s.len() as int,
        ),
    decreases s.len() - i,
{
    if i >= s.len() {
        assert(e_named_fields(Seq::empty()) =~= s.subrange(i, i));
    } else {
        lemma_rt_attributes(s, i);
        lemma_attributes(s, i);
        if let Ok((attributes, a)) = p_attributes(s, i) {
            lemma_rt_vis(s, a);
            let (vis_marker, b) = p_vis(s, a);
            if b < s.len() {
                if let TokenV::Ident(name) = s[b] {
                    if b + 1 < s.len() && is_punct(s[b + 1], ':') && b + 2 < s.len() {
                        lemma_rt_field_ty(s, b + 2);
                        lemma_scan(s, b + 2, 0, false, StopKind::Comma);
                        if let Ok((ty, comma, j)) = p_field_ty(s, b + 2) {
                            let field = crate::ast::NamedFieldV {
                                attributes,
                                vis_marker,
                                name,
                                ty: TyExprV { tokens: ty },
                                comma,
                            };
                            lemma_rt_named_fields(s, j);
                            if let Ok(rest) = p_named_fields(s, j) {
                                lemma_e_concat_cons(
                                    field,
                                    rest,
                                    |f: crate::ast::NamedFieldV| e_named_field(f),
                                );
                                assert(seq![TokenV::Ident(name), TokenV::Punct(':')] =~= s.subrange(
                                    b,
                                    b + 2,
                                ));
                                assert(e_named_field(field) =~= s.subrange(i, j));
                                assert(s.subrange(i, j) + s.subrange(j, s.len() as int)
                                    =~= s.subrange(i, s.len() as int));
                            }
                        }
                    }
                }
            }
        }
    }
}

/// A variant list consumes and re-emits its whole input run.
#[verifier::rlimit(100)]
pub proof fn lemma_rt_variants(s: Seq<TokenV>, i: int)
    requires
        0 <= i <= s.len(),
    ensures
        p_variants(s, i) matches Ok(vs) ==> e_variants(vs) == s.subrange(i, s.len() as int),
    decreases s.len() - i,
{
    if i >= s.len() {
        assert(e_variants(Seq::empty()) =~= s.subrange(i, i));
    } else {
        lemma_rt_attributes(s, i);
        lemma_attributes(s, i);
        if let Ok((attributes, a)) = p_attributes(s, i) {
            lemma_rt_vis(s, a);
            let (vis_marker, b) = p_vis(s, a);
            if b < s.len() {
                if let TokenV::Ident(name) = s[b] {
                    let c = b + 1;
                    let contents: Result<(StructFieldsV, int), ParseError> = if c >= s.len()
                        || is_punct(s[c], ',') || is_punct(s[c], '=') {
                        Ok((StructFieldsV::Unit, c))
                    } else if is_group(s[c], Delim::Paren) {
                        match p_tuple_fields(crate::grammar::group_tokens(s[c]), 0) {
                            Ok(fs) => Ok((StructFieldsV::Tuple(fs), c + 1)),
                            Err(e) => Err(e),
                        }
                    } else if is_group(s[c], Delim::Brace) {
                        match p_named_fields(crate::grammar::group_tokens(s[c]), 0) {
                            Ok(fs) => Ok((StructFieldsV::Named(fs), c + 1)),
                            Err(e) => Err(e),
                        }
                    } else {
                        Err(ParseError::UnrecognizedVariantShape)
                    };
                    if c < s.len() && is_group(s[c], Delim::Paren) {
                        lemma_rt_tuple_fields(crate::grammar::group_tokens(s[c]), 0);
                    }
                    if c < s.len() && is_group(s[c], Delim::Brace) {
                        lemma_rt_named_fields(crate::grammar::group_tokens(s[c]), 0);
                    }
                    if let Ok((cv, d)) = contents {
                        // the emitted contents equal the group token (if any)
                        assert((match cv {
                            StructFieldsV::Unit => Seq::<TokenV>::empty(),
                            StructFieldsV::Tuple(fs) => seq![
                                TokenV::Group(Delim::Paren, e_tuple_fields(fs)),
                            ],
                            StructFieldsV::Named(fs) => seq![
                                TokenV::Group(Delim::Brace, e_named_fields(fs)),
                            ],
                        }) =~= s.subrange(b + 1, d)) by {
                            if c < s.len() && is_group(s[c], Delim::Paren) {
                                if let TokenV::Group(dd, ts) = s[c] {
                                    assert(ts.subrange(0, ts.len() as int) =~= ts);
                                }
                            } else if c < s.len() && is_group(s[c], Delim::Brace) {
                                if let TokenV::Group(dd, ts) = s[c] {
                                    assert(ts.subrange(0, ts.len() as int) =~= ts);
                                }
                            }
                        }
                        lemma_rt_discriminant(s, d);
                        if let Ok((discriminant, e1)) = p_discriminant(s, d) {
                            let (comma, f) = if 0 <= e1 < s.len() && is_punct(s[e1], ',') {
                                (true, e1 + 1)
                            } else {
                                (false, e1)
                            };
                            let variant = crate::ast::EnumVariantV {
                                attributes,
                                vis_marker,
                                name,
                                contents: cv,
                                discriminant,
                                comma,
                            };
                            lemma_rt_variants(s, f);
                            if let Ok(rest) = p_variants(s, f) {
                                lemma_e_concat_cons(
                                    variant,
                                    rest,
                                    |v: crate::ast::EnumVariantV| e_variant(v),
                                );
                                assert(e_variant(variant) =~= s.subrange(i, f));
                                lemma_stitch(s, i, f, s.len() as int);
                            }
                        }
                    }
                }
            }
        }
    }
}

/// The qualifier run re-emits as the tokens it consumed.
pub proof fn lemma_rt_qualifiers(s: Seq<TokenV>, i: int)
    requires
        0 <= i <= s.len(),
    ensures
        i <= p_qualifiers(s, i).1 <= s.len(),
        e_qualifiers(p_qualifiers(s, i).0) == s.subrange(i, p_qualifiers(s, i).1),
{
    let (q, c) = p_qualifiers(s, i);
    assert(e_qualifiers(q) =~= s.subrange(i, c));
}

/// An optional return type re-emits as the tokens it consumed.
pub proof fn lemma_rt_fn_return(s: Seq<TokenV>, i: int)
    requires
        0 <= i <= s.len(),
    ensures
        p_fn_return(s, i) matches Ok(r) ==> i <= r.1 <= s.len() && (match r.0 {
            Some(ty) => seq![TokenV::Punct('-'), TokenV::Punct('>')] + ty.tokens,
            None => Seq::<TokenV>::empty(),
        }) == s.subrange(i, r.1),
{
    if 0 <= i < s.len() && is_punct(s[i], '-') {
        if i + 1 < s.len() && is_punct(s[i + 1], '>') {
            lemma_scan(s, i + 2, 0, false, StopKind::ReturnTy);
            let (j, end) = scan(s, i + 2, 0, false, StopKind::ReturnTy);
            if end != ScanEnd::Negative {
                assert(seq![TokenV::Punct('-'), TokenV::Punct('>')] + s.subrange(i + 2, j)
                    =~= s.subrange(i, j));
            }
        }
    } else {
        assert(Seq::<TokenV>::empty() =~= s.subrange(i, i));
    }
}

/// A parameter list consumes and re-emits its whole input run.
pub proof fn lemma_rt_fn_params(s: Seq<TokenV>, i: int)
    requires
        0 <= i <= s.len(),
    ensures
        p_fn_params(s, i) matches Ok(ps) ==> e_fn_params(ps) == s.subrange(i, s.len() as int),
    decreases s.len() - i,
{
    if i >= s.len() {
        assert(e_fn_params(Seq::empty()) =~= s.subrange(i, i));
    } else {
        lemma_rt_attributes(s, i);
        lemma_attributes(s, i);
        if let Ok((attributes, a)) = p_attributes(s, i) {
            if a < s.len() {
                if let TokenV::Ident(name) = s[a] {
                    if name != "self"@ && name != "mut"@ && a + 1 < s.len() && is_punct(
                        s[a + 1],
                        ':',
                    ) {
                        lemma_rt_field_ty(s, a + 2);
                        lemma_scan(s, a + 2, 0, false, StopKind::Comma);
                        if let Ok((ty, comma, j)) = p_field_ty(s, a + 2) {
                            let param = crate::ast::FunctionParameterV {
                                attributes,
                                name,
                                ty: TyExprV { tokens: ty },
                                comma,
                            };
                            lemma_rt_fn_params(s, j);
                            if let Ok(rest) = p_fn_params(s, j) {
                                lemma_e_concat_cons(
                                    param,
                                    rest,
                                    |p: crate::ast::FunctionParameterV| e_fn_param(p),
                                );
                                assert(seq![TokenV::Ident(name), TokenV::Punct(':')] =~= s.subrange(
                                    a,
                                    a + 2,
                                ));
                                assert(e_fn_param(param) =~= s.subrange(i, j));
                                assert(s.subrange(i, j) + s.subrange(j, s.len() as int)
                                    =~= s.subrange(i, s.len() as int));
                            }
                        }
                    }
                }
            }
        }
    }
}



/// Adjacent subranges concatenate to the enclosing one.
proof fn lemma_stitch(s: Seq<TokenV>, i: int, j: int, k: int)
    requires
        0 <= i <= j <= k <= s.len(),
    ensures
        s.subrange(i, j) + s.subrange(j, k) == s.subrange(i, k),
{
    assert(s.subrange(i, j) + s.subrange(j, k) =~= s.subrange(i, k));
}

/// Concatenation of token runs is associative.
proof fn lemma_assoc(a: Seq<TokenV>, b: Seq<TokenV>, c: Seq<TokenV>)
    ensures
        (a + b) + c == a + (b + c),
{
    assert((a + b) + c =~= a + (b + c));
}

/// A single token equals the one-element subrange at its position.
proof fn lemma_one(s: Seq<TokenV>, i: int)
    requires
        0 <= i < s.len(),
    ensures
        seq![s[i]] == s.subrange(i, i + 1),
{
    assert(seq![s[i]] =~= s.subrange(i, i + 1));
}

/// A struct declaration re-emits as its leading attributes and visibility,
/// the `struct` keyword, and the tokens consumed after it.
#[verifier::rlimit(100)]
proof fn lemma_rt_struct_rest(
    s: Seq<TokenV>,
    i: int,
    attrs: Seq<crate::ast::AttributeV>,
    vis: Option<VisMarkerV>,
)
    requires
        0 <= i <= s.len(),
    ensures
        p_struct_rest(s, i, attrs, vis) matches Ok(r) ==> i <= r.1 <= s.len() && r.0 is Struct
            && e_struct(r.0->Struct_0) == e_attributes(attrs) + e_vis(vis) + seq![
            TokenV::Ident("struct"@),
        ] + s.subrange(i, r.1),
{
    if i < s.len() {
        if let TokenV::Ident(name) = s[i] {
            lemma_rt_generics(s, i + 1);
            if let Ok((g, c)) = p_generics(s, i + 1) {
                lemma_rt_where(s, c);
                let (w1, d) = p_where(s, c);
                if c < s.len() && is_kw(s[c], "where"@) {
                    lemma_scan(s, c + 1, 0, false, StopKind::Body);
                }
                assert(seq![TokenV::Ident(name)] =~= s.subrange(i, i + 1));
                assert(s.subrange(i, i + 1) + s.subrange(i + 1, c) =~= s.subrange(i, c));
                assert(s.subrange(i, c) + s.subrange(c, d) =~= s.subrange(i, d));
                if d < s.len() {
                    if is_punct(s[d], ';') {
                        assert(s.subrange(i, d) + seq![TokenV::Punct(';')] =~= s.subrange(
                            i,
                            d + 1,
                        ));
                        if let Ok(r) = p_struct_rest(s, i, attrs, vis) {
                            assert(e_struct(r.0->Struct_0) =~= e_attributes(attrs) + e_vis(vis)
                                + seq![TokenV::Ident("struct"@)] + s.subrange(i, r.1));
                        }
                    } else if is_group(s[d], Delim::Paren) {
                        assert(w1 is None);
                        lemma_rt_tuple_fields(crate::grammar::group_tokens(s[d]), 0);
                        if let Ok(fs) = p_tuple_fields(crate::grammar::group_tokens(s[d]), 0) {
                            if let TokenV::Group(dd, ts) = s[d] {
                                assert(ts.subrange(0, ts.len() as int) =~= ts);
                                assert(TokenV::Group(Delim::Paren, e_tuple_fields(fs)) == s[d]);
                            }
                            assert(s.subrange(i, d) + seq![s[d]] =~= s.subrange(i, d + 1));
                            lemma_rt_where(s, d + 1);
                            let (w2, e1) = p_where(s, d + 1);
                            assert(s.subrange(i, d + 1) + s.subrange(d + 1, e1) =~= s.subrange(
                                i,
                                e1,
                            ));
                            if e1 < s.len() && is_punct(s[e1], ';') {
                                assert(s.subrange(i, e1) + seq![TokenV::Punct(';')] =~= s.subrange(
                                    i,
                                    e1 + 1,
                                ));
                            }
                            if let Ok(r) = p_struct_rest(s, i, attrs, vis) {
                                assert(e_struct(r.0->Struct_0) =~= e_attributes(attrs) + e_vis(vis)
                                    + seq![TokenV::Ident("struct"@)] + s.subrange(i, r.1));
                            }
                        }
                    } else if is_group(s[d], Delim::Brace) {
                        lemma_rt_named_fields(crate::grammar::group_tokens(s[d]), 0);
                        if let Ok(fs) = p_named_fields(crate::grammar::group_tokens(s[d]), 0) {
                            if let TokenV::Group(dd, ts) = s[d] {
                                assert(ts.subrange(0, ts.len() as int) =~= ts);
                                assert(TokenV::Group(Delim::Brace, e_named_fields(fs)) == s[d]);
                            }
                            assert(s.subrange(i, d) + seq![s[d]] =~= s.subrange(i, d + 1));
                            if let Ok(r) = p_struct_rest(s, i, attrs, vis) {
                                assert(e_struct(r.0->Struct_0) =~= e_attributes(attrs) + e_vis(vis)
                                    + seq![TokenV::Ident("struct"@)] + s.subrange(i, r.1));
                            }
                        }
                    }
                }
            }
        }
    }
}

/// An enum declaration re-emits as its leading attributes and visibility,
/// the `enum` keyword, and the tokens consumed after it.
#[verifier::rlimit(100)]
proof fn lemma_rt_enum_rest(
    s: Seq<TokenV>,
    i: int,
    attrs: Seq<crate::ast::AttributeV>,
    vis: Option<VisMarkerV>,
)
    requires
        0 <= i <= s.len(),
    ensures
        p_enum_rest(s, i, attrs, vis) matches Ok(r) ==> i <= r.1 <= s.len() && r.0 is Enum
            && e_enum(r.0->Enum_0) == e_attributes(attrs) + e_vis(vis) + seq![
            TokenV::Ident("enum"@),
        ] + s.subrange(i, r.1),
{
    if i < s.len() {
        if let TokenV::Ident(name) = s[i] {
            lemma_rt_generics(s, i + 1);
            if let Ok((g, c)) = p_generics(s, i + 1) {
                lemma_rt_where(s, c);
                let (w, d) = p_where(s, c);
                assert(seq![TokenV::Ident(name)] =~= s.subrange(i, i + 1));
                assert(s.subrange(i, i + 1) + s.subrange(i + 1, c) =~= s.subrange(i, c));
                assert(s.subrange(i, c) + s.subrange(c, d) =~= s.subrange(i, d));
                if d < s.len() && is_group(s[d], Delim::Brace) {
                    lemma_rt_variants(crate::grammar::group_tokens(s[d]), 0);
                    if let Ok(vs) = p_variants(crate::grammar::group_tokens(s[d]), 0) {
                        if let TokenV::Group(dd, ts) = s[d] {
                            assert(ts.subrange(0, ts.len() as int) =~= ts);
                            assert(TokenV::Group(Delim::Brace, e_variants(vs)) == s[d]);
                        }
                        assert(s.subrange(i, d) + seq![s[d]] =~= s.subrange(i, d + 1));
                        if let Ok(r) = p_enum_rest(s, i, attrs, vis) {
                            assert(e_enum(r.0->Enum_0) =~= e_attributes(attrs) + e_vis(vis) + seq![
                                TokenV::Ident("enum"@),
                            ] + s.subrange(i, r.1));
                        }
                    }
                }
            }
        }
    }
}

/// A union declaration re-emits as its leading attributes and visibility,
/// the `union` keyword, and the tokens consumed after it.
#[verifier::rlimit(100)]
proof fn lemma_rt_union_rest(
    s: Seq<TokenV>,
    i: int,
    attrs: Seq<crate::ast::AttributeV>,
    vis: Option<VisMarkerV>,
)
    requires
        0 <= i <= s.len(),
    ensures
        p_union_rest(s, i, attrs, vis) matches Ok(r) ==> i <= r.1 <= s.len() && r.0 is Union
            && e_union(r.0->Union_0) == e_attributes(attrs) + e_vis(vis) + seq![
            TokenV::Ident("union"@),
        ] + s.subrange(i, r.1),
{
    if i < s.len() {
        if let TokenV::Ident(name) = s[i] {
            lemma_rt_generics(s, i + 1);
            if let Ok((g, c)) = p_generics(s, i + 1) {
                lemma_rt_where(s, c);
                let (w, d) = p_where(s, c);
                assert(seq![TokenV::Ident(name)] =~= s.subrange(i, i + 1));
                assert(s.subrange(i, i + 1) + s.subrange(i + 1, c) =~= s.subrange(i, c));
                assert(s.subrange(i, c) + s.subrange(c, d) =~= s.subrange(i, d));
                if d < s.len() && is_group(s[d], Delim::Brace) {
                    lemma_rt_named_fields(crate::grammar::group_tokens(s[d]), 0);
                    if let Ok(fs) = p_named_fields(crate::grammar::group_tokens(s[d]), 0) {
                        if let TokenV::Group(dd, ts) = s[d] {
                            assert(ts.subrange(0, ts.len() as int) =~= ts);
                            assert(TokenV::Group(Delim::Brace, e_named_fields(fs)) == s[d]);
                        }
                        assert(s.subrange(i, d) + seq![s[d]] =~= s.subrange(i, d + 1));
                        if let Ok(r) = p_union_rest(s, i, attrs, vis) {
                            assert(e_union(r.0->Union_0) =~= e_attributes(attrs) + e_vis(vis)
                                + seq![TokenV::Ident("union"@)] + s.subrange(i, r.1));
                        }
                    }
                }
            }
        }
    }
}

/// A function declaration re-emits as its leading attributes and
/// visibility followed by the tokens consumed from its first qualifier on.
#[verifier::rlimit(100)]
proof fn lemma_rt_fn_rest(
    s: Seq<TokenV>,
    i: int,
    attrs: Seq<crate::ast::AttributeV>,
    vis: Option<VisMarkerV>,
)
    requires
        0 <= i <= s.len(),
    ensures
        p_fn_rest(s, i, attrs, vis) matches Ok(r) ==> i <= r.1 <= s.len() && r.0 is Function
            && e_function(r.0->Function_0) == e_attributes(attrs) + e_vis(vis) + s.subrange(
            i,
            r.1,
        ),
{
    lemma_rt_qualifiers(s, i);
    let (q, c) = p_qualifiers(s, i);
    if c < s.len() && is_kw(s[c], "fn"@) && c + 1 < s.len() {
        if let TokenV::Ident(name) = s[c + 1] {
            lemma_rt_generics(s, c + 2);
            if let Ok((g, d)) = p_generics(s, c + 2) {
                assert(seq![TokenV::Ident("fn"@), TokenV::Ident(name)] =~= s.subrange(c, c + 2));
                lemma_stitch(s, i, c, c + 2);
                lemma_stitch(s, i, c + 2, d);
                if d < s.len() && is_group(s[d], Delim::Paren) {
                    lemma_rt_fn_params(crate::grammar::group_tokens(s[d]), 0);
                    if let Ok(ps) = p_fn_params(crate::grammar::group_tokens(s[d]), 0) {
                        if let TokenV::Group(dd, ts) = s[d] {
                            assert(ts.subrange(0, ts.len() as int) =~= ts);
                            assert(TokenV::Group(Delim::Paren, e_fn_params(ps)) == s[d]);
                        }
                        lemma_one(s, d);
                        lemma_stitch(s, i, d, d + 1);
                        lemma_rt_fn_return(s, d + 1);
                        if let Ok((ret, e1)) = p_fn_return(s, d + 1) {
                            lemma_stitch(s, d + 1, e1, e1);
                            lemma_rt_where(s, e1);
                            let (w, f) = p_where(s, e1);
                            lemma_stitch(s, d + 1, e1, f);
                            if f < s.len() {
                                lemma_one(s, f);
                                lemma_stitch(s, d + 1, f, f + 1);
                                lemma_stitch(s, i, d + 1, f + 1);
                                if let Ok(r) = p_fn_rest(s, i, attrs, vis) {
                                    let fv = r.0->Function_0;
                                    let ta = e_attributes(attrs) + e_vis(vis);
                                    let qq = e_qualifiers(fv.qualifiers);
                                    let kk = seq![TokenV::Ident("fn"@), TokenV::Ident(name)];
                                    let gg = e_generics(fv.generic_params);
                                    let pp = seq![
                                        TokenV::Group(Delim::Paren, e_fn_params(fv.params)),
                                    ];
                                    let rr = match fv.return_ty {
                                        Some(ty) => seq![TokenV::Punct('-'), TokenV::Punct('>')]
                                            + ty.tokens,
                                        None => Seq::<TokenV>::empty(),
                                    };
                                    let ww = e_where(fv.where_clause);
                                    let bb = match fv.body {
                                        Some(bd) => seq![TokenV::Group(Delim::Brace, bd)],
                                        None => seq![TokenV::Punct(';')],
                                    };
                                    assert(e_function(fv) == ((((((ta + qq) + kk) + gg) + pp) + rr)
                                        + ww) + bb);
                                    assert(qq == s.subrange(i, c));
                                    assert(gg == s.subrange(c + 2, d));
                                    assert(pp == seq![s[d]]);
                                    assert(bb == seq![s[f]]);
                                    lemma_assoc(ta, qq, kk);
                                    assert(qq + kk == s.subrange(i, c + 2));
                                    lemma_assoc(ta, s.subrange(i, c + 2), gg);
                                    lemma_stitch(s, i, c + 2, d);
                                    lemma_assoc(ta, s.subrange(i, d), pp);
                                    assert(s.subrange(i, d) + pp == s.subrange(i, d + 1));
                                    lemma_assoc(ta, s.subrange(i, d + 1), rr);
                                    assert(rr == s.subrange(d + 1, e1));
                                    lemma_stitch(s, i, d + 1, e1);
                                    lemma_assoc(ta, s.subrange(i, e1), ww);
                                    assert(ww == s.subrange(e1, f));
                                    lemma_stitch(s, i, e1, f);
                                    lemma_assoc(ta, s.subrange(i, f), bb);
                                    assert(s.subrange(i, f) + bb == s.subrange(i, f + 1));
                                    assert(e_function(fv) == ta + s.subrange(i, f + 1));
                                }
                            }
                        }
                    }
                }
            }
        }
    }
}

/// The round-trip law: whenever the parser accepts an input, re-emitting
/// the returned tree gives back, token for token, exactly the prefix of the
/// input that the parse consumed.
#[verifier::rlimit(100)]
pub proof fn lemma_round_trip(s: Seq<TokenV>)
    ensures
        p_declaration(s) matches Ok(r) ==> 0 <= r.1 <= s.len() && e_declaration(r.0) == s.subrange(
            0,
            r.1,
        ),
{
    lemma_rt_attributes(s, 0);
    lemma_attributes(s, 0);
    if let Ok((attrs, a)) = p_attributes(s, 0) {
        lemma_rt_vis(s, a);
        let (vis, b) = p_vis(s, a);
        if b < s.len() {
            if let TokenV::Ident(kw) = s[b] {
                assert(s.subrange(0, a) + s.subrange(a, b) =~= s.subrange(0, b));
                assert(seq![s[b]] =~= s.subrange(b, b + 1));
                if kw == "struct"@ {
                    lemma_rt_struct_rest(s, b + 1, attrs, vis);
                    if let Ok(r) = p_struct_rest(s, b + 1, attrs, vis) {
                        assert(s.subrange(0, a) + s.subrange(a, b) == s.subrange(0, b)) by {
                            lemma_stitch(s, 0, a, b);
                        }
                        lemma_one(s, b);
                        lemma_stitch(s, 0, b, b + 1);
                        lemma_stitch(s, 0, b + 1, r.1);
                        lemma_assoc(s.subrange(0, a), s.subrange(a, b), seq![s[b]]);
                        lemma_assoc(s.subrange(0, b), seq![s[b]], s.subrange(b + 1, r.1));
                        assert(e_declaration(r.0) == s.subrange(0, r.1));
                    }
                } else if kw == "enum"@ {
                    lemma_rt_enum_rest(s, b + 1, attrs, vis);
                    if let Ok(r) = p_enum_rest(s, b + 1, attrs, vis) {
                        assert(s.subrange(0, a) + s.subrange(a, b) == s.subrange(0, b)) by {
                            lemma_stitch(s, 0, a, b);
                        }
                        lemma_one(s, b);
                        lemma_stitch(s, 0, b, b + 1);
                        lemma_stitch(s, 0, b + 1, r.1);
                        lemma_assoc(s.subrange(0, a), s.subrange(a, b), seq![s[b]]);
                        lemma_assoc(s.subrange(0, b), seq![s[b]], s.subrange(b + 1, r.1));
                        assert(e_declaration(r.0) == s.subrange(0, r.1));
                    }
                } else if kw == "union"@ {
                    lemma_rt_union_rest(s, b + 1, attrs, vis);
                    if let Ok(r) = p_union_rest(s, b + 1, attrs, vis) {
                        assert(s.subrange(0, a) + s.subrange(a, b) == s.subrange(0, b)) by {
                            lemma_stitch(s, 0, a, b);
                        }
                        lemma_one(s, b);
                        lemma_stitch(s, 0, b, b + 1);
                        lemma_stitch(s, 0, b + 1, r.1);
                        lemma_assoc(s.subrange(0, a), s.subrange(a, b), seq![s[b]]);
                        lemma_assoc(s.subrange(0, b), seq![s[b]], s.subrange(b + 1, r.1));
                        assert(e_declaration(r.0) == s.subrange(0, r.1));
                    }
                } else if crate::grammar::fn_leading_kw(kw) {
                    lemma_rt_fn_rest(s, b, attrs, vis);
                    if let Ok(r) = p_fn_rest(s, b, attrs, vis) {
                        assert(s.subrange(0, a) + s.subrange(a, b) == s.subrange(0, b)) by {
                            lemma_stitch(s, 0, a, b);
                        }
                        lemma_stitch(s, 0, b, r.1);
                        lemma_assoc(s.subrange(0, a), s.subrange(a, b), s.subrange(b, r.1));
                        assert(e_declaration(r.0) == s.subrange(0, r.1));
                    }
                }
            }
        }
    }
}

} // verus!

