//! The declaration grammar, written as total specification functions over
//! modelled token sequences. Each function mirrors one sub-parser: it takes
//! the whole input and a start position and gives back the parsed node
//! together with the position just past the tokens it consumed, or the
//! classified failure. The executable parser is proved equal to these
//! functions, and every stated law is a theorem about them.

use vstd::prelude::*;

use crate::ast::{
    AttributeV, DeclarationV, EnumV, EnumVariantV, FunctionParameterV, FunctionQualifiersV,
    FunctionV, GenericParamV, GenericParamsV, GenericPrefix, NamedFieldV, ParseError, StructFieldsV,
    StructV, TupleFieldV, TyExprV, UnionV, VisMarkerV, WhereClauseV,
};
use crate::token::{Delim, TokenV};

verus! {

/// Which tokens end a span scan, tested only at angle-bracket depth zero.
#[derive(Clone, Copy, Debug, PartialEq, Eq, Structural)]
pub enum StopKind {
    /// A comma: ends a field type, a bound, or a discriminant.
    Comma,
    /// A braced group or a semicolon: ends a where-clause run.
    Body,
    /// A braced group, a semicolon, or the where-keyword: ends a return type.
    ReturnTy,
}

/// Why a span scan ended.
#[derive(Clone, Copy, Debug, PartialEq, Eq, Structural)]
pub enum ScanEnd {
    /// The stop token appeared at depth zero (it is not consumed).
    Stopped,
    /// The input ran out.
    Exhausted,
    /// A `>` at depth zero: the enclosing construct ended here (the `>` is
    /// not consumed).
    Negative,
}

pub open spec fn is_punct(t: TokenV, c: char) -> bool {
    t == TokenV::Punct(c)
}

pub open spec fn is_kw(t: TokenV, s: Seq<char>) -> bool {
    t == TokenV::Ident(s)
}

pub open spec fn is_group(t: TokenV, d: Delim) -> bool {
    match t {
        TokenV::Group(dd, _) => dd == d,
        _ => false,
    }
}

pub open spec fn group_tokens(t: TokenV) -> Seq<TokenV> {
    match t {
        TokenV::Group(_, ts) => ts,
        _ => Seq::empty(),
    }
}

pub open spec fn stop_token(k: StopKind, t: TokenV) -> bool {
    match k {
        StopKind::Comma => is_punct(t, ','),
        StopKind::Body => is_group(t, Delim::Brace) || is_punct(t, ';'),
        StopKind::ReturnTy => is_group(t, Delim::Brace) || is_punct(t, ';') || is_kw(
            t,
            "where"@,
        ),
    }
}

/// The generic span scanner: walks forward from `i`, counting `<` up and `>`
/// down (except a `>` right after a `-`, which belongs to an arrow), and ends
/// at the first stop token seen at depth zero, at the end of input, or at a
/// `>` that would take the depth negative. Gives the end position and the
/// reason; the scanned span is `s.subrange(i, end)`.
pub open spec fn scan(s: Seq<TokenV>, i: int, depth: int, dash: bool, k: StopKind) -> (int, ScanEnd)
    decreases s.len() - i,
{
    if i < 0 || i >= s.len() {
        (i, ScanEnd::Exhausted)
    } else {
        let t = s[i];
        if is_punct(t, '<') {
            scan(s, i + 1, depth + 1, false, k)
        } else if is_punct(t, '>') && !dash {
            if depth == 0 {
                (i, ScanEnd::Negative)
            } else {
                scan(s, i + 1, depth - 1, false, k)
            }
        } else if is_punct(t, '-') {
            scan(s, i + 1, depth, true, k)
        } else if depth == 0 && stop_token(k, t) {
            (i, ScanEnd::Stopped)
        } else {
            scan(s, i + 1, depth, false, k)
        }
    }
}

pub proof fn lemma_scan(s: Seq<TokenV>, i: int, depth: int, dash: bool, k: StopKind)
    requires
        0 <= i <= s.len(),
    ensures
        i <= scan(s, i, depth, dash, k).0 <= s.len(),
        scan(s, i, depth, dash, k).1 == ScanEnd::Exhausted ==> scan(s, i, depth, dash, k).0
            == s.len(),
        scan(s, i, depth, dash, k).1 == ScanEnd::Stopped ==> scan(s, i, depth, dash, k).0 < s.len()
            && stop_token(k, s[scan(s, i, depth, dash, k).0]),
        scan(s, i, depth, dash, k).1 == ScanEnd::Negative ==> scan(s, i, depth, dash, k).0
            < s.len() && is_punct(s[scan(s, i, depth, dash, k).0], '>'),
    decreases s.len() - i,
{
    if i < s.len() {
        let t = s[i];
        if is_punct(t, '<') {
            lemma_scan(s, i + 1, depth + 1, false, k);
        } else if is_punct(t, '>') && !dash {
            if depth != 0 {
                lemma_scan(s, i + 1, depth - 1, false, k);
            }
        } else if is_punct(t, '-') {
            lemma_scan(s, i + 1, depth, true, k);
        } else if depth == 0 && stop_token(k, t) {
        } else {
            lemma_scan(s, i + 1, depth, false, k);
        }
    }
}

/// Attributes: a run of `#` markers, each of which must be followed by a
/// bracketed group.
pub open spec fn p_attributes(s: Seq<TokenV>, i: int) -> Result<(Seq<AttributeV>, int), ParseError>
    decreases s.len() - i,
{
    if i < 0 || i >= s.len() || !is_punct(s[i], '#') {
        Ok((Seq::empty(), i))
    } else if i + 1 >= s.len() {
        Err(ParseError::UnexpectedEof)
    } else if is_group(s[i + 1], Delim::Bracket) {
        match p_attributes(s, i + 2) {
            Ok((rest, j)) => Ok(
                (seq![AttributeV { tokens: group_tokens(s[i + 1]) }] + rest, j),
            ),
            Err(e) => Err(e),
        }
    } else {
        Err(ParseError::MalformedAttribute)
    }
}

pub proof fn lemma_attributes(s: Seq<TokenV>, i: int)
    requires
        0 <= i <= s.len(),
    ensures
        p_attributes(s, i) matches Ok(r) ==> i <= r.1 <= s.len(),
    decreases s.len() - i,
{
    if i < s.len() && is_punct(s[i], '#') && i + 1 < s.len() && is_group(s[i + 1], Delim::Bracket) {
        lemma_attributes(s, i + 2);
    }
}

/// A visibility marker: `pub`, `pub` with a parenthesized qualifier, or
/// `crate`. Never fails; absence means private.
pub open spec fn p_vis(s: Seq<TokenV>, i: int) -> (Option<VisMarkerV>, int) {
    if 0 <= i < s.len() && is_kw(s[i], "pub"@) {
        if i + 1 < s.len() && is_group(s[i + 1], Delim::Paren) {
            (Some(VisMarkerV::PublicScoped(group_tokens(s[i + 1]))), i + 2)
        } else {
            (Some(VisMarkerV::Public), i + 1)
        }
    } else if 0 <= i < s.len() && is_kw(s[i], "crate"@) {
        (Some(VisMarkerV::CrateLevel), i + 1)
    } else {
        (None, i)
    }
}

/// An opaque field-type span up to the next top-level comma, which is then
/// consumed if present. A `>` that would close an enclosing generic list is
/// an unbalanced bracket here.
pub open spec fn p_field_ty(s: Seq<TokenV>, i: int) -> Result<
    (Seq<TokenV>, bool, int),
    ParseError,
> {
    let (j, end) = scan(s, i, 0, false, StopKind::Comma);
    match end {
        ScanEnd::Negative => Err(ParseError::UnbalancedBrackets),
        ScanEnd::Stopped => Ok((s.subrange(i, j), true, j + 1)),
        ScanEnd::Exhausted => Ok((s.subrange(i, j), false, j)),
    }
}

/// The parameters of an angle-bracketed generic list, entered just past the
/// opening `<`; gives the position just past the closing `>`.
pub open spec fn p_generic_list(s: Seq<TokenV>, i: int) -> Result<
    (Seq<GenericParamV>, int),
    ParseError,
>
    decreases s.len() - i, 0int,
    via p_generic_list_dec
{
    if i < 0 || i >= s.len() {
        Err(ParseError::UnexpectedEof)
    } else if is_punct(s[i], '>') {
        Ok((Seq::empty(), i + 1))
    } else {
        let (prefix, p) = if is_punct(s[i], '\'') {
            (Some(GenericPrefix::Lifetime), i + 1)
        } else if is_kw(s[i], "const"@) {
            (Some(GenericPrefix::ConstParam), i + 1)
        } else {
            (None, i)
        };
        if p >= s.len() {
            Err(ParseError::UnexpectedEof)
        } else {
            match s[p] {
                TokenV::Ident(name) => {
                    let q = p + 1;
                    if q >= s.len() {
                        Err(ParseError::UnexpectedEof)
                    } else if is_punct(s[q], ':') {
                        let (j, end) = scan(s, q + 1, 0, false, StopKind::Comma);
                        match end {
                            ScanEnd::Stopped => p_generic_cons(
                                s,
                                GenericParamV {
                                    prefix,
                                    name,
                                    bound: Some(s.subrange(q + 1, j)),
                                    comma: true,
                                },
                                j + 1,
                            ),
                            _ => p_generic_cons(
                                s,
                                GenericParamV {
                                    prefix,
                                    name,
                                    bound: Some(s.subrange(q + 1, j)),
                                    comma: false,
                                },
                                j,
                            ),
                        }
                    } else if is_punct(s[q], ',') {
                        p_generic_cons(
                            s,
                            GenericParamV { prefix, name, bound: None, comma: true },
                            q + 1,
                        )
                    } else if is_punct(s[q], '>') {
                        p_generic_cons(
                            s,
                            GenericParamV { prefix, name, bound: None, comma: false },
                            q,
                        )
                    } else {
                        Err(ParseError::UnrecognizedDeclaration)
                    }
                },
                _ => Err(ParseError::ExpectedIdentifier),
            }
        }
    }
}

/// One parsed generic parameter followed by the rest of the list.
pub open spec fn p_generic_cons(s: Seq<TokenV>, param: GenericParamV, i: int) -> Result<
    (Seq<GenericParamV>, int),
    ParseError,
>
    decreases s.len() - i, 1int,
{
    match p_generic_list(s, i) {
        Ok((rest, j)) => Ok((seq![param] + rest, j)),
        Err(e) => Err(e),
    }
}

#[via_fn]
proof fn p_generic_list_dec(s: Seq<TokenV>, i: int) {
    if 0 <= i < s.len() {
        let p = if is_punct(s[i], '\'') || is_kw(s[i], "const"@) {
            i + 1
        } else {
            i
        };
        if p + 2 <= s.len() {
            lemma_scan(s, p + 2, 0, false, StopKind::Comma);
        }
    }
}

/// An optional generic parameter list, present exactly when the next token
/// is `<`.
pub open spec fn p_generics(s: Seq<TokenV>, i: int) -> Result<
    (Option<GenericParamsV>, int),
    ParseError,
> {
    if 0 <= i < s.len() && is_punct(s[i], '<') {
        match p_generic_list(s, i + 1) {
            Ok((params, j)) => Ok((Some(GenericParamsV { params }), j)),
            Err(e) => Err(e),
        }
    } else {
        Ok((None, i))
    }
}

/// An optional where-clause: the keyword plus an opaque run up to a braced
/// group or semicolon, neither of which is consumed. Never fails.
pub open spec fn p_where(s: Seq<TokenV>, i: int) -> (Option<WhereClauseV>, int) {
    if 0 <= i < s.len() && is_kw(s[i], "where"@) {
        let (j, _end) = scan(s, i + 1, 0, false, StopKind::Body);
        (Some(WhereClauseV { tokens: s.subrange(i + 1, j) }), j)
    } else {
        (None, i)
    }
}

/// An optional enum discriminant: `=` plus an opaque run up to the next
/// top-level comma, which is not consumed.
pub open spec fn p_discriminant(s: Seq<TokenV>, i: int) -> Result<
    (Option<Seq<TokenV>>, int),
    ParseError,
> {
    if 0 <= i < s.len() && is_punct(s[i], '=') {
        let (j, end) = scan(s, i + 1, 0, false, StopKind::Comma);
        match end {
            ScanEnd::Negative => Err(ParseError::UnbalancedBrackets),
            _ => Ok((Some(s.subrange(i + 1, j)), j)),
        }
    } else {
        Ok((None, i))
    }
}

/// The fields of a tuple struct or tuple variant: the whole token run of the
/// parenthesized group.
pub open spec fn p_tuple_fields(s: Seq<TokenV>, i: int) -> Result<Seq<TupleFieldV>, ParseError>
    decreases s.len() - i,
    via p_tuple_fields_dec
{
    if i < 0 || i >= s.len() {
        Ok(Seq::empty())
    } else {
        match p_attributes(s, i) {
            Err(e) => Err(e),
            Ok((attributes, a)) => {
                let (vis_marker, b) = p_vis(s, a);
                match p_field_ty(s, b) {
                    Err(e) => Err(e),
                    Ok((ty, comma, j)) => {
                        let field = TupleFieldV {
                            attributes,
                            vis_marker,
                            ty: TyExprV { tokens: ty },
                            comma,
                        };
                        match p_tuple_fields(s, j) {
                            Ok(rest) => Ok(seq![field] + rest),
                            Err(e) => Err(e),
                        }
                    },
                }
            },
        }
    }
}

#[via_fn]
proof fn p_tuple_fields_dec(s: Seq<TokenV>, i: int) {
    if 0 <= i < s.len() {
        lemma_attributes(s, i);
        if let Ok((_attrs, a)) = p_attributes(s, i) {
            let (_vis, b) = p_vis(s, a);
            lemma_scan(s, b, 0, false, StopKind::Comma);
        }
    }
}

/// The fields of a braced struct, union, or named variant: each is a name,
/// a colon, and an opaque type span.
pub open spec fn p_named_fields(s: Seq<TokenV>, i: int) -> Result<Seq<NamedFieldV>, ParseError>
    decreases s.len() - i,
    via p_named_fields_dec
{
    if i < 0 || i >= s.len() {
        Ok(Seq::empty())
    } else {
        match p_attributes(s, i) {
            Err(e) => Err(e),
            Ok((attributes, a)) => {
                let (vis_marker, b) = p_vis(s, a);
                if b >= s.len() {
                    Err(ParseError::UnexpectedEof)
                } else {
                    match s[b] {
                        TokenV::Ident(name) => {
                            if b + 1 >= s.len() {
                                Err(ParseError::UnexpectedEof)
                            } else if !is_punct(s[b + 1], ':') {
                                Err(ParseError::ExpectedColon)
                            } else if b + 2 >= s.len() {
                                Err(ParseError::UnexpectedEof)
                            } else {
                                match p_field_ty(s, b + 2) {
                                    Err(e) => Err(e),
                                    Ok((ty, comma, j)) => {
                                        let field = NamedFieldV {
                                            attributes,
                                            vis_marker,
                                            name,
                                            ty: TyExprV { tokens: ty },
                                            comma,
                                        };
                                        match p_named_fields(s, j) {
                                            Ok(rest) => Ok(seq![field] + rest),
                                            Err(e) => Err(e),
                                        }
                                    },
                                }
                            }
                        },
                        _ => Err(ParseError::ExpectedIdentifier),
                    }
                }
            },
        }
    }
}

#[via_fn]
proof fn p_named_fields_dec(s: Seq<TokenV>, i: int) {
    if 0 <= i < s.len() {
        lemma_attributes(s, i);
        if let Ok((_attrs, a)) = p_attributes(s, i) {
            let (_vis, b) = p_vis(s, a);
            if b + 2 < s.len() {
                lemma_scan(s, b + 2, 0, false, StopKind::Comma);
            }
        }
    }
}

/// The variants of an enum: the whole token run of the braced group. Each
/// variant dispatches on the token after its name: nothing, a comma or an
/// equals sign give a unit variant, a parenthesized group a tuple variant,
/// a braced group a named variant.
pub open spec fn p_variants(s: Seq<TokenV>, i: int) -> Result<Seq<EnumVariantV>, ParseError>
    decreases s.len() - i,
    via p_variants_dec
{
    if i < 0 || i >= s.len() {
        Ok(Seq::empty())
    } else {
        match p_attributes(s, i) {
            Err(e) => Err(e),
            Ok((attributes, a)) => {
                let (vis_marker, b) = p_vis(s, a);
                if b >= s.len() {
                    Err(ParseError::UnexpectedEof)
                } else {
                    match s[b] {
                        TokenV::Ident(name) => {
                            let c = b + 1;
                            let contents: Result<(StructFieldsV, int), ParseError> = if c >= s.len()
                                || is_punct(s[c], ',') || is_punct(s[c], '=') {
                                Ok((StructFieldsV::Unit, c))
                            } else if is_group(s[c], Delim::Paren) {
                                match p_tuple_fields(group_tokens(s[c]), 0) {
                                    Ok(fs) => Ok((StructFieldsV::Tuple(fs), c + 1)),
                                    Err(e) => Err(e),
                                }
                            } else if is_group(s[c], Delim::Brace) {
                                match p_named_fields(group_tokens(s[c]), 0) {
                                    Ok(fs) => Ok((StructFieldsV::Named(fs), c + 1)),
                                    Err(e) => Err(e),
                                }
                            } else {
                                Err(ParseError::UnrecognizedVariantShape)
                            };
                            match contents {
                                Err(e) => Err(e),
                                Ok((contents, d)) => match p_discriminant(s, d) {
                                    Err(e) => Err(e),
                                    Ok((discriminant, e1)) => {
                                        let (comma, f) = if 0 <= e1 < s.len() && is_punct(
                                            s[e1],
                                            ',',
                                        ) {
                                            (true, e1 + 1)
                                        } else {
                                            (false, e1)
                                        };
                                        let variant = EnumVariantV {
                                            attributes,
                                            vis_marker,
                                            name,
                                            contents,
                                            discriminant,
                                            comma,
                                        };
                                        match p_variants(s, f) {
                                            Ok(rest) => Ok(seq![variant] + rest),
                                            Err(e) => Err(e),
                                        }
                                    },
                                },
                            }
                        },
                        _ => Err(ParseError::ExpectedIdentifier),
                    }
                }
            },
        }
    }
}

#[via_fn]
proof fn p_variants_dec(s: Seq<TokenV>, i: int) {
    if 0 <= i < s.len() {
        lemma_attributes(s, i);
        if let Ok((_attrs, a)) = p_attributes(s, i) {
            let (_vis, b) = p_vis(s, a);
            if b + 2 <= s.len() {
                lemma_scan(s, b + 2, 0, false, StopKind::Comma);
            }
            if b + 3 <= s.len() {
                lemma_scan(s, b + 3, 0, false, StopKind::Comma);
            }
        }
    }
}

/// The function qualifiers, each optional but in fixed order, then an
/// optional `extern` with an optional ABI literal. Never fails.
pub open spec fn p_qualifiers(s: Seq<TokenV>, i: int) -> (FunctionQualifiersV, int) {
    let (is_default, a) = if 0 <= i < s.len() && is_kw(s[i], "default"@) {
        (true, i + 1)
    } else {
        (false, i)
    };
    let (is_const, b) = if a < s.len() && is_kw(s[a], "const"@) {
        (true, a + 1)
    } else {
        (false, a)
    };
    let (is_async, c) = if b < s.len() && is_kw(s[b], "async"@) {
        (true, b + 1)
    } else {
        (false, b)
    };
    let (is_unsafe, d) = if c < s.len() && is_kw(s[c], "unsafe"@) {
        (true, c + 1)
    } else {
        (false, c)
    };
    if d < s.len() && is_kw(s[d], "extern"@) {
        let e1 = d + 1;
        if e1 < s.len() && (s[e1] matches TokenV::Literal(_)) {
            (
                FunctionQualifiersV {
                    is_default,
                    is_const,
                    is_async,
                    is_unsafe,
                    is_extern: true,
                    extern_abi: Some(s[e1]->Literal_0),
                },
                e1 + 1,
            )
        } else {
            (
                FunctionQualifiersV {
                    is_default,
                    is_const,
                    is_async,
                    is_unsafe,
                    is_extern: true,
                    extern_abi: None,
                },
                e1,
            )
        }
    } else {
        (
            FunctionQualifiersV {
                is_default,
                is_const,
                is_async,
                is_unsafe,
                is_extern: false,
                extern_abi: None,
            },
            d,
        )
    }
}

/// An optional return type: an arrow, then an opaque span up to a braced
/// group, a semicolon, or the where-keyword.
pub open spec fn p_fn_return(s: Seq<TokenV>, i: int) -> Result<
    (Option<TyExprV>, int),
    ParseError,
> {
    if 0 <= i < s.len() && is_punct(s[i], '-') {
        if i + 1 >= s.len() {
            Err(ParseError::UnexpectedEof)
        } else if !is_punct(s[i + 1], '>') {
            Err(ParseError::UnrecognizedDeclaration)
        } else {
            let (j, end) = scan(s, i + 2, 0, false, StopKind::ReturnTy);
            match end {
                ScanEnd::Negative => Err(ParseError::UnbalancedBrackets),
                _ => Ok((Some(TyExprV { tokens: s.subrange(i + 2, j) }), j)),
            }
        }
    } else {
        Ok((None, i))
    }
}

/// The parameters of a function: the whole token run of the parenthesized
/// group. Only plain identifier names are supported; `self`, `mut`,
/// patterns and variadics are rejected.
pub open spec fn p_fn_params(s: Seq<TokenV>, i: int) -> Result<
    Seq<FunctionParameterV>,
    ParseError,
>
    decreases s.len() - i,
    via p_fn_params_dec
{
    if i < 0 || i >= s.len() {
        Ok(Seq::empty())
    } else {
        match p_attributes(s, i) {
            Err(e) => Err(e),
            Ok((attributes, a)) => {
                if a >= s.len() {
                    Err(ParseError::UnexpectedEof)
                } else {
                    match s[a] {
                        TokenV::Ident(name) => {
                            if name == "self"@ || name == "mut"@ {
                                Err(ParseError::UnsupportedParameterPattern)
                            } else if a + 1 >= s.len() {
                                Err(ParseError::UnexpectedEof)
                            } else if !is_punct(s[a + 1], ':') {
                                Err(ParseError::ExpectedColon)
                            } else {
                                match p_field_ty(s, a + 2) {
                                    Err(e) => Err(e),
                                    Ok((ty, comma, j)) => {
                                        let param = FunctionParameterV {
                                            attributes,
                                            name,
                                            ty: TyExprV { tokens: ty },
                                            comma,
                                        };
                                        match p_fn_params(s, j) {
                                            Ok(rest) => Ok(seq![param] + rest),
                                            Err(e) => Err(e),
                                        }
                                    },
                                }
                            }
                        },
                        _ => Err(ParseError::UnsupportedParameterPattern),
                    }
                }
            },
        }
    }
}

#[via_fn]
proof fn p_fn_params_dec(s: Seq<TokenV>, i: int) {
    if 0 <= i < s.len() {
        lemma_attributes(s, i);
        if let Ok((_attrs, a)) = p_attributes(s, i) {
            if a + 2 <= s.len() {
                lemma_scan(s, a + 2, 0, false, StopKind::Comma);
            }
        }
    }
}

/// The set of identifiers that can open a function declaration.
pub open spec fn fn_leading_kw(name: Seq<char>) -> bool {
    name == "default"@ || name == "const"@ || name == "async"@ || name == "unsafe"@ || name
        == "extern"@ || name == "fn"@
}

/// A struct declaration, entered just past the `struct` keyword.
pub open spec fn p_struct_rest(
    s: Seq<TokenV>,
    i: int,
    attributes: Seq<AttributeV>,
    vis_marker: Option<VisMarkerV>,
) -> Result<(DeclarationV, int), ParseError> {
    if i >= s.len() {
        Err(ParseError::UnexpectedEof)
    } else {
        match s[i] {
            TokenV::Ident(name) => match p_generics(s, i + 1) {
                Err(e) => Err(e),
                Ok((generic_params, c)) => {
                    let (w1, d) = p_where(s, c);
                    if d >= s.len() {
                        Err(ParseError::UnexpectedEof)
                    } else if is_punct(s[d], ';') {
                        Ok(
                            (
                                DeclarationV::Struct(
                                    StructV {
                                        attributes,
                                        vis_marker,
                                        name,
                                        generic_params,
                                        where_clause: w1,
                                        fields: StructFieldsV::Unit,
                                        semicolon: true,
                                    },
                                ),
                                d + 1,
                            ),
                        )
                    } else if is_group(s[d], Delim::Paren) {
                        match p_tuple_fields(group_tokens(s[d]), 0) {
                            Err(e) => Err(e),
                            Ok(fs) => {
                                let (w2, e1) = p_where(s, d + 1);
                                let where_clause = if w2 is Some {
                                    w2
                                } else {
                                    w1
                                };
                                let (semicolon, f) = if e1 < s.len() && is_punct(s[e1], ';') {
                                    (true, e1 + 1)
                                } else {
                                    (false, e1)
                                };
                                Ok(
                                    (
                                        DeclarationV::Struct(
                                            StructV {
                                                attributes,
                                                vis_marker,
                                                name,
                                                generic_params,
                                                where_clause,
                                                fields: StructFieldsV::Tuple(fs),
                                                semicolon,
                                            },
                                        ),
                                        f,
                                    ),
                                )
                            },
                        }
                    } else if is_group(s[d], Delim::Brace) {
                        match p_named_fields(group_tokens(s[d]), 0) {
                            Err(e) => Err(e),
                            Ok(fs) => Ok(
                                (
                                    DeclarationV::Struct(
                                        StructV {
                                            attributes,
                                            vis_marker,
                                            name,
                                            generic_params,
                                            where_clause: w1,
                                            fields: StructFieldsV::Named(fs),
                                            semicolon: false,
                                        },
                                    ),
                                    d + 1,
                                ),
                            ),
                        }
                    } else {
                        Err(ParseError::UnrecognizedDeclaration)
                    }
                },
            },
            _ => Err(ParseError::ExpectedIdentifier),
        }
    }
}

/// An enum declaration, entered just past the `enum` keyword.
pub open spec fn p_enum_rest(
    s: Seq<TokenV>,
    i: int,
    attributes: Seq<AttributeV>,
    vis_marker: Option<VisMarkerV>,
) -> Result<(DeclarationV, int), ParseError> {
    if i >= s.len() {
        Err(ParseError::UnexpectedEof)
    } else {
        match s[i] {
            TokenV::Ident(name) => match p_generics(s, i + 1) {
                Err(e) => Err(e),
                Ok((generic_params, c)) => {
                    let (where_clause, d) = p_where(s, c);
                    if d >= s.len() {
                        Err(ParseError::UnexpectedEof)
                    } else if is_group(s[d], Delim::Brace) {
                        match p_variants(group_tokens(s[d]), 0) {
                            Err(e) => Err(e),
                            Ok(variants) => Ok(
                                (
                                    DeclarationV::Enum(
                                        EnumV {
                                            attributes,
                                            vis_marker,
                                            name,
                                            generic_params,
                                            where_clause,
                                            variants,
                                        },
                                    ),
                                    d + 1,
                                ),
                            ),
                        }
                    } else {
                        Err(ParseError::UnrecognizedDeclaration)
                    }
                },
            },
            _ => Err(ParseError::ExpectedIdentifier),
        }
    }
}

/// A union declaration, entered just past the `union` keyword.
pub open spec fn p_union_rest(
    s: Seq<TokenV>,
    i: int,
    attributes: Seq<AttributeV>,
    vis_marker: Option<VisMarkerV>,
) -> Result<(DeclarationV, int), ParseError> {
    if i >= s.len() {
        Err(ParseError::UnexpectedEof)
    } else {
        match s[i] {
            TokenV::Ident(name) => match p_generics(s, i + 1) {
                Err(e) => Err(e),
                Ok((generic_params, c)) => {
                    let (where_clause, d) = p_where(s, c);
                    if d >= s.len() {
                        Err(ParseError::UnexpectedEof)
                    } else if is_group(s[d], Delim::Brace) {
                        match p_named_fields(group_tokens(s[d]), 0) {
                            Err(e) => Err(e),
                            Ok(fields) => Ok(
                                (
                                    DeclarationV::Union(
                                        UnionV {
                                            attributes,
                                            vis_marker,
                                            name,
                                            generic_params,
                                            where_clause,
                                            fields,
                                        },
                                    ),
                                    d + 1,
                                ),
                            ),
                        }
                    } else {
                        Err(ParseError::UnrecognizedDeclaration)
                    }
                },
            },
            _ => Err(ParseError::ExpectedIdentifier),
        }
    }
}

/// A function declaration, entered at its first qualifier or at `fn`.
pub open spec fn p_fn_rest(
    s: Seq<TokenV>,
    i: int,
    attributes: Seq<AttributeV>,
    vis_marker: Option<VisMarkerV>,
) -> Result<(DeclarationV, int), ParseError> {
    let (qualifiers, c) = p_qualifiers(s, i);
    if c >= s.len() {
        Err(ParseError::UnexpectedEof)
    } else if !is_kw(s[c], "fn"@) {
        Err(ParseError::UnrecognizedDeclaration)
    } else if c + 1 >= s.len() {
        Err(ParseError::UnexpectedEof)
    } else {
        match s[c + 1] {
            TokenV::Ident(name) => match p_generics(s, c + 2) {
                Err(e) => Err(e),
                Ok((generic_params, d)) => {
                    if d >= s.len() {
                        Err(ParseError::UnexpectedEof)
                    } else if !is_group(s[d], Delim::Paren) {
                        Err(ParseError::UnrecognizedDeclaration)
                    } else {
                        match p_fn_params(group_tokens(s[d]), 0) {
                            Err(e) => Err(e),
                            Ok(params) => match p_fn_return(s, d + 1) {
                                Err(e) => Err(e),
                                Ok((return_ty, e1)) => {
                                    let (where_clause, f) = p_where(s, e1);
                                    if f >= s.len() {
                                        Err(ParseError::UnexpectedEof)
                                    } else if is_group(s[f], Delim::Brace) {
                                        Ok(
                                            (
                                                DeclarationV::Function(
                                                    FunctionV {
                                                        attributes,
                                                        vis_marker,
                                                        qualifiers,
                                                        name,
                                                        generic_params,
                                                        params,
                                                        return_ty,
                                                        where_clause,
                                                        body: Some(group_tokens(s[f])),
                                                    },
                                                ),
                                                f + 1,
                                            ),
                                        )
                                    } else if is_punct(s[f], ';') {
                                        Ok(
                                            (
                                                DeclarationV::Function(
                                                    FunctionV {
                                                        attributes,
                                                        vis_marker,
                                                        qualifiers,
                                                        name,
                                                        generic_params,
                                                        params,
                                                        return_ty,
                                                        where_clause,
                                                        body: None,
                                                    },
                                                ),
                                                f + 1,
                                            ),
                                        )
                                    } else {
                                        Err(ParseError::UnrecognizedDeclaration)
                                    }
                                },
                            },
                        }
                    }
                },
            },
            _ => Err(ParseError::ExpectedIdentifier),
        }
    }
}

/// One whole declaration: attributes, visibility, then a dispatch on the
/// leading keyword. Gives the declaration and the position just past the
/// tokens that belong to it.
pub open spec fn p_declaration(s: Seq<TokenV>) -> Result<(DeclarationV, int), ParseError> {
    match p_attributes(s, 0) {
        Err(e) => Err(e),
        Ok((attributes, a)) => {
            let (vis_marker, b) = p_vis(s, a);
            if b >= s.len() {
                Err(ParseError::UnexpectedEof)
            } else {
                match s[b] {
                    TokenV::Ident(kw) => if kw == "struct"@ {
                        p_struct_rest(s, b + 1, attributes, vis_marker)
                    } else if kw == "enum"@ {
                        p_enum_rest(s, b + 1, attributes, vis_marker)
                    } else if kw == "union"@ {
                        p_union_rest(s, b + 1, attributes, vis_marker)
                    } else if fn_leading_kw(kw) {
                        p_fn_rest(s, b, attributes, vis_marker)
                    } else {
                        Err(ParseError::UnrecognizedDeclaration)
                    },
                    _ => Err(ParseError::UnrecognizedDeclaration),
                }
            }
        },
    }
}

} // verus!
