//! The executable declaration parser. Every function is proved to return
//! exactly what the corresponding grammar function of [`crate::grammar`]
//! says, so the grammar is the single statement of the parser's behaviour.

use vstd::prelude::*;
use vstd::string::StringExecFns;

use crate::ast::{
    Attribute, Declaration, Enum, EnumVariant, Function, FunctionParameter, FunctionQualifiers,
    GenericParam, GenericParams, GenericPrefix, NamedField, ParseError, Struct, StructFields,
    TupleField, TyExpr, Union, VisMarker, WhereClause,
};
use crate::grammar::{
    ScanEnd, StopKind, is_group, is_kw, is_punct, lemma_attributes, lemma_scan, p_attributes,
    p_declaration, p_discriminant, p_field_ty, p_fn_params, p_fn_return, p_generic_cons,
    p_generic_list, p_generics, p_named_fields, p_qualifiers, p_struct_rest, p_tuple_fields,
    p_variants, p_vis, p_where, scan, stop_token,
};
use crate::token::{Delim, Token, TokenV, toks_dup, toks_view};

verus! {

/// True exactly when the token models the given punctuation character.
fn tok_is_punct(t: &Token, c: char) -> (r: bool)
    ensures
        r == is_punct(t@, c),
{
    match t {
        Token::Punct(cc) => *cc == c,
        _ => false,
    }
}

/// True exactly when the token models an identifier with the given text.
fn tok_is_kw(t: &Token, kw: &str) -> (r: bool)
    ensures
        r == is_kw(t@, kw@),
{
    match t {
        Token::Ident(s) => {
            let k = String::from_str(kw);
            *s == k
        },
        _ => false,
    }
}

/// True exactly when the token models a group with the given delimiter.
fn tok_is_group(t: &Token, d: Delim) -> (r: bool)
    ensures
        r == is_group(t@, d),
{
    match t {
        Token::Group(dd, _) => *dd == d,
        _ => false,
    }
}

/// A verbatim copy of the tokens in `[i, j)`.
fn copy_range(s: &Vec<Token>, i: usize, j: usize) -> (r: Vec<Token>)
    requires
        i <= j <= s@.len(),
    ensures
        toks_view(r@) == toks_view(s@).subrange(i as int, j as int),
{
    let mut out: Vec<Token> = Vec::new();
    let mut k: usize = i;
    while k < j
        invariant
            i <= k <= j <= s@.len(),
            out@.len() == k - i,
            forall|m: int| 0 <= m < out@.len() ==> out@[m]@ == s@[i + m]@,
        decreases j - k,
    {
        out.push(s[k].duplicate());
        k = k + 1;
    }
    proof {
        assert(toks_view(out@) =~= toks_view(s@).subrange(i as int, j as int));
    }
    out
}

/// Executable exact copy of the generic span scanner.
fn scan_span(s: &Vec<Token>, i: usize, k: StopKind) -> (r: (usize, ScanEnd))
    requires
        i <= s@.len(),
    ensures
        (r.0 as int, r.1) == scan(toks_view(s@), i as int, 0, false, k),
        i <= r.0 <= s@.len(),
{
    let ghost sv = toks_view(s@);
    let mut pos: usize = i;
    let mut depth: usize = 0;
    let mut dash: bool = false;
    loop
        invariant
            i <= pos <= s@.len(),
            depth <= pos,
            sv == toks_view(s@),
            scan(sv, i as int, 0, false, k) == scan(sv, pos as int, depth as int, dash, k),
        decreases s@.len() - pos,
    {
        if pos >= s.len() {
            return (pos, ScanEnd::Exhausted);
        }
        let t = &s[pos];
        proof {
            assert(sv[pos as int] == t@);
        }
        if tok_is_punct(t, '<') {
            depth = depth + 1;
            dash = false;
        } else if tok_is_punct(t, '>') && !dash {
            if depth == 0 {
                return (pos, ScanEnd::Negative);
            }
            depth = depth - 1;
            dash = false;
        } else if tok_is_punct(t, '-') {
            dash = true;
        } else {
            let stop = match k {
                StopKind::Comma => tok_is_punct(t, ','),
                StopKind::Body => tok_is_group(t, Delim::Brace) || tok_is_punct(t, ';'),
                StopKind::ReturnTy => tok_is_group(t, Delim::Brace) || tok_is_punct(t, ';')
                    || tok_is_kw(t, "where"),
            };
            proof {
                assert(stop == stop_token(k, t@));
            }
            if depth == 0 && stop {
                return (pos, ScanEnd::Stopped);
            }
            dash = false;
        }
        pos = pos + 1;
    }
}

/// Executable attribute-list parser.
fn parse_attributes(s: &Vec<Token>, i: usize) -> (r: Result<(Vec<Attribute>, usize), ParseError>)
    requires
        i <= s@.len(),
    ensures
        match (r, p_attributes(toks_view(s@), i as int)) {
            (Ok((a, j)), Ok(g)) => crate::ast::seq_view(a@) == g.0 && j as int == g.1 && i <= j
                <= s@.len(),
            (Err(e), Err(ge)) => e == ge,
            _ => false,
        },
    decreases s@.len() - i,
{
    let ghost sv = toks_view(s@);
    if i >= s.len() {
        return Ok((Vec::new(), i));
    }
    if !tok_is_punct(&s[i], '#') {
        proof {
            assert(crate::ast::seq_view(Seq::<Attribute>::empty()) =~= Seq::<
                crate::ast::AttributeV,
            >::empty());
        }
        return Ok((Vec::new(), i));
    }
    if i + 1 >= s.len() {
        return Err(ParseError::UnexpectedEof);
    }
    match &s[i + 1] {
        Token::Group(d, inner) if *d == Delim::Bracket => {
            match parse_attributes(s, i + 2) {
                Ok((rest, j)) => {
                    let mut out = rest;
                    out.insert(0, Attribute { tokens: toks_dup(inner) });
                    proof {
                        let g = p_attributes(sv, i as int)->Ok_0;
                        assert(crate::ast::seq_view(out@) =~= g.0);
                    }
                    Ok((out, j))
                },
                Err(e) => Err(e),
            }
        },
        _ => Err(ParseError::MalformedAttribute),
    }
}

/// Executable visibility-marker parser.
fn parse_vis_marker(s: &Vec<Token>, i: usize) -> (r: (Option<VisMarker>, usize))
    requires
        i <= s@.len(),
    ensures
        ({
            let g = p_vis(toks_view(s@), i as int);
            crate::ast::opt_view(r.0) == g.0 && r.1 as int == g.1 && i <= r.1 <= s@.len()
        }),
{
    if i >= s.len() {
        return (None, i);
    }
    if tok_is_kw(&s[i], "pub") {
        if i + 1 < s.len() {
            match &s[i + 1] {
                Token::Group(d, inner) if *d == Delim::Paren => {
                    return (Some(VisMarker::PublicScoped(toks_dup(inner))), i + 2);
                },
                _ => {},
            }
        }
        (Some(VisMarker::Public), i + 1)
    } else if tok_is_kw(&s[i], "crate") {
        (Some(VisMarker::CrateLevel), i + 1)
    } else {
        (None, i)
    }
}

/// Executable field-type parser: an opaque span up to the next top-level
/// comma, consuming the comma if present.
fn parse_field_ty(s: &Vec<Token>, i: usize) -> (r: Result<(Vec<Token>, bool, usize), ParseError>)
    requires
        i <= s@.len(),
    ensures
        match (r, p_field_ty(toks_view(s@), i as int)) {
            (Ok((ty, comma, j)), Ok(g)) => toks_view(ty@) == g.0 && comma == g.1 && j as int == g.2
                && i <= j <= s@.len() && (i < s@.len() ==> i < j),
            (Err(e), Err(ge)) => e == ge,
            _ => false,
        },
{
    let (j, end) = scan_span(s, i, StopKind::Comma);
    proof {
        lemma_scan(toks_view(s@), i as int, 0, false, StopKind::Comma);
        let g = scan(toks_view(s@), i as int, 0, false, StopKind::Comma);
        assert(j as int == g.0 && end == g.1);
    }
    let n = s.len();
    match end {
        ScanEnd::Negative => Err(ParseError::UnbalancedBrackets),
        ScanEnd::Stopped => Ok((copy_range(s, i, j), true, j + 1)),
        ScanEnd::Exhausted => Ok((copy_range(s, i, j), false, j)),
    }
}

/// Executable generic-parameter-list parser, entered just past the `<`.
fn parse_generic_list(s: &Vec<Token>, i: usize) -> (r: Result<
    (Vec<GenericParam>, usize),
    ParseError,
>)
    requires
        i <= s@.len(),
    ensures
        match (r, p_generic_list(toks_view(s@), i as int)) {
            (Ok((ps, j)), Ok(g)) => crate::ast::seq_view(ps@) == g.0 && j as int == g.1 && i <= j
                <= s@.len(),
            (Err(e), Err(ge)) => e == ge,
            _ => false,
        },
    decreases s@.len() - i,
{
    let ghost sv = toks_view(s@);
    if i >= s.len() {
        return Err(ParseError::UnexpectedEof);
    }
    if tok_is_punct(&s[i], '>') {
        proof {
            assert(crate::ast::seq_view(Seq::<GenericParam>::empty()) =~= Seq::<
                crate::ast::GenericParamV,
            >::empty());
        }
        return Ok((Vec::new(), i + 1));
    }
    let (prefix, p) = if tok_is_punct(&s[i], '\'') {
        (Some(GenericPrefix::Lifetime), i + 1)
    } else if tok_is_kw(&s[i], "const") {
        (Some(GenericPrefix::ConstParam), i + 1)
    } else {
        (None, i)
    };
    if p >= s.len() {
        return Err(ParseError::UnexpectedEof);
    }
    let name: String = match &s[p] {
        Token::Ident(n) => n.clone(),
        _ => {
            return Err(ParseError::ExpectedIdentifier);
        },
    };
    let q = p + 1;
    if q >= s.len() {
        return Err(ParseError::UnexpectedEof);
    }
    let (bound, comma, next) = if tok_is_punct(&s[q], ':') {
        let (j, end) = scan_span(s, q + 1, StopKind::Comma);
        proof {
            lemma_scan(sv, q + 1, 0, false, StopKind::Comma);
        }
        match end {
            ScanEnd::Stopped => (Some(copy_range(s, q + 1, j)), true, j + 1),
            _ => (Some(copy_range(s, q + 1, j)), false, j),
        }
    } else if tok_is_punct(&s[q], ',') {
        (None, true, q + 1)
    } else if tok_is_punct(&s[q], '>') {
        (None, false, q)
    } else {
        return Err(ParseError::UnrecognizedDeclaration);
    };
    let param = GenericParam { prefix, name, bound, comma };
    match parse_generic_list(s, next) {
        Ok((rest, j)) => {
            let mut out = rest;
            out.insert(0, param);
            proof {
                let g = p_generic_list(sv, i as int)->Ok_0;
                assert(crate::ast::seq_view(out@) =~= g.0);
            }
            Ok((out, j))
        },
        Err(e) => Err(e),
    }
}

/// Executable optional-generics parser.
fn parse_generics(s: &Vec<Token>, i: usize) -> (r: Result<
    (Option<GenericParams>, usize),
    ParseError,
>)
    requires
        i <= s@.len(),
    ensures
        match (r, p_generics(toks_view(s@), i as int)) {
            (Ok((ps, j)), Ok(g)) => crate::ast::opt_view(ps) == g.0 && j as int == g.1 && i <= j
                <= s@.len(),
            (Err(e), Err(ge)) => e == ge,
            _ => false,
        },
{
    if i < s.len() && tok_is_punct(&s[i], '<') {
        match parse_generic_list(s, i + 1) {
            Ok((params, j)) => Ok((Some(GenericParams { params }), j)),
            Err(e) => Err(e),
        }
    } else {
        Ok((None, i))
    }
}

/// Executable optional-where-clause parser.
fn parse_where_clause(s: &Vec<Token>, i: usize) -> (r: (Option<WhereClause>, usize))
    requires
        i <= s@.len(),
    ensures
        ({
            let g = p_where(toks_view(s@), i as int);
            crate::ast::opt_view(r.0) == g.0 && r.1 as int == g.1 && i <= r.1 <= s@.len()
        }),
{
    if i < s.len() && tok_is_kw(&s[i], "where") {
        let (j, _end) = scan_span(s, i + 1, StopKind::Body);
        proof {
            lemma_scan(toks_view(s@), i + 1, 0, false, StopKind::Body);
        }
        (Some(WhereClause { tokens: copy_range(s, i + 1, j) }), j)
    } else {
        (None, i)
    }
}

/// Executable optional-discriminant parser.
fn parse_discriminant(s: &Vec<Token>, i: usize) -> (r: Result<
    (Option<Vec<Token>>, usize),
    ParseError,
>)
    requires
        i <= s@.len(),
    ensures
        match (r, p_discriminant(toks_view(s@), i as int)) {
            (Ok((d, j)), Ok(g)) => match (d, g.0) {
                (Some(dv), Some(gv)) => toks_view(dv@) == gv && j as int == g.1 && i <= j
                    <= s@.len(),
                (None, None) => j as int == g.1 && i <= j <= s@.len(),
                _ => false,
            },
            (Err(e), Err(ge)) => e == ge,
            _ => false,
        },
{
    if i < s.len() && tok_is_punct(&s[i], '=') {
        let (j, end) = scan_span(s, i + 1, StopKind::Comma);
        proof {
            lemma_scan(toks_view(s@), i + 1, 0, false, StopKind::Comma);
        }
        match end {
            ScanEnd::Negative => Err(ParseError::UnbalancedBrackets),
            _ => Ok((Some(copy_range(s, i + 1, j)), j)),
        }
    } else {
        Ok((None, i))
    }
}

/// Executable function-qualifier parser.
fn parse_qualifiers(s: &Vec<Token>, i: usize) -> (r: (FunctionQualifiers, usize))
    requires
        i <= s@.len(),
    ensures
        ({
            let g = p_qualifiers(toks_view(s@), i as int);
            r.0@ == g.0 && r.1 as int == g.1 && i <= r.1 <= s@.len()
        }),
{
    let (is_default, a) = if i < s.len() && tok_is_kw(&s[i], "default") {
        (true, i + 1)
    } else {
        (false, i)
    };
    let (is_const, b) = if a < s.len() && tok_is_kw(&s[a], "const") {
        (true, a + 1)
    } else {
        (false, a)
    };
    let (is_async, c) = if b < s.len() && tok_is_kw(&s[b], "async") {
        (true, b + 1)
    } else {
        (false, b)
    };
    let (is_unsafe, d) = if c < s.len() && tok_is_kw(&s[c], "unsafe") {
        (true, c + 1)
    } else {
        (false, c)
    };
    if d < s.len() && tok_is_kw(&s[d], "extern") {
        let e1 = d + 1;
        if e1 < s.len() {
            match &s[e1] {
                Token::Literal(text) => {
                    return (
                        FunctionQualifiers {
                            is_default,
                            is_const,
                            is_async,
                            is_unsafe,
                            is_extern: true,
                            extern_abi: Some(text.clone()),
                        },
                        e1 + 1,
                    );
                },
                _ => {},
            }
        }
        (
            FunctionQualifiers {
                is_default,
                is_const,
                is_async,
                is_unsafe,
                is_extern: true,
                extern_abi: None,
            },
            e1,
        )
    } else {
        (
            FunctionQualifiers {
                is_default,
                is_const,
                is_async,
                is_unsafe,
                is_extern: false,
                extern_abi: None,
            },
            d,
        )
    }
}

/// Executable optional-return-type parser.
fn parse_fn_return(s: &Vec<Token>, i: usize) -> (r: Result<(Option<TyExpr>, usize), ParseError>)
    requires
        i <= s@.len(),
    ensures
        match (r, p_fn_return(toks_view(s@), i as int)) {
            (Ok((ty, j)), Ok(g)) => crate::ast::opt_view(ty) == g.0 && j as int == g.1 && i <= j
                <= s@.len(),
            (Err(e), Err(ge)) => e == ge,
            _ => false,
        },
{
    if i < s.len() && tok_is_punct(&s[i], '-') {
        if i + 1 >= s.len() {
            Err(ParseError::UnexpectedEof)
        } else if !tok_is_punct(&s[i + 1], '>') {
            Err(ParseError::UnrecognizedDeclaration)
        } else {
            let (j, end) = scan_span(s, i + 2, StopKind::ReturnTy);
            proof {
                lemma_scan(toks_view(s@), i + 2, 0, false, StopKind::ReturnTy);
            }
            match end {
                ScanEnd::Negative => Err(ParseError::UnbalancedBrackets),
                _ => Ok((Some(TyExpr { tokens: copy_range(s, i + 2, j) }), j)),
            }
        }
    } else {
        Ok((None, i))
    }
}

/// Executable tuple-field-list parser, run over the whole content of a
/// parenthesized group.
fn parse_tuple_fields(s: &Vec<Token>, i: usize) -> (r: Result<Vec<TupleField>, ParseError>)
    requires
        i <= s@.len(),
    ensures
        match (r, p_tuple_fields(toks_view(s@), i as int)) {
            (Ok(fs), Ok(g)) => crate::ast::seq_view(fs@) == g,
            (Err(e), Err(ge)) => e == ge,
            _ => false,
        },
    decreases s@.len() - i,
{
    let ghost sv = toks_view(s@);
    if i >= s.len() {
        proof {
            assert(crate::ast::seq_view(Seq::<TupleField>::empty()) =~= Seq::<
                crate::ast::TupleFieldV,
            >::empty());
        }
        return Ok(Vec::new());
    }
    let (attributes, a) = match parse_attributes(s, i) {
        Ok(p) => p,
        Err(e) => {
            return Err(e);
        },
    };
    let (vis_marker, b) = parse_vis_marker(s, a);
    let (ty, comma, j) = match parse_field_ty(s, b) {
        Ok(p) => p,
        Err(e) => {
            return Err(e);
        },
    };
    let field = TupleField { attributes, vis_marker, ty: TyExpr { tokens: ty }, comma };
    match parse_tuple_fields(s, j) {
        Ok(rest) => {
            let mut out = rest;
            out.insert(0, field);
            proof {
                let g = p_tuple_fields(sv, i as int)->Ok_0;
                assert(crate::ast::seq_view(out@) =~= g);
            }
            Ok(out)
        },
        Err(e) => Err(e),
    }
}

/// Executable named-field-list parser, run over the whole content of a
/// braced group.
fn parse_named_fields(s: &Vec<Token>, i: usize) -> (r: Result<Vec<NamedField>, ParseError>)
    requires
        i <= s@.len(),
    ensures
        match (r, p_named_fields(toks_view(s@), i as int)) {
            (Ok(fs), Ok(g)) => crate::ast::seq_view(fs@) == g,
            (Err(e), Err(ge)) => e == ge,
            _ => false,
        },
    decreases s@.len() - i,
{
    let ghost sv = toks_view(s@);
    if i >= s.len() {
        proof {
            assert(crate::ast::seq_view(Seq::<NamedField>::empty()) =~= Seq::<
                crate::ast::NamedFieldV,
            >::empty());
        }
        return Ok(Vec::new());
    }
    let (attributes, a) = match parse_attributes(s, i) {
        Ok(p) => p,
        Err(e) => {
            return Err(e);
        },
    };
    let (vis_marker, b) = parse_vis_marker(s, a);
    if b >= s.len() {
        return Err(ParseError::UnexpectedEof);
    }
    let name: String = match &s[b] {
        Token::Ident(n) => n.clone(),
        _ => {
            return Err(ParseError::ExpectedIdentifier);
        },
    };
    if b + 1 >= s.len() {
        return Err(ParseError::UnexpectedEof);
    }
    if !tok_is_punct(&s[b + 1], ':') {
        return Err(ParseError::ExpectedColon);
    }
    if b + 2 >= s.len() {
        return Err(ParseError::UnexpectedEof);
    }
    let (ty, comma, j) = match parse_field_ty(s, b + 2) {
        Ok(p) => p,
        Err(e) => {
            return Err(e);
        },
    };
    let field = NamedField { attributes, vis_marker, name, ty: TyExpr { tokens: ty }, comma };
    match parse_named_fields(s, j) {
        Ok(rest) => {
            let mut out = rest;
            out.insert(0, field);
            proof {
                let g = p_named_fields(sv, i as int)->Ok_0;
                assert(crate::ast::seq_view(out@) =~= g);
            }
            Ok(out)
        },
        Err(e) => Err(e),
    }
}

/// Executable enum-variant-list parser, run over the whole content of a
/// braced group.
#[verifier::rlimit(100)]
fn parse_enum_variants(s: &Vec<Token>, i: usize) -> (r: Result<Vec<EnumVariant>, ParseError>)
    requires
        i <= s@.len(),
    ensures
        match (r, p_variants(toks_view(s@), i as int)) {
            (Ok(vs), Ok(g)) => crate::ast::seq_view(vs@) == g,
            (Err(e), Err(ge)) => e == ge,
            _ => false,
        },
    decreases s@.len() - i,
{
    let ghost sv = toks_view(s@);
    if i >= s.len() {
        proof {
            assert(crate::ast::seq_view(Seq::<EnumVariant>::empty()) =~= Seq::<
                crate::ast::EnumVariantV,
            >::empty());
        }
        return Ok(Vec::new());
    }
    let (attributes, a) = match parse_attributes(s, i) {
        Ok(p) => p,
        Err(e) => {
            return Err(e);
        },
    };
    let (vis_marker, b) = parse_vis_marker(s, a);
    if b >= s.len() {
        return Err(ParseError::UnexpectedEof);
    }
    let name: String = match &s[b] {
        Token::Ident(n) => n.clone(),
        _ => {
            return Err(ParseError::ExpectedIdentifier);
        },
    };
    let c = b + 1;
    let (contents, d): (StructFields, usize) = if c >= s.len() || tok_is_punct(&s[c], ',')
        || tok_is_punct(&s[c], '=') {
        (StructFields::Unit, c)
    } else {
        match &s[c] {
            Token::Group(dd, inner) if *dd == Delim::Paren => {
                match parse_tuple_fields(inner, 0) {
                    Ok(fs) => (StructFields::Tuple(fs), c + 1),
                    Err(e) => {
                        return Err(e);
                    },
                }
            },
            Token::Group(dd, inner) if *dd == Delim::Brace => {
                match parse_named_fields(inner, 0) {
                    Ok(fs) => (StructFields::Named(fs), c + 1),
                    Err(e) => {
                        return Err(e);
                    },
                }
            },
            _ => {
                return Err(ParseError::UnrecognizedVariantShape);
            },
        }
    };
    let (discriminant, e1) = match parse_discriminant(s, d) {
        Ok(p) => p,
        Err(e) => {
            return Err(e);
        },
    };
    let (comma, f) = if e1 < s.len() && tok_is_punct(&s[e1], ',') {
        (true, e1 + 1)
    } else {
        (false, e1)
    };
    let variant = EnumVariant { attributes, vis_marker, name, contents, discriminant, comma };
    match parse_enum_variants(s, f) {
        Ok(rest) => {
            let mut out = rest;
            out.insert(0, variant);
            proof {
                let g = p_variants(sv, i as int)->Ok_0;
                assert(crate::ast::seq_view(out@) =~= g);
            }
            Ok(out)
        },
        Err(e) => Err(e),
    }
}

/// Executable function-parameter-list parser, run over the whole content of
/// a parenthesized group.
fn parse_fn_params(s: &Vec<Token>, i: usize) -> (r: Result<Vec<FunctionParameter>, ParseError>)
    requires
        i <= s@.len(),
    ensures
        match (r, p_fn_params(toks_view(s@), i as int)) {
            (Ok(ps), Ok(g)) => crate::ast::seq_view(ps@) == g,
            (Err(e), Err(ge)) => e == ge,
            _ => false,
        },
    decreases s@.len() - i,
{
    let ghost sv = toks_view(s@);
    if i >= s.len() {
        proof {
            assert(crate::ast::seq_view(Seq::<FunctionParameter>::empty()) =~= Seq::<
                crate::ast::FunctionParameterV,
            >::empty());
        }
        return Ok(Vec::new());
    }
    let (attributes, a) = match parse_attributes(s, i) {
        Ok(p) => p,
        Err(e) => {
            return Err(e);
        },
    };
    if a >= s.len() {
        return Err(ParseError::UnexpectedEof);
    }
    if tok_is_kw(&s[a], "self") || tok_is_kw(&s[a], "mut") {
        return Err(ParseError::UnsupportedParameterPattern);
    }
    let name: String = match &s[a] {
        Token::Ident(n) => n.clone(),
        _ => {
            return Err(ParseError::UnsupportedParameterPattern);
        },
    };
    if a + 1 >= s.len() {
        return Err(ParseError::UnexpectedEof);
    }
    if !tok_is_punct(&s[a + 1], ':') {
        return Err(ParseError::ExpectedColon);
    }
    let (ty, comma, j) = match parse_field_ty(s, a + 2) {
        Ok(p) => p,
        Err(e) => {
            return Err(e);
        },
    };
    let param = FunctionParameter { attributes, name, ty: TyExpr { tokens: ty }, comma };
    match parse_fn_params(s, j) {
        Ok(rest) => {
            let mut out = rest;
            out.insert(0, param);
            proof {
                let g = p_fn_params(sv, i as int)->Ok_0;
                assert(crate::ast::seq_view(out@) =~= g);
            }
            Ok(out)
        },
        Err(e) => Err(e),
    }
}

/// Executable struct parser, entered just past the `struct` keyword.
#[verifier::rlimit(100)]
fn parse_struct_rest(
    s: &Vec<Token>,
    i: usize,
    attributes: Vec<Attribute>,
    vis_marker: Option<VisMarker>,
) -> (r: Result<(Declaration, usize), ParseError>)
    requires
        i <= s@.len(),
    ensures
        match (r, crate::grammar::p_struct_rest(
            toks_view(s@),
            i as int,
            crate::ast::seq_view(attributes@),
            crate::ast::opt_view(vis_marker),
        )) {
            (Ok((d, j)), Ok(g)) => d@ == g.0 && j as int == g.1,
            (Err(e), Err(ge)) => e == ge,
            _ => false,
        },
{
    let ghost sv = toks_view(s@);
    let n = s.len();
    if i >= n {
        return Err(ParseError::UnexpectedEof);
    }
    let name: String = match &s[i] {
        Token::Ident(nm) => nm.clone(),
        _ => {
            return Err(ParseError::ExpectedIdentifier);
        },
    };
    let (generic_params, c) = match parse_generics(s, i + 1) {
        Ok(p) => p,
        Err(e) => {
            return Err(e);
        },
    };
    let (w1, d) = parse_where_clause(s, c);
    if d >= n {
        return Err(ParseError::UnexpectedEof);
    }
    if tok_is_punct(&s[d], ';') {
        return Ok(
            (
                Declaration::Struct(
                    Struct {
                        attributes,
                        vis_marker,
                        name,
                        generic_params,
                        where_clause: w1,
                        fields: StructFields::Unit,
                        semicolon: true,
                    },
                ),
                d + 1,
            ),
        );
    }
    match &s[d] {
        Token::Group(dd, inner) if *dd == Delim::Paren => {
            let fs = match parse_tuple_fields(inner, 0) {
                Ok(fs) => fs,
                Err(e) => {
                    return Err(e);
                },
            };
            let (w2, e1) = parse_where_clause(s, d + 1);
            let where_clause = if w2.is_some() {
                w2
            } else {
                w1
            };
            let (semicolon, f) = if e1 < n && tok_is_punct(&s[e1], ';') {
                (true, e1 + 1)
            } else {
                (false, e1)
            };
            Ok(
                (
                    Declaration::Struct(
                        Struct {
                            attributes,
                            vis_marker,
                            name,
                            generic_params,
                            where_clause,
                            fields: StructFields::Tuple(fs),
                            semicolon,
                        },
                    ),
                    f,
                ),
            )
        },
        Token::Group(dd, inner) if *dd == Delim::Brace => {
            let fs = match parse_named_fields(inner, 0) {
                Ok(fs) => fs,
                Err(e) => {
                    return Err(e);
                },
            };
            Ok(
                (
                    Declaration::Struct(
                        Struct {
                            attributes,
                            vis_marker,
                            name,
                            generic_params,
                            where_clause: w1,
                            fields: StructFields::Named(fs),
                            semicolon: false,
                        },
                    ),
                    d + 1,
                ),
            )
        },
        _ => Err(ParseError::UnrecognizedDeclaration),
    }
}

/// Executable enum parser, entered just past the `enum` keyword.
#[verifier::rlimit(100)]
fn parse_enum_rest(
    s: &Vec<Token>,
    i: usize,
    attributes: Vec<Attribute>,
    vis_marker: Option<VisMarker>,
) -> (r: Result<(Declaration, usize), ParseError>)
    requires
        i <= s@.len(),
    ensures
        match (r, crate::grammar::p_enum_rest(
            toks_view(s@),
            i as int,
            crate::ast::seq_view(attributes@),
            crate::ast::opt_view(vis_marker),
        )) {
            (Ok((d, j)), Ok(g)) => d@ == g.0 && j as int == g.1,
            (Err(e), Err(ge)) => e == ge,
            _ => false,
        },
{
    let n = s.len();
    if i >= n {
        return Err(ParseError::UnexpectedEof);
    }
    let name: String = match &s[i] {
        Token::Ident(nm) => nm.clone(),
        _ => {
            return Err(ParseError::ExpectedIdentifier);
        },
    };
    let (generic_params, c) = match parse_generics(s, i + 1) {
        Ok(p) => p,
        Err(e) => {
            return Err(e);
        },
    };
    let (where_clause, d) = parse_where_clause(s, c);
    if d >= n {
        return Err(ParseError::UnexpectedEof);
    }
    match &s[d] {
        Token::Group(dd, inner) if *dd == Delim::Brace => {
            let variants = match parse_enum_variants(inner, 0) {
                Ok(vs) => vs,
                Err(e) => {
                    return Err(e);
                },
            };
            Ok(
                (
                    Declaration::Enum(
                        Enum {
                            attributes,
                            vis_marker,
                            name,
                            generic_params,
                            where_clause,
                            variants,
                        },
                    ),
                    d + 1,
                ),
            )
        },
        _ => Err(ParseError::UnrecognizedDeclaration),
    }
}

/// Executable union parser, entered just past the `union` keyword.
#[verifier::rlimit(100)]
fn parse_union_rest(
    s: &Vec<Token>,
    i: usize,
    attributes: Vec<Attribute>,
    vis_marker: Option<VisMarker>,
) -> (r: Result<(Declaration, usize), ParseError>)
    requires
        i <= s@.len(),
    ensures
        match (r, crate::grammar::p_union_rest(
            toks_view(s@),
            i as int,
            crate::ast::seq_view(attributes@),
            crate::ast::opt_view(vis_marker),
        )) {
            (Ok((d, j)), Ok(g)) => d@ == g.0 && j as int == g.1,
            (Err(e), Err(ge)) => e == ge,
            _ => false,
        },
{
    let n = s.len();
    if i >= n {
        return Err(ParseError::UnexpectedEof);
    }
    let name: String = match &s[i] {
        Token::Ident(nm) => nm.clone(),
        _ => {
            return Err(ParseError::ExpectedIdentifier);
        },
    };
    let (generic_params, c) = match parse_generics(s, i + 1) {
        Ok(p) => p,
        Err(e) => {
            return Err(e);
        },
    };
    let (where_clause, d) = parse_where_clause(s, c);
    if d >= n {
        return Err(ParseError::UnexpectedEof);
    }
    match &s[d] {
        Token::Group(dd, inner) if *dd == Delim::Brace => {
            let fields = match parse_named_fields(inner, 0) {
                Ok(fs) => fs,
                Err(e) => {
                    return Err(e);
                },
            };
            Ok(
                (
                    Declaration::Union(
                        Union {
                            attributes,
                            vis_marker,
                            name,
                            generic_params,
                            where_clause,
                            fields,
                        },
                    ),
                    d + 1,
                ),
            )
        },
        _ => Err(ParseError::UnrecognizedDeclaration),
    }
}

/// Executable function parser, entered at its first qualifier or at `fn`.
#[verifier::rlimit(100)]
fn parse_fn_rest(
    s: &Vec<Token>,
    i: usize,
    attributes: Vec<Attribute>,
    vis_marker: Option<VisMarker>,
) -> (r: Result<(Declaration, usize), ParseError>)
    requires
        i <= s@.len(),
    ensures
        match (r, crate::grammar::p_fn_rest(
            toks_view(s@),
            i as int,
            crate::ast::seq_view(attributes@),
            crate::ast::opt_view(vis_marker),
        )) {
            (Ok((d, j)), Ok(g)) => d@ == g.0 && j as int == g.1,
            (Err(e), Err(ge)) => e == ge,
            _ => false,
        },
{
    let n = s.len();
    let (qualifiers, c) = parse_qualifiers(s, i);
    if c >= n {
        return Err(ParseError::UnexpectedEof);
    }
    if !tok_is_kw(&s[c], "fn") {
        return Err(ParseError::UnrecognizedDeclaration);
    }
    if c + 1 >= n {
        return Err(ParseError::UnexpectedEof);
    }
    let name: String = match &s[c + 1] {
        Token::Ident(nm) => nm.clone(),
        _ => {
            return Err(ParseError::ExpectedIdentifier);
        },
    };
    let (generic_params, d) = match parse_generics(s, c + 2) {
        Ok(p) => p,
        Err(e) => {
            return Err(e);
        },
    };
    if d >= n {
        return Err(ParseError::UnexpectedEof);
    }
    let params = match &s[d] {
        Token::Group(dd, inner) if *dd == Delim::Paren => {
            match parse_fn_params(inner, 0) {
                Ok(ps) => ps,
                Err(e) => {
                    return Err(e);
                },
            }
        },
        _ => {
            return Err(ParseError::UnrecognizedDeclaration);
        },
    };
    let (return_ty, e1) = match parse_fn_return(s, d + 1) {
        Ok(p) => p,
        Err(e) => {
            return Err(e);
        },
    };
    let (where_clause, f) = parse_where_clause(s, e1);
    if f >= n {
        return Err(ParseError::UnexpectedEof);
    }
    match &s[f] {
        Token::Group(dd, inner) if *dd == Delim::Brace => {
            Ok(
                (
                    Declaration::Function(
                        Function {
                            attributes,
                            vis_marker,
                            qualifiers,
                            name,
                            generic_params,
                            params,
                            return_ty,
                            where_clause,
                            body: Some(toks_dup(inner)),
                        },
                    ),
                    f + 1,
                ),
            )
        },
        _ => {
            if tok_is_punct(&s[f], ';') {
                Ok(
                    (
                        Declaration::Function(
                            Function {
                                attributes,
                                vis_marker,
                                qualifiers,
                                name,
                                generic_params,
                                params,
                                return_ty,
                                where_clause,
                                body: None,
                            },
                        ),
                        f + 1,
                    ),
                )
            } else {
                Err(ParseError::UnrecognizedDeclaration)
            }
        },
    }
}

/// Parses one declaration from the front of the token sequence: leading
/// attributes and visibility, then a dispatch on the declaration keyword.
/// Returns exactly what the grammar says, for every input: the parsed tree
/// on the inputs the grammar accepts, and the grammar's classified error on
/// all others.
pub fn parse_declaration(tokens: &Vec<Token>) -> (r: Result<Declaration, ParseError>)
    ensures
        match (r, p_declaration(toks_view(tokens@))) {
            (Ok(d), Ok(g)) => d@ == g.0,
            (Err(e), Err(ge)) => e == ge,
            _ => false,
        },
{
    let s = tokens;
    let n = s.len();
    let (attributes, a) = match parse_attributes(s, 0) {
        Ok(p) => p,
        Err(e) => {
            return Err(e);
        },
    };
    let (vis_marker, b) = parse_vis_marker(s, a);
    if b >= n {
        return Err(ParseError::UnexpectedEof);
    }
    let is_ident = match &s[b] {
        Token::Ident(_) => true,
        _ => false,
    };
    if !is_ident {
        return Err(ParseError::UnrecognizedDeclaration);
    }
    let r = if tok_is_kw(&s[b], "struct") {
        parse_struct_rest(s, b + 1, attributes, vis_marker)
    } else if tok_is_kw(&s[b], "enum") {
        parse_enum_rest(s, b + 1, attributes, vis_marker)
    } else if tok_is_kw(&s[b], "union") {
        parse_union_rest(s, b + 1, attributes, vis_marker)
    } else if tok_is_kw(&s[b], "default") || tok_is_kw(&s[b], "const") || tok_is_kw(&s[b], "async")
        || tok_is_kw(&s[b], "unsafe") || tok_is_kw(&s[b], "extern") || tok_is_kw(&s[b], "fn") {
        parse_fn_rest(s, b, attributes, vis_marker)
    } else {
        return Err(ParseError::UnrecognizedDeclaration);
    };
    match r {
        Ok((d, _consumed)) => Ok(d),
        Err(e) => Err(e),
    }
}

} // verus!
