//! Re-emission: turns a parsed declaration back into the token sequence it
//! came from. The specification functions here define, node by node, the
//! exact token run a tree stands for; the executable emitter is proved to
//! produce it, and the round-trip law says that a parse's result always
//! re-emits to the very tokens that were consumed.

use vstd::prelude::*;

use crate::ast::{
    Attribute, AttributeV, Declaration, DeclarationV, Enum, EnumVariant, EnumVariantV, EnumV,
    Function, FunctionParameter, FunctionParameterV, FunctionQualifiers, FunctionQualifiersV,
    FunctionV, GenericParam, GenericParams, GenericParamsV, GenericParamV, GenericPrefix,
    NamedField, NamedFieldV, Struct, StructFields, StructFieldsV, StructV, TupleField, TupleFieldV,
    TyExpr, Union, UnionV, VisMarker, VisMarkerV, WhereClause, WhereClauseV,
};
use vstd::string::StringExecFns;

use crate::token::{Delim, Token, TokenV, toks_dup, toks_view};

verus! {

broadcast use vstd::std_specs::vec::group_vec_axioms, vstd::seq_lib::group_seq_lib_default;

/// Concatenation of the emissions of each element of a list.
pub open spec fn e_concat<A>(s: Seq<A>, f: spec_fn(A) -> Seq<TokenV>) -> Seq<TokenV>
    decreases s.len(),
{
    if s.len() == 0 {
        Seq::empty()
    } else {
        f(s[0]) + e_concat(s.drop_first(), f)
    }
}

pub proof fn lemma_e_concat_cons<A>(x: A, rest: Seq<A>, f: spec_fn(A) -> Seq<TokenV>)
    ensures
        e_concat(seq![x] + rest, f) == f(x) + e_concat(rest, f),
{
    let s = seq![x] + rest;
    assert(s.len() == rest.len() + 1);
    assert(s[0] == x);
    assert(s.drop_first() =~= rest);
}

pub proof fn lemma_e_concat_snoc<A>(s: Seq<A>, x: A, f: spec_fn(A) -> Seq<TokenV>)
    ensures
        e_concat(s.push(x), f) == e_concat(s, f) + f(x),
    decreases s.len(),
{
    if s.len() == 0 {
        assert(s.push(x)[0] == x);
        assert(s.push(x).drop_first() =~= Seq::<A>::empty());
        assert(e_concat(s.push(x), f) == f(x) + e_concat(Seq::<A>::empty(), f));
        assert(e_concat(s.push(x), f) =~= e_concat(s, f) + f(x));
    } else {
        assert(s.push(x)[0] == s[0]);
        assert(s.push(x).drop_first() =~= s.drop_first().push(x));
        lemma_e_concat_snoc(s.drop_first(), x, f);
        assert(e_concat(s.push(x), f) == f(s[0]) + (e_concat(s.drop_first(), f) + f(x)));
        assert(e_concat(s.push(x), f) =~= (f(s[0]) + e_concat(s.drop_first(), f)) + f(x));
        assert(e_concat(s, f) == f(s[0]) + e_concat(s.drop_first(), f));
    }
}

/// The tokens of one attribute: the marker and the bracketed group.
pub open spec fn e_attribute(a: AttributeV) -> Seq<TokenV> {
    seq![TokenV::Punct('#'), TokenV::Group(Delim::Bracket, a.tokens)]
}

pub open spec fn e_attributes(s: Seq<AttributeV>) -> Seq<TokenV> {
    e_concat(s, |a: AttributeV| e_attribute(a))
}

pub proof fn lemma_e_attributes_snoc(s: Seq<AttributeV>, x: AttributeV)
    ensures
        e_attributes(s.push(x)) == e_attributes(s) + e_attribute(x),
{
    lemma_e_concat_snoc(s, x, |a: AttributeV| e_attribute(a));
}

/// The tokens of an optional visibility marker.
pub open spec fn e_vis(v: Option<VisMarkerV>) -> Seq<TokenV> {
    match v {
        None => Seq::empty(),
        Some(VisMarkerV::Public) => seq![TokenV::Ident("pub"@)],
        Some(VisMarkerV::PublicScoped(ts)) => seq![
            TokenV::Ident("pub"@),
            TokenV::Group(Delim::Paren, ts),
        ],
        Some(VisMarkerV::CrateLevel) => seq![TokenV::Ident("crate"@)],
    }
}

/// The tokens of one generic parameter, with its separating comma if one
/// followed it.
pub open spec fn e_generic_param(p: GenericParamV) -> Seq<TokenV> {
    (match p.prefix {
        Some(GenericPrefix::Lifetime) => seq![TokenV::Punct('\'')],
        Some(GenericPrefix::ConstParam) => seq![TokenV::Ident("const"@)],
        None => Seq::empty(),
    }) + seq![TokenV::Ident(p.name)] + (match p.bound {
        Some(ts) => seq![TokenV::Punct(':')] + ts,
        None => Seq::empty(),
    }) + (if p.comma {
        seq![TokenV::Punct(',')]
    } else {
        Seq::empty()
    })
}

pub open spec fn e_generic_params(s: Seq<GenericParamV>) -> Seq<TokenV> {
    e_concat(s, |p: GenericParamV| e_generic_param(p))
}

/// The tokens of an optional generic parameter list, angle brackets
/// included.
pub open spec fn e_generics(g: Option<GenericParamsV>) -> Seq<TokenV> {
    match g {
        None => Seq::empty(),
        Some(gp) => seq![TokenV::Punct('<')] + e_generic_params(gp.params) + seq![
            TokenV::Punct('>'),
        ],
    }
}

/// The tokens of an optional where-clause.
pub open spec fn e_where(w: Option<WhereClauseV>) -> Seq<TokenV> {
    match w {
        None => Seq::empty(),
        Some(wc) => seq![TokenV::Ident("where"@)] + wc.tokens,
    }
}

/// The tokens of one tuple field.
pub open spec fn e_tuple_field(f: TupleFieldV) -> Seq<TokenV> {
    e_attributes(f.attributes) + e_vis(f.vis_marker) + f.ty.tokens + (if f.comma {
        seq![TokenV::Punct(',')]
    } else {
        Seq::empty()
    })
}

pub open spec fn e_tuple_fields(s: Seq<TupleFieldV>) -> Seq<TokenV> {
    e_concat(s, |f: TupleFieldV| e_tuple_field(f))
}

/// The tokens of one named field.
pub open spec fn e_named_field(f: NamedFieldV) -> Seq<TokenV> {
    e_attributes(f.attributes) + e_vis(f.vis_marker) + seq![
        TokenV::Ident(f.name),
        TokenV::Punct(':'),
    ] + f.ty.tokens + (if f.comma {
        seq![TokenV::Punct(',')]
    } else {
        Seq::empty()
    })
}

pub open spec fn e_named_fields(s: Seq<NamedFieldV>) -> Seq<TokenV> {
    e_concat(s, |f: NamedFieldV| e_named_field(f))
}

/// The tokens of one enum variant.
pub open spec fn e_variant(v: EnumVariantV) -> Seq<TokenV> {
    e_attributes(v.attributes) + e_vis(v.vis_marker) + seq![TokenV::Ident(v.name)] + (match v.contents {
        StructFieldsV::Unit => Seq::empty(),
        StructFieldsV::Tuple(fs) => seq![TokenV::Group(Delim::Paren, e_tuple_fields(fs))],
        StructFieldsV::Named(fs) => seq![TokenV::Group(Delim::Brace, e_named_fields(fs))],
    }) + (match v.discriminant {
        Some(ts) => seq![TokenV::Punct('=')] + ts,
        None => Seq::empty(),
    }) + (if v.comma {
        seq![TokenV::Punct(',')]
    } else {
        Seq::empty()
    })
}

pub open spec fn e_variants(s: Seq<EnumVariantV>) -> Seq<TokenV> {
    e_concat(s, |v: EnumVariantV| e_variant(v))
}

/// The tokens of the function qualifiers, in their fixed order.
pub open spec fn e_qualifiers(q: FunctionQualifiersV) -> Seq<TokenV> {
    (if q.is_default {
        seq![TokenV::Ident("default"@)]
    } else {
        Seq::empty()
    }) + (if q.is_const {
        seq![TokenV::Ident("const"@)]
    } else {
        Seq::empty()
    }) + (if q.is_async {
        seq![TokenV::Ident("async"@)]
    } else {
        Seq::empty()
    }) + (if q.is_unsafe {
        seq![TokenV::Ident("unsafe"@)]
    } else {
        Seq::empty()
    }) + (if q.is_extern {
        seq![TokenV::Ident("extern"@)] + (match q.extern_abi {
            Some(abi) => seq![TokenV::Literal(abi)],
            None => Seq::empty(),
        })
    } else {
        Seq::empty()
    })
}

/// The tokens of one function parameter.
pub open spec fn e_fn_param(p: FunctionParameterV) -> Seq<TokenV> {
    e_attributes(p.attributes) + seq![TokenV::Ident(p.name), TokenV::Punct(':')] + p.ty.tokens + (
    if p.comma {
        seq![TokenV::Punct(',')]
    } else {
        Seq::empty()
    })
}

pub open spec fn e_fn_params(s: Seq<FunctionParameterV>) -> Seq<TokenV> {
    e_concat(s, |p: FunctionParameterV| e_fn_param(p))
}

/// The tokens of a struct declaration's fields, where-clause and
/// terminator: the where-clause stands before the terminating semicolon of
/// a unit struct, after the fields of a tuple struct, and before the braced
/// body of a named-field struct, as the grammar places it.
pub open spec fn e_struct_body(st: StructV) -> Seq<TokenV> {
    match st.fields {
        StructFieldsV::Unit => e_where(st.where_clause) + (if st.semicolon {
            seq![TokenV::Punct(';')]
        } else {
            Seq::empty()
        }),
        StructFieldsV::Tuple(fs) => seq![TokenV::Group(Delim::Paren, e_tuple_fields(fs))]
            + e_where(st.where_clause) + (if st.semicolon {
            seq![TokenV::Punct(';')]
        } else {
            Seq::empty()
        }),
        StructFieldsV::Named(fs) => e_where(st.where_clause) + seq![
            TokenV::Group(Delim::Brace, e_named_fields(fs)),
        ],
    }
}

/// The tokens of a struct declaration.
pub open spec fn e_struct(st: StructV) -> Seq<TokenV> {
    e_attributes(st.attributes) + e_vis(st.vis_marker) + seq![
        TokenV::Ident("struct"@),
        TokenV::Ident(st.name),
    ] + e_generics(st.generic_params) + e_struct_body(st)
}

/// The tokens of an enum declaration.
pub open spec fn e_enum(en: EnumV) -> Seq<TokenV> {
    e_attributes(en.attributes) + e_vis(en.vis_marker) + seq![
        TokenV::Ident("enum"@),
        TokenV::Ident(en.name),
    ] + e_generics(en.generic_params) + e_where(en.where_clause) + seq![
        TokenV::Group(Delim::Brace, e_variants(en.variants)),
    ]
}

/// The tokens of a union declaration.
pub open spec fn e_union(un: UnionV) -> Seq<TokenV> {
    e_attributes(un.attributes) + e_vis(un.vis_marker) + seq![
        TokenV::Ident("union"@),
        TokenV::Ident(un.name),
    ] + e_generics(un.generic_params) + e_where(un.where_clause) + seq![
        TokenV::Group(Delim::Brace, e_named_fields(un.fields)),
    ]
}

/// The tokens of a function declaration.
pub open spec fn e_function(f: FunctionV) -> Seq<TokenV> {
    e_attributes(f.attributes) + e_vis(f.vis_marker) + e_qualifiers(f.qualifiers) + seq![
        TokenV::Ident("fn"@),
        TokenV::Ident(f.name),
    ] + e_generics(f.generic_params) + seq![TokenV::Group(Delim::Paren, e_fn_params(f.params))] + (
    match f.return_ty {
        Some(ty) => seq![TokenV::Punct('-'), TokenV::Punct('>')] + ty.tokens,
        None => Seq::empty(),
    }) + e_where(f.where_clause) + (match f.body {
        Some(b) => seq![TokenV::Group(Delim::Brace, b)],
        None => seq![TokenV::Punct(';')],
    })
}

/// The tokens of one whole declaration.
pub open spec fn e_declaration(d: DeclarationV) -> Seq<TokenV> {
    match d {
        DeclarationV::Struct(st) => e_struct(st),
        DeclarationV::Enum(en) => e_enum(en),
        DeclarationV::Union(un) => e_union(un),
        DeclarationV::Function(f) => e_function(f),
    }
}

pub proof fn lemma_e_generic_params_snoc(s: Seq<GenericParamV>, x: GenericParamV)
    ensures
        e_concat(s.push(x), |p: GenericParamV| e_generic_param(p)) == e_concat(
            s,
            |p: GenericParamV| e_generic_param(p),
        ) + e_generic_param(x),
{
    lemma_e_concat_snoc(s, x, |p: GenericParamV| e_generic_param(p));
}

pub proof fn lemma_e_tuple_fields_snoc(s: Seq<TupleFieldV>, x: TupleFieldV)
    ensures
        e_tuple_fields(s.push(x)) == e_tuple_fields(s) + e_tuple_field(x),
{
    lemma_e_concat_snoc(s, x, |f: TupleFieldV| e_tuple_field(f));
}

pub proof fn lemma_e_named_fields_snoc(s: Seq<NamedFieldV>, x: NamedFieldV)
    ensures
        e_named_fields(s.push(x)) == e_named_fields(s) + e_named_field(x),
{
    lemma_e_concat_snoc(s, x, |f: NamedFieldV| e_named_field(f));
}

pub proof fn lemma_e_variants_snoc(s: Seq<EnumVariantV>, x: EnumVariantV)
    ensures
        e_variants(s.push(x)) == e_variants(s) + e_variant(x),
{
    lemma_e_concat_snoc(s, x, |v: EnumVariantV| e_variant(v));
}

pub proof fn lemma_e_fn_params_snoc(s: Seq<FunctionParameterV>, x: FunctionParameterV)
    ensures
        e_fn_params(s.push(x)) == e_fn_params(s) + e_fn_param(x),
{
    lemma_e_concat_snoc(s, x, |p: FunctionParameterV| e_fn_param(p));
}


/// Appends a verbatim copy of a token run.
fn append_span(out: &mut Vec<Token>, ts: &Vec<Token>)
    ensures
        toks_view(final(out)@) == toks_view(old(out)@) + toks_view(ts@),
{
    let ghost base = toks_view(out@);
    let mut k: usize = 0;
    while k < ts.len()
        invariant
            k <= ts@.len(),
            toks_view(out@) == base + toks_view(ts@).take(k as int),
        decreases ts@.len() - k,
    {
        let ghost before = out@;
        let d = ts[k].duplicate();
        let ghost dv = d@;
        out.push(d);
        proof {
            assert(out@ == before.push(d));
            assert(toks_view(out@) =~= toks_view(before).push(dv));
            assert(toks_view(ts@).take(k + 1) =~= toks_view(ts@).take(k as int).push(dv));
            assert((base + toks_view(ts@).take(k as int)).push(dv) =~= base + toks_view(
                ts@,
            ).take(k + 1));
        }
        k = k + 1;
    }
    proof {
        assert(toks_view(ts@).take(ts@.len() as int) =~= toks_view(ts@));
    }
}

/// Appends one punctuation token.
fn push_punct(out: &mut Vec<Token>, c: char)
    ensures
        toks_view(final(out)@) == toks_view(old(out)@).push(TokenV::Punct(c)),
{
    let ghost before = out@;
    out.push(Token::Punct(c));
    proof {
        assert(toks_view(out@) =~= toks_view(before).push(TokenV::Punct(c)));
    }
}

/// Appends one identifier token with the given fixed text.
fn push_kw(out: &mut Vec<Token>, kw: &str)
    ensures
        toks_view(final(out)@) == toks_view(old(out)@).push(TokenV::Ident(kw@)),
{
    let ghost before = out@;
    out.push(Token::Ident(String::from_str(kw)));
    proof {
        assert(toks_view(out@) =~= toks_view(before).push(TokenV::Ident(kw@)));
    }
}

/// Appends one identifier token with the given name.
fn push_name(out: &mut Vec<Token>, name: &String)
    ensures
        toks_view(final(out)@) == toks_view(old(out)@).push(TokenV::Ident(name@)),
{
    let ghost before = out@;
    out.push(Token::Ident(name.clone()));
    proof {
        assert(toks_view(out@) =~= toks_view(before).push(TokenV::Ident(name@)));
    }
}

/// Appends one group token made of the given inner run.
fn push_group(out: &mut Vec<Token>, d: Delim, inner: Vec<Token>)
    ensures
        toks_view(final(out)@) == toks_view(old(out)@).push(
            TokenV::Group(d, toks_view(inner@)),
        ),
{
    let ghost before = out@;
    let ghost iv = toks_view(inner@);
    out.push(Token::Group(d, inner));
    proof {
        assert(toks_view(out@) =~= toks_view(before).push(TokenV::Group(d, iv)));
    }
}

/// Appends the tokens of one attribute.
fn emit_attribute_into(out: &mut Vec<Token>, a: &Attribute)
    ensures
        toks_view(final(out)@) == toks_view(old(out)@) + e_attribute(a@),
{
    let ghost base = toks_view(out@);
    push_punct(out, '#');
    push_group(out, Delim::Bracket, toks_dup(&a.tokens));
    proof {
        assert(toks_view(out@) =~= base + e_attribute(a@));
    }
}

/// Appends the tokens of an attribute list.
fn emit_attributes_into(out: &mut Vec<Token>, attrs: &Vec<Attribute>)
    ensures
        toks_view(final(out)@) == toks_view(old(out)@) + e_attributes(crate::ast::seq_view(attrs@)),
{
    let ghost base = toks_view(out@);
    let ghost av = crate::ast::seq_view(attrs@);
    proof {
        assert(base =~= base + e_attributes(av.take(0)));
    }
    let mut k: usize = 0;
    while k < attrs.len()
        invariant
            k <= attrs@.len(),
            av == crate::ast::seq_view(attrs@),
            toks_view(out@) == base + e_attributes(av.take(k as int)),
        decreases attrs@.len() - k,
    {
        emit_attribute_into(out, &attrs[k]);
        proof {
            let x = attrs@[k as int]@;
            assert(av[k as int] == x);
            lemma_e_attributes_snoc(av.take(k as int), x);
            assert(av.take(k + 1) =~= av.take(k as int).push(x));
            assert((base + e_attributes(av.take(k as int))) + e_attribute(x) =~= base
                + e_attributes(av.take(k + 1)));
        }
        k = k + 1;
    }
    proof {
        assert(av.take(attrs@.len() as int) =~= av);
    }
}

/// Appends the tokens of an optional visibility marker.
fn emit_vis_into(out: &mut Vec<Token>, vis: &Option<VisMarker>)
    ensures
        toks_view(final(out)@) == toks_view(old(out)@) + e_vis(crate::ast::opt_view(*vis)),
{
    let ghost base = toks_view(out@);
    let ghost ev = e_vis(crate::ast::opt_view(*vis));
    match vis {
        Option::None => {
            proof {
                assert(toks_view(out@) =~= base + ev);
            }
        },
        Option::Some(VisMarker::Public) => {
            push_kw(out, "pub");
            proof {
                assert(toks_view(out@) =~= base + ev);
            }
        },
        Option::Some(VisMarker::PublicScoped(ts)) => {
            push_kw(out, "pub");
            push_group(out, Delim::Paren, toks_dup(ts));
            proof {
                assert(toks_view(out@) =~= base + ev);
            }
        },
        Option::Some(VisMarker::CrateLevel) => {
            push_kw(out, "crate");
            proof {
                assert(toks_view(out@) =~= base + ev);
            }
        },
    }
}

/// Appends a comma when the flag says one followed.
fn emit_comma_into(out: &mut Vec<Token>, comma: bool)
    ensures
        toks_view(final(out)@) == toks_view(old(out)@) + (if comma {
            seq![TokenV::Punct(',')]
        } else {
            Seq::<TokenV>::empty()
        }),
{
    let ghost base = toks_view(out@);
    if comma {
        push_punct(out, ',');
    }
    proof {
        assert(toks_view(out@) =~= base + (if comma {
            seq![TokenV::Punct(',')]
        } else {
            Seq::<TokenV>::empty()
        }));
    }
}

/// Appends the tokens of one generic parameter.
fn emit_generic_param_into(out: &mut Vec<Token>, p: &GenericParam)
    ensures
        toks_view(final(out)@) == toks_view(old(out)@) + e_generic_param(p@),
{
    let ghost base = toks_view(out@);
    match p.prefix {
        Option::Some(GenericPrefix::Lifetime) => push_punct(out, '\''),
        Option::Some(GenericPrefix::ConstParam) => push_kw(out, "const"),
        Option::None => {},
    }
    push_name(out, &p.name);
    match &p.bound {
        Option::Some(ts) => {
            push_punct(out, ':');
            append_span(out, ts);
        },
        Option::None => {},
    }
    emit_comma_into(out, p.comma);
    proof {
        assert(toks_view(out@) =~= base + e_generic_param(p@));
    }
}

/// Appends the tokens of an optional generic parameter list.
fn emit_generics_into(out: &mut Vec<Token>, g: &Option<GenericParams>)
    ensures
        toks_view(final(out)@) == toks_view(old(out)@) + e_generics(crate::ast::opt_view(*g)),
{
    let ghost base = toks_view(out@);
    match g {
        Option::None => {
            proof {
                assert(toks_view(out@) =~= base + e_generics(crate::ast::opt_view(*g)));
            }
        },
        Option::Some(gp) => {
            let ghost pv = crate::ast::seq_view(gp.params@);
            push_punct(out, '<');
            let ghost mid = toks_view(out@);
            proof {
                assert(mid =~= mid + e_concat(pv.take(0), |p: GenericParamV| e_generic_param(p)));
            }
            let mut k: usize = 0;
            while k < gp.params.len()
                invariant
                    k <= gp.params@.len(),
                    pv == crate::ast::seq_view(gp.params@),
                    toks_view(out@) == mid + e_concat(
                        pv.take(k as int),
                        |p: GenericParamV| e_generic_param(p),
                    ),
                decreases gp.params@.len() - k,
            {
                emit_generic_param_into(out, &gp.params[k]);
                proof {
                    let x = gp.params@[k as int]@;
                    assert(pv[k as int] == x);
                    lemma_e_generic_params_snoc(pv.take(k as int), x);
                    assert(pv.take(k + 1) =~= pv.take(k as int).push(x));
                    assert((mid + e_concat(pv.take(k as int), |p: GenericParamV| e_generic_param(p)))
                        + e_generic_param(x) =~= mid + e_concat(
                        pv.take(k + 1),
                        |p: GenericParamV| e_generic_param(p),
                    ));
                }
                k = k + 1;
            }
            push_punct(out, '>');
            proof {
                assert(pv.take(gp.params@.len() as int) =~= pv);
                assert(toks_view(out@) =~= base + e_generics(crate::ast::opt_view(*g)));
            }
        },
    }
}

/// Appends the tokens of an optional where-clause.
fn emit_where_into(out: &mut Vec<Token>, w: &Option<WhereClause>)
    ensures
        toks_view(final(out)@) == toks_view(old(out)@) + e_where(crate::ast::opt_view(*w)),
{
    let ghost base = toks_view(out@);
    match w {
        Option::None => {
            proof {
                assert(toks_view(out@) =~= base + e_where(crate::ast::opt_view(*w)));
            }
        },
        Option::Some(wc) => {
            push_kw(out, "where");
            append_span(out, &wc.tokens);
            proof {
                assert(toks_view(out@) =~= base + e_where(crate::ast::opt_view(*w)));
            }
        },
    }
}

/// Appends the tokens of one tuple field.
fn emit_tuple_field_into(out: &mut Vec<Token>, f: &TupleField)
    ensures
        toks_view(final(out)@) == toks_view(old(out)@) + e_tuple_field(f@),
{
    let ghost base = toks_view(out@);
    emit_attributes_into(out, &f.attributes);
    emit_vis_into(out, &f.vis_marker);
    append_span(out, &f.ty.tokens);
    emit_comma_into(out, f.comma);
    proof {
        assert(toks_view(out@) =~= base + e_tuple_field(f@));
    }
}

/// The token run of a whole tuple-field list.
fn emit_tuple_fields(fs: &Vec<TupleField>) -> (r: Vec<Token>)
    ensures
        toks_view(r@) == e_tuple_fields(crate::ast::seq_view(fs@)),
{
    let ghost fv = crate::ast::seq_view(fs@);
    let mut out: Vec<Token> = Vec::new();
    proof {
        assert(toks_view(out@) =~= Seq::<TokenV>::empty() + e_tuple_fields(fv.take(0)));
    }
    let ghost base = toks_view(out@);
    let mut k: usize = 0;
    while k < fs.len()
        invariant
            k <= fs@.len(),
            fv == crate::ast::seq_view(fs@),
            toks_view(out@) == base + e_tuple_fields(fv.take(k as int)),
        decreases fs@.len() - k,
    {
        emit_tuple_field_into(&mut out, &fs[k]);
        proof {
            let x = fs@[k as int]@;
            assert(fv[k as int] == x);
            lemma_e_tuple_fields_snoc(fv.take(k as int), x);
            assert(fv.take(k + 1) =~= fv.take(k as int).push(x));
            assert((base + e_tuple_fields(fv.take(k as int))) + e_tuple_field(x) =~= base
                + e_tuple_fields(fv.take(k + 1)));
        }
        k = k + 1;
    }
    proof {
        assert(fv.take(fs@.len() as int) =~= fv);
        assert(base + e_tuple_fields(fv) =~= e_tuple_fields(fv));
    }
    out
}

/// Appends the tokens of one named field.
fn emit_named_field_into(out: &mut Vec<Token>, f: &NamedField)
    ensures
        toks_view(final(out)@) == toks_view(old(out)@) + e_named_field(f@),
{
    let ghost base = toks_view(out@);
    emit_attributes_into(out, &f.attributes);
    emit_vis_into(out, &f.vis_marker);
    push_name(out, &f.name);
    push_punct(out, ':');
    append_span(out, &f.ty.tokens);
    emit_comma_into(out, f.comma);
    proof {
        assert(toks_view(out@) =~= base + e_named_field(f@));
    }
}

/// The token run of a whole named-field list.
fn emit_named_fields(fs: &Vec<NamedField>) -> (r: Vec<Token>)
    ensures
        toks_view(r@) == e_named_fields(crate::ast::seq_view(fs@)),
{
    let ghost fv = crate::ast::seq_view(fs@);
    let mut out: Vec<Token> = Vec::new();
    proof {
        assert(toks_view(out@) =~= Seq::<TokenV>::empty() + e_named_fields(fv.take(0)));
    }
    let ghost base = toks_view(out@);
    let mut k: usize = 0;
    while k < fs.len()
        invariant
            k <= fs@.len(),
            fv == crate::ast::seq_view(fs@),
            toks_view(out@) == base + e_named_fields(fv.take(k as int)),
        decreases fs@.len() - k,
    {
        emit_named_field_into(&mut out, &fs[k]);
        proof {
            let x = fs@[k as int]@;
            assert(fv[k as int] == x);
            lemma_e_named_fields_snoc(fv.take(k as int), x);
            assert(fv.take(k + 1) =~= fv.take(k as int).push(x));
            assert((base + e_named_fields(fv.take(k as int))) + e_named_field(x) =~= base
                + e_named_fields(fv.take(k + 1)));
        }
        k = k + 1;
    }
    proof {
        assert(fv.take(fs@.len() as int) =~= fv);
        assert(base + e_named_fields(fv) =~= e_named_fields(fv));
    }
    out
}

/// Appends the tokens of one enum variant.
fn emit_variant_into(out: &mut Vec<Token>, v: &EnumVariant)
    ensures
        toks_view(final(out)@) == toks_view(old(out)@) + e_variant(v@),
{
    let ghost base = toks_view(out@);
    emit_attributes_into(out, &v.attributes);
    emit_vis_into(out, &v.vis_marker);
    push_name(out, &v.name);
    match &v.contents {
        StructFields::Unit => {},
        StructFields::Tuple(fs) => {
            let inner = emit_tuple_fields(fs);
            push_group(out, Delim::Paren, inner);
        },
        StructFields::Named(fs) => {
            let inner = emit_named_fields(fs);
            push_group(out, Delim::Brace, inner);
        },
    }
    match &v.discriminant {
        Option::Some(ts) => {
            push_punct(out, '=');
            append_span(out, ts);
        },
        Option::None => {},
    }
    emit_comma_into(out, v.comma);
    proof {
        assert(toks_view(out@) =~= base + e_variant(v@));
    }
}

/// The token run of a whole variant list.
fn emit_variants(vs: &Vec<EnumVariant>) -> (r: Vec<Token>)
    ensures
        toks_view(r@) == e_variants(crate::ast::seq_view(vs@)),
{
    let ghost vv = crate::ast::seq_view(vs@);
    let mut out: Vec<Token> = Vec::new();
    proof {
        assert(toks_view(out@) =~= Seq::<TokenV>::empty() + e_variants(vv.take(0)));
    }
    let ghost base = toks_view(out@);
    let mut k: usize = 0;
    while k < vs.len()
        invariant
            k <= vs@.len(),
            vv == crate::ast::seq_view(vs@),
            toks_view(out@) == base + e_variants(vv.take(k as int)),
        decreases vs@.len() - k,
    {
        emit_variant_into(&mut out, &vs[k]);
        proof {
            let x = vs@[k as int]@;
            assert(vv[k as int] == x);
            lemma_e_variants_snoc(vv.take(k as int), x);
            assert(vv.take(k + 1) =~= vv.take(k as int).push(x));
            assert((base + e_variants(vv.take(k as int))) + e_variant(x) =~= base + e_variants(
                vv.take(k + 1),
            ));
        }
        k = k + 1;
    }
    proof {
        assert(vv.take(vs@.len() as int) =~= vv);
        assert(base + e_variants(vv) =~= e_variants(vv));
    }
    out
}

/// Appends the tokens of the function qualifiers.
fn emit_qualifiers_into(out: &mut Vec<Token>, q: &FunctionQualifiers)
    ensures
        toks_view(final(out)@) == toks_view(old(out)@) + e_qualifiers(q@),
{
    let ghost base = toks_view(out@);
    if q.is_default {
        push_kw(out, "default");
    }
    if q.is_const {
        push_kw(out, "const");
    }
    if q.is_async {
        push_kw(out, "async");
    }
    if q.is_unsafe {
        push_kw(out, "unsafe");
    }
    if q.is_extern {
        push_kw(out, "extern");
        match &q.extern_abi {
            Option::Some(abi) => {
                let ghost before = out@;
                out.push(Token::Literal(abi.clone()));
                proof {
                    assert(toks_view(out@) =~= toks_view(before).push(TokenV::Literal(abi@)));
                }
            },
            Option::None => {},
        }
    }
    proof {
        assert(toks_view(out@) =~= base + e_qualifiers(q@));
    }
}

/// Appends the tokens of one function parameter.
fn emit_fn_param_into(out: &mut Vec<Token>, p: &FunctionParameter)
    ensures
        toks_view(final(out)@) == toks_view(old(out)@) + e_fn_param(p@),
{
    let ghost base = toks_view(out@);
    emit_attributes_into(out, &p.attributes);
    push_name(out, &p.name);
    push_punct(out, ':');
    append_span(out, &p.ty.tokens);
    emit_comma_into(out, p.comma);
    proof {
        assert(toks_view(out@) =~= base + e_fn_param(p@));
    }
}

/// The token run of a whole parameter list.
fn emit_fn_params(ps: &Vec<FunctionParameter>) -> (r: Vec<Token>)
    ensures
        toks_view(r@) == e_fn_params(crate::ast::seq_view(ps@)),
{
    let ghost pv = crate::ast::seq_view(ps@);
    let mut out: Vec<Token> = Vec::new();
    proof {
        assert(toks_view(out@) =~= Seq::<TokenV>::empty() + e_fn_params(pv.take(0)));
    }
    let ghost base = toks_view(out@);
    let mut k: usize = 0;
    while k < ps.len()
        invariant
            k <= ps@.len(),
            pv == crate::ast::seq_view(ps@),
            toks_view(out@) == base + e_fn_params(pv.take(k as int)),
        decreases ps@.len() - k,
    {
        emit_fn_param_into(&mut out, &ps[k]);
        proof {
            let x = ps@[k as int]@;
            assert(pv[k as int] == x);
            lemma_e_fn_params_snoc(pv.take(k as int), x);
            assert(pv.take(k + 1) =~= pv.take(k as int).push(x));
            assert((base + e_fn_params(pv.take(k as int))) + e_fn_param(x) =~= base + e_fn_params(
                pv.take(k + 1),
            ));
        }
        k = k + 1;
    }
    proof {
        assert(pv.take(ps@.len() as int) =~= pv);
        assert(base + e_fn_params(pv) =~= e_fn_params(pv));
    }
    out
}

/// The token run of a struct declaration.
#[verifier::rlimit(100)]
fn emit_struct(st: &Struct) -> (r: Vec<Token>)
    ensures
        toks_view(r@) == e_struct(st@),
{
    let mut out: Vec<Token> = Vec::new();
    emit_attributes_into(&mut out, &st.attributes);
    emit_vis_into(&mut out, &st.vis_marker);
    push_kw(&mut out, "struct");
    push_name(&mut out, &st.name);
    emit_generics_into(&mut out, &st.generic_params);
    match &st.fields {
        StructFields::Unit => {
            emit_where_into(&mut out, &st.where_clause);
            if st.semicolon {
                push_punct(&mut out, ';');
            }
        },
        StructFields::Tuple(fs) => {
            let inner = emit_tuple_fields(fs);
            push_group(&mut out, Delim::Paren, inner);
            emit_where_into(&mut out, &st.where_clause);
            if st.semicolon {
                push_punct(&mut out, ';');
            }
        },
        StructFields::Named(fs) => {
            emit_where_into(&mut out, &st.where_clause);
            let inner = emit_named_fields(fs);
            push_group(&mut out, Delim::Brace, inner);
        },
    }
    proof {
        assert(toks_view(out@) =~= e_struct(st@));
    }
    out
}

/// The token run of an enum declaration.
#[verifier::rlimit(100)]
fn emit_enum(en: &Enum) -> (r: Vec<Token>)
    ensures
        toks_view(r@) == e_enum(en@),
{
    let mut out: Vec<Token> = Vec::new();
    emit_attributes_into(&mut out, &en.attributes);
    emit_vis_into(&mut out, &en.vis_marker);
    push_kw(&mut out, "enum");
    push_name(&mut out, &en.name);
    emit_generics_into(&mut out, &en.generic_params);
    emit_where_into(&mut out, &en.where_clause);
    let inner = emit_variants(&en.variants);
    push_group(&mut out, Delim::Brace, inner);
    proof {
        assert(toks_view(out@) =~= e_enum(en@));
    }
    out
}

/// The token run of a union declaration.
#[verifier::rlimit(100)]
fn emit_union(un: &Union) -> (r: Vec<Token>)
    ensures
        toks_view(r@) == e_union(un@),
{
    let mut out: Vec<Token> = Vec::new();
    emit_attributes_into(&mut out, &un.attributes);
    emit_vis_into(&mut out, &un.vis_marker);
    push_kw(&mut out, "union");
    push_name(&mut out, &un.name);
    emit_generics_into(&mut out, &un.generic_params);
    emit_where_into(&mut out, &un.where_clause);
    let inner = emit_named_fields(&un.fields);
    push_group(&mut out, Delim::Brace, inner);
    proof {
        assert(toks_view(out@) =~= e_union(un@));
    }
    out
}

/// The token run of a function declaration.
#[verifier::rlimit(100)]
fn emit_function(f: &Function) -> (r: Vec<Token>)
    ensures
        toks_view(r@) == e_function(f@),
{
    let mut out: Vec<Token> = Vec::new();
    emit_attributes_into(&mut out, &f.attributes);
    emit_vis_into(&mut out, &f.vis_marker);
    emit_qualifiers_into(&mut out, &f.qualifiers);
    push_kw(&mut out, "fn");
    push_name(&mut out, &f.name);
    emit_generics_into(&mut out, &f.generic_params);
    let inner = emit_fn_params(&f.params);
    push_group(&mut out, Delim::Paren, inner);
    match &f.return_ty {
        Option::Some(ty) => {
            push_punct(&mut out, '-');
            push_punct(&mut out, '>');
            append_span(&mut out, &ty.tokens);
        },
        Option::None => {},
    }
    emit_where_into(&mut out, &f.where_clause);
    match &f.body {
        Option::Some(b) => {
            push_group(&mut out, Delim::Brace, toks_dup(b));
        },
        Option::None => {
            push_punct(&mut out, ';');
        },
    }
    proof {
        assert(toks_view(out@) =~= e_function(f@));
    }
    out
}

/// Re-emits a whole declaration as the exact token sequence it stands for.
pub fn emit_declaration(d: &Declaration) -> (r: Vec<Token>)
    ensures
        toks_view(r@) == e_declaration(d@),
{
    match d {
        Declaration::Struct(st) => emit_struct(st),
        Declaration::Enum(en) => emit_enum(en),
        Declaration::Union(un) => emit_union(un),
        Declaration::Function(f) => emit_function(f),
    }
}

} // verus!
