//! Structural editing of parsed trees: appending a generic parameter or a
//! where-clause item to a struct or enum. Each operation returns a new tree
//! and says exactly what it holds; nothing else of the tree changes.

use vstd::prelude::*;
use vstd::string::StringExecFns;

use crate::ast::{
    Enum, EnumV, GenericParam, GenericParams, GenericParamsV, GenericParamV, GenericPrefix, Struct,
    StructV, WhereClause, WhereClauseV, opt_view, seq_view,
};
use crate::token::{Token, TokenV, toks_view};

verus! {

/// One item of a where-clause, kept as its opaque tokens.
#[derive(Debug)]
pub struct WhereClauseItem {
    pub tokens: Vec<Token>,
}

pub struct WhereClauseItemV {
    pub tokens: Seq<TokenV>,
}

impl View for WhereClauseItem {
    type V = WhereClauseItemV;

    open spec fn view(&self) -> WhereClauseItemV {
        WhereClauseItemV { tokens: toks_view(self.tokens@) }
    }
}

impl WhereClauseItem {
    /// Wraps a token run as one where-clause item.
    pub fn parse(tokens: Vec<Token>) -> (r: WhereClauseItem)
        ensures
            r@.tokens == toks_view(tokens@),
    {
        WhereClauseItem { tokens }
    }
}

impl GenericParam {
    /// A bare lifetime parameter.
    pub fn lifetime(name: &str) -> (r: GenericParam)
        ensures
            r@ == (GenericParamV {
                prefix: Some(GenericPrefix::Lifetime),
                name: name@,
                bound: None,
                comma: false,
            }),
    {
        GenericParam {
            prefix: Some(GenericPrefix::Lifetime),
            name: String::from_str(name),
            bound: None,
            comma: false,
        }
    }

    /// A lifetime parameter with a bound.
    pub fn bounded_lifetime(name: &str, bound: Vec<Token>) -> (r: GenericParam)
        ensures
            r@ == (GenericParamV {
                prefix: Some(GenericPrefix::Lifetime),
                name: name@,
                bound: Some(toks_view(bound@)),
                comma: false,
            }),
    {
        GenericParam {
            prefix: Some(GenericPrefix::Lifetime),
            name: String::from_str(name),
            bound: Some(bound),
            comma: false,
        }
    }

    /// A bare type parameter.
    pub fn ty(name: &str) -> (r: GenericParam)
        ensures
            r@ == (GenericParamV { prefix: None, name: name@, bound: None, comma: false }),
    {
        GenericParam { prefix: None, name: String::from_str(name), bound: None, comma: false }
    }

    /// A type parameter with a bound.
    pub fn bounded_ty(name: &str, bound: Vec<Token>) -> (r: GenericParam)
        ensures
            r@ == (GenericParamV {
                prefix: None,
                name: name@,
                bound: Some(toks_view(bound@)),
                comma: false,
            }),
    {
        GenericParam {
            prefix: None,
            name: String::from_str(name),
            bound: Some(bound),
            comma: false,
        }
    }

    /// A const parameter with its type span as the bound.
    pub fn const_param(name: &str, ty: Vec<Token>) -> (r: GenericParam)
        ensures
            r@ == (GenericParamV {
                prefix: Some(GenericPrefix::ConstParam),
                name: name@,
                bound: Some(toks_view(ty@)),
                comma: false,
            }),
    {
        GenericParam {
            prefix: Some(GenericPrefix::ConstParam),
            name: String::from_str(name),
            bound: Some(ty),
            comma: false,
        }
    }
}

/// The parameter list after appending one parameter: a tree with no generic
/// list gets one holding exactly the new parameter, and otherwise the last
/// existing parameter gains a separating comma and the new one follows it.
pub open spec fn appended_params(g: Option<GenericParamsV>, p: GenericParamV) -> GenericParamsV {
    match g {
        None => GenericParamsV { params: seq![p] },
        Some(gp) => if gp.params.len() == 0 {
            GenericParamsV { params: seq![p] }
        } else {
            GenericParamsV {
                params: gp.params.update(
                    gp.params.len() - 1,
                    GenericParamV { comma: true, ..gp.params.last() },
                ).push(p),
            }
        },
    }
}

/// The where-clause after appending one item: absent or empty clauses become
/// the item alone; otherwise the item follows the old run, separated by a
/// comma unless one already ends it.
pub open spec fn appended_where(w: Option<WhereClauseV>, item: Seq<TokenV>) -> WhereClauseV {
    match w {
        None => WhereClauseV { tokens: item },
        Some(wc) => if wc.tokens.len() == 0 {
            WhereClauseV { tokens: item }
        } else if wc.tokens.last() == TokenV::Punct(',') {
            WhereClauseV { tokens: wc.tokens + item }
        } else {
            WhereClauseV { tokens: wc.tokens + seq![TokenV::Punct(',')] + item }
        },
    }
}

/// Editing a tree that has no generic list gives it one holding exactly
/// the appended parameter, and the edited tree re-emits as the original's
/// tokens with exactly `<`, the parameter, `>` inserted at the generics
/// slot after the name; everything else of the emission is unchanged.
pub proof fn lemma_append_param_fresh(st: StructV, p: GenericParamV)
    requires
        st.generic_params is None,
    ensures
        ({
            let edited = StructV { generic_params: Some(appended_params(st.generic_params, p)), ..st };
            &&& edited.generic_params->0.params == seq![p]
            &&& crate::emit::e_struct(edited) == crate::emit::e_attributes(st.attributes)
                + crate::emit::e_vis(st.vis_marker) + seq![
                TokenV::Ident("struct"@),
                TokenV::Ident(st.name),
            ] + (seq![TokenV::Punct('<')] + crate::emit::e_generic_param(p) + seq![
                TokenV::Punct('>'),
            ]) + crate::emit::e_struct_body(st)
            &&& crate::emit::e_struct(st) == crate::emit::e_attributes(st.attributes)
                + crate::emit::e_vis(st.vis_marker) + seq![
                TokenV::Ident("struct"@),
                TokenV::Ident(st.name),
            ] + crate::emit::e_struct_body(st)
        }),
{
    let edited = StructV { generic_params: Some(appended_params(st.generic_params, p)), ..st };
    assert(crate::emit::e_generic_params(seq![p]) == crate::emit::e_generic_param(p)) by {
        assert(seq![p][0] == p);
        assert(seq![p].drop_first() =~= Seq::<GenericParamV>::empty());
        assert(crate::emit::e_concat(
            Seq::<GenericParamV>::empty(),
            |p2: GenericParamV| crate::emit::e_generic_param(p2),
        ) == Seq::<TokenV>::empty());
        assert(crate::emit::e_generic_params(seq![p]) == crate::emit::e_generic_param(p)
            + Seq::<TokenV>::empty());
        assert(crate::emit::e_generic_param(p) + Seq::<TokenV>::empty()
            =~= crate::emit::e_generic_param(p));
    }
    assert(crate::emit::e_struct_body(edited) == crate::emit::e_struct_body(st));
    let head = crate::emit::e_attributes(st.attributes) + crate::emit::e_vis(st.vis_marker)
        + seq![TokenV::Ident("struct"@), TokenV::Ident(st.name)];
    assert(head + crate::emit::e_generics(None::<GenericParamsV>) =~= head);
}

/// Appends one generic parameter to an optional parameter list.
fn push_param(g: Option<GenericParams>, param: GenericParam) -> (r: GenericParams)
    ensures
        r@ == appended_params(opt_view(g), param@),
{
    let ghost gv = opt_view(g);
    let ghost pv = param@;
    match g {
        Option::None => {
            let r = GenericParams { params: vec![param] };
            proof {
                assert(seq_view(r.params@) =~= seq![pv]);
            }
            r
        },
        Option::Some(mut gp) => {
            let ghost before = seq_view(gp.params@);
            match gp.params.pop() {
                Option::Some(lastp) => {
                    let mut lastp = lastp;
                    lastp.comma = true;
                    gp.params.push(lastp);
                    gp.params.push(param);
                    proof {
                        assert(seq_view(gp.params@) =~= appended_params(gv, pv).params);
                    }
                    gp
                },
                Option::None => {
                    gp.params.push(param);
                    proof {
                        assert(seq_view(gp.params@) =~= seq![pv]);
                    }
                    gp
                },
            }
        },
    }
}

/// Appends one where-clause item to an optional where-clause.
fn push_where_item(w: Option<WhereClause>, item: WhereClauseItem) -> (r: WhereClause)
    ensures
        r@ == appended_where(opt_view(w), item@.tokens),
{
    match w {
        Option::None => WhereClause { tokens: item.tokens },
        Option::Some(mut wc) => {
            if wc.tokens.len() == 0 {
                return WhereClause { tokens: item.tokens };
            }
            let ghost w0 = toks_view(wc.tokens@);
            let last_is_comma = match &wc.tokens[wc.tokens.len() - 1] {
                Token::Punct(c) => *c == ',',
                _ => false,
            };
            proof {
                assert(w0.last() == wc.tokens@.last()@);
                assert(last_is_comma == (w0.last() == TokenV::Punct(',')));
            }
            if !last_is_comma {
                let ghost before = toks_view(wc.tokens@);
                wc.tokens.push(Token::Punct(','));
                proof {
                    assert(toks_view(wc.tokens@) =~= before.push(TokenV::Punct(',')));
                }
            }
            let ghost mid = toks_view(wc.tokens@);
            let mut k: usize = 0;
            let mut item = item;
            let ghost itv = toks_view(item.tokens@);
            while k < item.tokens.len()
                invariant
                    k <= item.tokens@.len(),
                    itv == toks_view(item.tokens@),
                    toks_view(wc.tokens@) == mid + itv.take(k as int),
                decreases item.tokens@.len() - k,
            {
                let ghost before = toks_view(wc.tokens@);
                wc.tokens.push(item.tokens[k].duplicate());
                proof {
                    assert(toks_view(wc.tokens@) =~= before.push(itv[k as int]));
                    assert((mid + itv.take(k as int)).push(itv[k as int]) =~= mid + itv.take(
                        k + 1,
                    ));
                }
                k = k + 1;
            }
            proof {
                assert(itv.take(item.tokens@.len() as int) =~= itv);
                if last_is_comma {
                    assert(toks_view(wc.tokens@) =~= w0 + itv);
                } else {
                    assert(w0.push(TokenV::Punct(',')) + itv =~= (w0 + seq![
                        TokenV::Punct(','),
                    ]) + itv);
                }
            }
            wc
        },
    }
}

impl Struct {
    /// The same struct with one more generic parameter; a tree with no
    /// generic list before gets one holding exactly the given parameter.
    pub fn with_param(self, param: GenericParam) -> (r: Struct)
        ensures
            r@ == (StructV {
                generic_params: Some(appended_params(opt_view(self.generic_params), param@)),
                ..self@
            }),
    {
        let Struct { attributes, vis_marker, name, generic_params, where_clause, fields, semicolon }
            = self;
        Struct {
            attributes,
            vis_marker,
            name,
            generic_params: Some(push_param(generic_params, param)),
            where_clause,
            fields,
            semicolon,
        }
    }

    /// The same struct with one more where-clause item.
    pub fn with_where_item(self, item: WhereClauseItem) -> (r: Struct)
        ensures
            r@ == (StructV {
                where_clause: Some(appended_where(opt_view(self.where_clause), item@.tokens)),
                ..self@
            }),
    {
        let Struct { attributes, vis_marker, name, generic_params, where_clause, fields, semicolon }
            = self;
        Struct {
            attributes,
            vis_marker,
            name,
            generic_params,
            where_clause: Some(push_where_item(where_clause, item)),
            fields,
            semicolon,
        }
    }
}

impl Enum {
    /// The same enum with one more generic parameter.
    pub fn with_param(self, param: GenericParam) -> (r: Enum)
        ensures
            r@ == (EnumV {
                generic_params: Some(appended_params(opt_view(self.generic_params), param@)),
                ..self@
            }),
    {
        let Enum { attributes, vis_marker, name, generic_params, where_clause, variants } = self;
        Enum {
            attributes,
            vis_marker,
            name,
            generic_params: Some(push_param(generic_params, param)),
            where_clause,
            variants,
        }
    }

    /// The same enum with one more where-clause item.
    pub fn with_where_item(self, item: WhereClauseItem) -> (r: Enum)
        ensures
            r@ == (EnumV {
                where_clause: Some(appended_where(opt_view(self.where_clause), item@.tokens)),
                ..self@
            }),
    {
        let Enum { attributes, vis_marker, name, generic_params, where_clause, variants } = self;
        Enum {
            attributes,
            vis_marker,
            name,
            generic_params,
            where_clause: Some(push_where_item(where_clause, item)),
            variants,
        }
    }
}

} // verus!
