//! The declaration tree: one node type per syntactic construct, each with a
//! mathematical model. Opaque spans (field types, bounds, discriminants,
//! where-clause predicates, function bodies) are kept as verbatim token runs
//! so that a parsed tree can be re-emitted token for token.

use vstd::prelude::*;

use crate::token::{Delim, Token, TokenV, toks_view};

verus! {

/// Pointwise model of a sequence of tree nodes.
pub open spec fn seq_view<T: View>(s: Seq<T>) -> Seq<T::V> {
    s.map_values(|x: T| x@)
}

/// Pointwise model of an optional node.
pub open spec fn opt_view<T: View>(o: Option<T>) -> Option<T::V> {
    match o {
        Option::Some(x) => Option::Some(x@),
        Option::None => Option::None,
    }
}

/// One attribute: the bracketed tokens after the introducing `#` marker,
/// kept opaque.
#[derive(Debug)]
pub struct Attribute {
    pub tokens: Vec<Token>,
}

pub struct AttributeV {
    pub tokens: Seq<TokenV>,
}

impl View for Attribute {
    type V = AttributeV;

    open spec fn view(&self) -> AttributeV {
        AttributeV { tokens: toks_view(self.tokens@) }
    }
}

/// A visibility marker: a bare `pub`, a `pub` with a parenthesized qualifier
/// (whose tokens are kept opaque), or a bare `crate`.
#[derive(Debug)]
pub enum VisMarker {
    Public,
    PublicScoped(Vec<Token>),
    CrateLevel,
}

pub enum VisMarkerV {
    Public,
    PublicScoped(Seq<TokenV>),
    CrateLevel,
}

impl View for VisMarker {
    type V = VisMarkerV;

    open spec fn view(&self) -> VisMarkerV {
        match self {
            VisMarker::Public => VisMarkerV::Public,
            VisMarker::PublicScoped(ts) => VisMarkerV::PublicScoped(toks_view(ts@)),
            VisMarker::CrateLevel => VisMarkerV::CrateLevel,
        }
    }
}

/// The optional prefix of a generic parameter: a lifetime tick or the
/// const-parameter keyword.
#[derive(Clone, Copy, Debug, PartialEq, Eq, Structural)]
pub enum GenericPrefix {
    Lifetime,
    ConstParam,
}

/// One generic parameter: optional prefix, name, optional bound (the opaque
/// tokens after the colon), and whether a separating comma followed it.
#[derive(Debug)]
pub struct GenericParam {
    pub prefix: Option<GenericPrefix>,
    pub name: String,
    pub bound: Option<Vec<Token>>,
    pub comma: bool,
}

pub struct GenericParamV {
    pub prefix: Option<GenericPrefix>,
    pub name: Seq<char>,
    pub bound: Option<Seq<TokenV>>,
    pub comma: bool,
}

impl View for GenericParam {
    type V = GenericParamV;

    open spec fn view(&self) -> GenericParamV {
        GenericParamV {
            prefix: self.prefix,
            name: self.name@,
            bound: match self.bound {
                Option::Some(ref ts) => Option::Some(toks_view(ts@)),
                Option::None => Option::None,
            },
            comma: self.comma,
        }
    }
}

/// An angle-bracketed generic parameter list; may be present yet empty.
#[derive(Debug)]
pub struct GenericParams {
    pub params: Vec<GenericParam>,
}

pub struct GenericParamsV {
    pub params: Seq<GenericParamV>,
}

impl View for GenericParams {
    type V = GenericParamsV;

    open spec fn view(&self) -> GenericParamsV {
        GenericParamsV { params: seq_view(self.params@) }
    }
}

/// A where-clause: the opaque token run after the `where` keyword, not
/// decomposed into predicates.
#[derive(Debug)]
pub struct WhereClause {
    pub tokens: Vec<Token>,
}

pub struct WhereClauseV {
    pub tokens: Seq<TokenV>,
}

impl View for WhereClause {
    type V = WhereClauseV;

    open spec fn view(&self) -> WhereClauseV {
        WhereClauseV { tokens: toks_view(self.tokens@) }
    }
}

/// An opaque type expression: a verbatim token run.
#[derive(Debug)]
pub struct TyExpr {
    pub tokens: Vec<Token>,
}

pub struct TyExprV {
    pub tokens: Seq<TokenV>,
}

impl View for TyExpr {
    type V = TyExprV;

    open spec fn view(&self) -> TyExprV {
        TyExprV { tokens: toks_view(self.tokens@) }
    }
}

/// One field of a tuple struct or tuple variant.
#[derive(Debug)]
pub struct TupleField {
    pub attributes: Vec<Attribute>,
    pub vis_marker: Option<VisMarker>,
    pub ty: TyExpr,
    pub comma: bool,
}

pub struct TupleFieldV {
    pub attributes: Seq<AttributeV>,
    pub vis_marker: Option<VisMarkerV>,
    pub ty: TyExprV,
    pub comma: bool,
}

impl View for TupleField {
    type V = TupleFieldV;

    open spec fn view(&self) -> TupleFieldV {
        TupleFieldV {
            attributes: seq_view(self.attributes@),
            vis_marker: opt_view(self.vis_marker),
            ty: self.ty@,
            comma: self.comma,
        }
    }
}

/// One named field of a struct, union or named variant.
#[derive(Debug)]
pub struct NamedField {
    pub attributes: Vec<Attribute>,
    pub vis_marker: Option<VisMarker>,
    pub name: String,
    pub ty: TyExpr,
    pub comma: bool,
}

pub struct NamedFieldV {
    pub attributes: Seq<AttributeV>,
    pub vis_marker: Option<VisMarkerV>,
    pub name: Seq<char>,
    pub ty: TyExprV,
    pub comma: bool,
}

impl View for NamedField {
    type V = NamedFieldV;

    open spec fn view(&self) -> NamedFieldV {
        NamedFieldV {
            attributes: seq_view(self.attributes@),
            vis_marker: opt_view(self.vis_marker),
            name: self.name@,
            ty: self.ty@,
            comma: self.comma,
        }
    }
}

/// The field list of a struct or variant: none, tuple fields, or named
/// fields.
#[derive(Debug)]
pub enum StructFields {
    Unit,
    Tuple(Vec<TupleField>),
    Named(Vec<NamedField>),
}

pub enum StructFieldsV {
    Unit,
    Tuple(Seq<TupleFieldV>),
    Named(Seq<NamedFieldV>),
}

impl View for StructFields {
    type V = StructFieldsV;

    open spec fn view(&self) -> StructFieldsV {
        match self {
            StructFields::Unit => StructFieldsV::Unit,
            StructFields::Tuple(fs) => StructFieldsV::Tuple(seq_view(fs@)),
            StructFields::Named(fs) => StructFieldsV::Named(seq_view(fs@)),
        }
    }
}

/// One enum variant: attributes, visibility, name, contents, optional
/// discriminant (the opaque tokens after `=`), and its trailing comma.
#[derive(Debug)]
pub struct EnumVariant {
    pub attributes: Vec<Attribute>,
    pub vis_marker: Option<VisMarker>,
    pub name: String,
    pub contents: StructFields,
    pub discriminant: Option<Vec<Token>>,
    pub comma: bool,
}

pub struct EnumVariantV {
    pub attributes: Seq<AttributeV>,
    pub vis_marker: Option<VisMarkerV>,
    pub name: Seq<char>,
    pub contents: StructFieldsV,
    pub discriminant: Option<Seq<TokenV>>,
    pub comma: bool,
}

impl View for EnumVariant {
    type V = EnumVariantV;

    open spec fn view(&self) -> EnumVariantV {
        EnumVariantV {
            attributes: seq_view(self.attributes@),
            vis_marker: opt_view(self.vis_marker),
            name: self.name@,
            contents: self.contents@,
            discriminant: match self.discriminant {
                Option::Some(ref ts) => Option::Some(toks_view(ts@)),
                Option::None => Option::None,
            },
            comma: self.comma,
        }
    }
}

/// The qualifiers in front of the `fn` keyword, in their fixed order, plus
/// the optional ABI literal after `extern`.
#[derive(Debug)]
pub struct FunctionQualifiers {
    pub is_default: bool,
    pub is_const: bool,
    pub is_async: bool,
    pub is_unsafe: bool,
    pub is_extern: bool,
    pub extern_abi: Option<String>,
}

pub struct FunctionQualifiersV {
    pub is_default: bool,
    pub is_const: bool,
    pub is_async: bool,
    pub is_unsafe: bool,
    pub is_extern: bool,
    pub extern_abi: Option<Seq<char>>,
}

impl View for FunctionQualifiers {
    type V = FunctionQualifiersV;

    open spec fn view(&self) -> FunctionQualifiersV {
        FunctionQualifiersV {
            is_default: self.is_default,
            is_const: self.is_const,
            is_async: self.is_async,
            is_unsafe: self.is_unsafe,
            is_extern: self.is_extern,
            extern_abi: match self.extern_abi {
                Option::Some(ref s) => Option::Some(s@),
                Option::None => Option::None,
            },
        }
    }
}

/// One function parameter: attributes, a plain identifier name, its opaque
/// type span, and its trailing comma.
#[derive(Debug)]
pub struct FunctionParameter {
    pub attributes: Vec<Attribute>,
    pub name: String,
    pub ty: TyExpr,
    pub comma: bool,
}

pub struct FunctionParameterV {
    pub attributes: Seq<AttributeV>,
    pub name: Seq<char>,
    pub ty: TyExprV,
    pub comma: bool,
}

impl View for FunctionParameter {
    type V = FunctionParameterV;

    open spec fn view(&self) -> FunctionParameterV {
        FunctionParameterV {
            attributes: seq_view(self.attributes@),
            name: self.name@,
            ty: self.ty@,
            comma: self.comma,
        }
    }
}

/// A struct declaration. `semicolon` records whether a terminating `;`
/// was present (always for a unit struct, optionally after tuple fields).
#[derive(Debug)]
pub struct Struct {
    pub attributes: Vec<Attribute>,
    pub vis_marker: Option<VisMarker>,
    pub name: String,
    pub generic_params: Option<GenericParams>,
    pub where_clause: Option<WhereClause>,
    pub fields: StructFields,
    pub semicolon: bool,
}

pub struct StructV {
    pub attributes: Seq<AttributeV>,
    pub vis_marker: Option<VisMarkerV>,
    pub name: Seq<char>,
    pub generic_params: Option<GenericParamsV>,
    pub where_clause: Option<WhereClauseV>,
    pub fields: StructFieldsV,
    pub semicolon: bool,
}

impl View for Struct {
    type V = StructV;

    open spec fn view(&self) -> StructV {
        StructV {
            attributes: seq_view(self.attributes@),
            vis_marker: opt_view(self.vis_marker),
            name: self.name@,
            generic_params: opt_view(self.generic_params),
            where_clause: opt_view(self.where_clause),
            fields: self.fields@,
            semicolon: self.semicolon,
        }
    }
}

/// An enum declaration.
#[derive(Debug)]
pub struct Enum {
    pub attributes: Vec<Attribute>,
    pub vis_marker: Option<VisMarker>,
    pub name: String,
    pub generic_params: Option<GenericParams>,
    pub where_clause: Option<WhereClause>,
    pub variants: Vec<EnumVariant>,
}

pub struct EnumV {
    pub attributes: Seq<AttributeV>,
    pub vis_marker: Option<VisMarkerV>,
    pub name: Seq<char>,
    pub generic_params: Option<GenericParamsV>,
    pub where_clause: Option<WhereClauseV>,
    pub variants: Seq<EnumVariantV>,
}

impl View for Enum {
    type V = EnumV;

    open spec fn view(&self) -> EnumV {
        EnumV {
            attributes: seq_view(self.attributes@),
            vis_marker: opt_view(self.vis_marker),
            name: self.name@,
            generic_params: opt_view(self.generic_params),
            where_clause: opt_view(self.where_clause),
            variants: seq_view(self.variants@),
        }
    }
}

/// A union declaration.
#[derive(Debug)]
pub struct Union {
    pub attributes: Vec<Attribute>,
    pub vis_marker: Option<VisMarker>,
    pub name: String,
    pub generic_params: Option<GenericParams>,
    pub where_clause: Option<WhereClause>,
    pub fields: Vec<NamedField>,
}

pub struct UnionV {
    pub attributes: Seq<AttributeV>,
    pub vis_marker: Option<VisMarkerV>,
    pub name: Seq<char>,
    pub generic_params: Option<GenericParamsV>,
    pub where_clause: Option<WhereClauseV>,
    pub fields: Seq<NamedFieldV>,
}

impl View for Union {
    type V = UnionV;

    open spec fn view(&self) -> UnionV {
        UnionV {
            attributes: seq_view(self.attributes@),
            vis_marker: opt_view(self.vis_marker),
            name: self.name@,
            generic_params: opt_view(self.generic_params),
            where_clause: opt_view(self.where_clause),
            fields: seq_view(self.fields@),
        }
    }
}

/// A function declaration. The body is the opaque content of the braced
/// block, or absent for a signature terminated by a semicolon.
#[derive(Debug)]
pub struct Function {
    pub attributes: Vec<Attribute>,
    pub vis_marker: Option<VisMarker>,
    pub qualifiers: FunctionQualifiers,
    pub name: String,
    pub generic_params: Option<GenericParams>,
    pub params: Vec<FunctionParameter>,
    pub return_ty: Option<TyExpr>,
    pub where_clause: Option<WhereClause>,
    pub body: Option<Vec<Token>>,
}

pub struct FunctionV {
    pub attributes: Seq<AttributeV>,
    pub vis_marker: Option<VisMarkerV>,
    pub qualifiers: FunctionQualifiersV,
    pub name: Seq<char>,
    pub generic_params: Option<GenericParamsV>,
    pub params: Seq<FunctionParameterV>,
    pub return_ty: Option<TyExprV>,
    pub where_clause: Option<WhereClauseV>,
    pub body: Option<Seq<TokenV>>,
}

impl View for Function {
    type V = FunctionV;

    open spec fn view(&self) -> FunctionV {
        FunctionV {
            attributes: seq_view(self.attributes@),
            vis_marker: opt_view(self.vis_marker),
            qualifiers: self.qualifiers@,
            name: self.name@,
            generic_params: opt_view(self.generic_params),
            params: seq_view(self.params@),
            return_ty: opt_view(self.return_ty),
            where_clause: opt_view(self.where_clause),
            body: match self.body {
                Option::Some(ref ts) => Option::Some(toks_view(ts@)),
                Option::None => Option::None,
            },
        }
    }
}

/// One parsed declaration.
#[derive(Debug)]
pub enum Declaration {
    Struct(Struct),
    Enum(Enum),
    Union(Union),
    Function(Function),
}

pub enum DeclarationV {
    Struct(StructV),
    Enum(EnumV),
    Union(UnionV),
    Function(FunctionV),
}

impl View for Declaration {
    type V = DeclarationV;

    open spec fn view(&self) -> DeclarationV {
        match self {
            Declaration::Struct(s) => DeclarationV::Struct(s@),
            Declaration::Enum(e) => DeclarationV::Enum(e@),
            Declaration::Union(u) => DeclarationV::Union(u@),
            Declaration::Function(f) => DeclarationV::Function(f@),
        }
    }
}

/// The classified failures of a parse. Every failure is final for the call:
/// no partial tree is returned.
#[derive(Clone, Copy, Debug, PartialEq, Eq, Structural)]
pub enum ParseError {
    /// The cursor was exhausted where a token was required.
    UnexpectedEof,
    /// An attribute marker was not followed by a bracketed group.
    MalformedAttribute,
    /// A required identifier was absent at a fixed grammar position.
    ExpectedIdentifier,
    /// A required colon was absent at a fixed grammar position.
    ExpectedColon,
    /// An enum variant was followed by a token that fits no variant shape.
    UnrecognizedVariantShape,
    /// The leading tokens fit no known declaration form.
    UnrecognizedDeclaration,
    /// A function parameter position held a pattern, `self`, or another
    /// construct outside the supported subset.
    UnsupportedParameterPattern,
    /// An angle-bracket depth counter went negative inside a span that must
    /// stay balanced.
    UnbalancedBrackets,
}

} // verus!
