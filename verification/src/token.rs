//! The lexical token model: the input alphabet of the declaration parser.

use vstd::prelude::*;

verus! {

broadcast use vstd::std_specs::vec::group_vec_axioms;

/// The delimiter kind of a token group.
#[derive(Clone, Copy, Debug, PartialEq, Eq, Structural)]
pub enum Delim {
    Paren,
    Bracket,
    Brace,
}

/// One lexical token: an identifier (or keyword), a single punctuation
/// character, an opaque literal, or a delimited group of nested tokens.
#[derive(Debug, PartialEq, Eq)]
pub enum Token {
    Ident(String),
    Punct(char),
    Literal(String),
    Group(Delim, Vec<Token>),
}

/// The mathematical model of a token: identifier and literal text as
/// character sequences, group contents as a sequence of modelled tokens.
pub enum TokenV {
    Ident(Seq<char>),
    Punct(char),
    Literal(Seq<char>),
    Group(Delim, Seq<TokenV>),
}

/// Model of a single token.
pub open spec fn tok_view(t: Token) -> TokenV
    decreases t,
{
    match t {
        Token::Ident(s) => TokenV::Ident(s@),
        Token::Punct(c) => TokenV::Punct(c),
        Token::Literal(s) => TokenV::Literal(s@),
        Token::Group(d, ts) => TokenV::Group(d, toks_view(ts@)),
    }
}

/// Pointwise model of a token sequence.
pub open spec fn toks_view(ts: Seq<Token>) -> Seq<TokenV>
    decreases ts,
{
    Seq::new(
        ts.len(),
        |i: int|
            if 0 <= i < ts.len() {
                tok_view(ts[i])
            } else {
                TokenV::Punct(' ')
            },
    )
}

impl View for Token {
    type V = TokenV;

    open spec fn view(&self) -> TokenV {
        tok_view(*self)
    }
}

impl Token {
    /// A structural copy of the token.
    pub fn duplicate(&self) -> (r: Token)
        ensures
            r@ == self@,
        decreases *self,
    {
        match self {
            Token::Ident(s) => Token::Ident(s.clone()),
            Token::Punct(c) => Token::Punct(*c),
            Token::Literal(s) => Token::Literal(s.clone()),
            Token::Group(d, ts) => Token::Group(*d, toks_dup(ts)),
        }
    }
}

impl Clone for Token {
    /// A structural copy of the token.
    fn clone(&self) -> (r: Token)
        ensures
            r@ == self@,
    {
        self.duplicate()
    }
}

/// A structural copy of a token sequence.
pub fn toks_dup(ts: &Vec<Token>) -> (r: Vec<Token>)
    ensures
        toks_view(r@) == toks_view(ts@),
    decreases ts@,
{
    let mut out: Vec<Token> = Vec::new();
    let mut k: usize = 0;
    while k < ts.len()
        invariant
            k <= ts.len(),
            out@.len() == k as int,
            forall|i: int| 0 <= i < k as int ==> out@[i]@ == ts@[i]@,
        decreases ts@.len() - k,
    {
        proof {
            assert(decreases_to!(ts@ => ts@[k as int]));
        }
        out.push(ts[k].duplicate());
        k = k + 1;
    }
    proof {
        assert(toks_view(out@) =~= toks_view(ts@));
    }
    out
}

} // verus!
