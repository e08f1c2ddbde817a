use vstd::prelude::*;
use vstd::string::StringExecFns;
use crate::vocab::{Kw, Sym};

verus! {

/// An error encountered while lexing a source buffer.
#[derive(Copy, Clone, Debug, PartialEq, Eq, Structural)]
pub enum LexerError {
    /// A `/*` comment, at some nesting level, has no matching `*/`.
    UnterminatedBlockComment,
    /// A numeric literal is immediately followed by an identifier character.
    NumericLiteralSuffix,
    /// A string literal has no closing quote, or the input ends right after
    /// a backslash.
    UnterminatedStringLiteral,
    /// A backslash in a string literal is followed by this character, which
    /// starts no escape sequence.
    UnrecognizedEscapeSequence(char),
    /// `!` is not immediately followed by `=`.
    LoneExclamationPoint,
    /// A `-`-prefixed numeric literal whose digits are all zero.
    NegativeZero,
    /// This character starts no token.
    UnrecognizedCharacter(char),
}

/// The sign of a numeric literal. Zero is always positive: a minus sign in
/// front of a zero literal is an error.
#[derive(Copy, Clone, PartialEq, Eq, Structural, PartialOrd, Ord, Hash, Debug)]
pub enum Sign {
    Positive,
    Negative,
}

impl Sign {
    /// What the sign renders as in front of a number.
    pub open spec fn prefix(self) -> Seq<char> {
        match self {
            Sign::Positive => seq![],
            Sign::Negative => seq!['-'],
        }
    }

    /// Renders the sign as it stands before a number: nothing if it is
    /// positive, a minus sign if it is negative.
    pub fn as_str(self) -> (r: &'static str)
        ensures
            r@ == self.prefix(),
    {
        match self {
            Sign::Positive => {
                proof {
                    reveal_strlit("");
                }
                ""
            },
            Sign::Negative => {
                proof {
                    reveal_strlit("-");
                }
                assert("-"@ =~= seq!['-']);
                "-"
            },
        }
    }
}

/// A token of the language. Every token owns its text.
#[derive(Clone, PartialEq, Eq, PartialOrd, Ord, Hash, Debug)]
pub enum Tok {
    /// A keyword.
    Kw(Kw),
    /// A symbol or operator.
    Sym(Sym),
    /// An identifier other than a keyword.
    Ident(String),
    /// A numeric literal, unparsed: its sign, the digits before the `.`, and
    /// the digits after it, if there is a fractional part.
    Num(Sign, String, Option<String>),
    /// A string literal, with its escape sequences already resolved.
    String(String),
}

/// The mathematical value of a token: its text as character sequences.
pub enum TokModel {
    Kw(Kw),
    Sym(Sym),
    Ident(Seq<char>),
    Num(Sign, Seq<char>, Option<Seq<char>>),
    Str(Seq<char>),
}

/// What `{:?}` renders for a string: the text quoted, with escapes put back.
pub uninterp spec fn debug_quoted(s: Seq<char>) -> Seq<char>;

/// Relies on the `Debug` impl of `str`, which quotes the text and escapes
/// quotes, backslashes and control characters; the result depends on the
/// characters alone.
#[verifier::external_body]
pub(crate) fn quote_for_display(s: &str) -> (r: String)
    ensures
        r@ == debug_quoted(s@),
{
    format!("{:?}", s)
}

impl TokModel {
    /// How a token renders for diagnostics.
    pub open spec fn text(self) -> Seq<char> {
        match self {
            TokModel::Kw(k) => k.spelling(),
            TokModel::Sym(s) => s.spelling(),
            TokModel::Ident(i) => i,
            TokModel::Num(sign, w, f) => sign.prefix() + w + match f {
                Some(d) => seq!['.'] + d,
                None => seq![],
            },
            TokModel::Str(s) => debug_quoted(s),
        }
    }
}

impl View for Tok {
    type V = TokModel;

    open spec fn view(&self) -> TokModel {
        match self {
            Tok::Kw(k) => TokModel::Kw(*k),
            Tok::Sym(s) => TokModel::Sym(*s),
            Tok::Ident(i) => TokModel::Ident(i@),
            Tok::Num(sign, w, f) => TokModel::Num(
                *sign,
                w@,
                match f {
                    Some(d) => Some(d@),
                    None => None,
                },
            ),
            Tok::String(s) => TokModel::Str(s@),
        }
    }
}

impl Tok {
    /// Hands the token over as a value that owns all of its text. Tokens
    /// here always own their text, so this keeps the token as it is.
    pub fn into_owned(self) -> (r: Tok)
        ensures
            r@ == self@,
    {
        match self {
            Tok::Kw(k) => Tok::Kw(k),
            Tok::Sym(s) => Tok::Sym(s),
            Tok::Ident(i) => Tok::Ident(i),
            Tok::Num(sign, w, f) => Tok::Num(sign, w, f),
            Tok::String(s) => Tok::String(s),
        }
    }

    /// Renders the token for diagnostics: a keyword or symbol as its
    /// spelling, an identifier as its text, a number as its sign, digits and
    /// fractional digits, a string literal quoted with its escapes put back.
    pub fn render(&self) -> (r: String)
        ensures
            r@ == self@.text(),
    {
        match self {
            Tok::Kw(k) => String::from_str(k.as_str()),
            Tok::Sym(s) => String::from_str(s.as_str()),
            Tok::Ident(i) => i.clone(),
            Tok::Num(sign, w, f) => {
                let mut out = String::from_str(sign.as_str());
                out.append(w.as_str());
                match f {
                    Some(d) => {
                        proof {
                            reveal_strlit(".");
                        }
                        out.append(".");
                        out.append(d.as_str());
                        assert(out@ =~= self@.text());
                    },
                    None => {
                        assert(out@ =~= self@.text());
                    },
                }
                out
            },
            Tok::String(s) => quote_for_display(s.as_str()),
        }
    }
}

} // verus!
