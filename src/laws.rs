use vstd::prelude::*;
use crate::lexer::{all_zero, lemma_step_advances, lex_from, lex_spec, opt_seq, step};
use crate::token::{Sign, TokModel};
use crate::vocab::kw_of;

verus! {

/// Lexing is deterministic: the same source text always gives the same
/// tokens, or the same error.
pub proof fn lemma_lex_deterministic(a: Seq<char>, b: Seq<char>)
    requires
        a == b,
    ensures
        lex_spec(a) == lex_spec(b),
{
}

/// A token that the lexer can produce: an identifier never spells a
/// keyword, and a negative number always has a non-zero digit.
pub open spec fn well_formed_token(t: TokModel) -> bool {
    match t {
        TokModel::Ident(x) => kw_of(x) is None,
        TokModel::Num(sign, w, f) => sign == Sign::Negative ==> !(all_zero(w) && match f {
            Some(d) => all_zero(d),
            None => true,
        }),
        _ => true,
    }
}

/// Each token that one step reads is well formed.
proof fn lemma_step_well_formed(s: Seq<char>, i: int)
    requires
        0 <= i < s.len(),
    ensures
        step(s, i) matches Ok((Some(t), _)) ==> well_formed_token(t),
{
}

/// Every token read from index `i` on is well formed.
proof fn lemma_lex_from_well_formed(s: Seq<char>, i: int)
    requires
        0 <= i <= s.len(),
    ensures
        lex_from(s, i) matches Ok(ts) ==> forall|k: int|
            0 <= k < ts.len() ==> well_formed_token(#[trigger] ts[k]),
    decreases s.len() - i,
{
    if i < s.len() {
        lemma_step_advances(s, i);
        lemma_step_well_formed(s, i);
        if let Ok((t, j)) = step(s, i) {
            lemma_lex_from_well_formed(s, j);
            if let Ok(ts) = lex_from(s, j) {
                let all = opt_seq(t) + ts;
                assert forall|k: int| 0 <= k < all.len() implies well_formed_token(#[trigger] all[k]) by {
                    if k >= opt_seq(t).len() {
                        assert(all[k] == ts[k - opt_seq(t).len()]);
                    }
                }
            }
        }
    }
}

/// Keyword priority and the sign of zero: in every successful lexing, no
/// identifier spells a keyword and no negative number is zero.
pub proof fn lemma_lex_tokens_well_formed(s: Seq<char>)
    ensures
        lex_spec(s) matches Ok(ts) ==> forall|k: int|
            0 <= k < ts.len() ==> well_formed_token(#[trigger] ts[k]),
{
    lemma_lex_from_well_formed(s, 0);
}

} // verus!
