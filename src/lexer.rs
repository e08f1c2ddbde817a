use vstd::prelude::*;
use crate::chars::{str_chars, string_of};
use crate::scan::{
    comment_close, digit, find_char, find_from, ident_end, ident_run_end, ident_start, is_digit,
    is_ident_start, is_whitespace, lemma_comment_close_bounds, lemma_find_char_bounds,
    lemma_ident_end_bounds, lemma_scan_number_bounds, lemma_scan_string_bounds, lex_num_lit,
    lex_string_lit, scan_number, scan_string, skip_block_comment, whitespace,
};
use crate::token::{LexerError, Sign, Tok, TokModel};
use crate::vocab::{kw_of, Kw, Sym};

verus! {

/// The symbol that a character stands for on its own, whatever follows it.
pub open spec fn single_symbol(c: char) -> Option<Sym> {
    if c == '(' {
        Some(Sym::LParen)
    } else if c == ')' {
        Some(Sym::RParen)
    } else if c == '[' {
        Some(Sym::LBrack)
    } else if c == ']' {
        Some(Sym::RBrack)
    } else if c == '{' {
        Some(Sym::LBrace)
    } else if c == '}' {
        Some(Sym::RBrace)
    } else if c == ';' {
        Some(Sym::Semi)
    } else if c == ',' {
        Some(Sym::Comma)
    } else if c == ':' {
        Some(Sym::Colon)
    } else if c == '.' {
        Some(Sym::Dot)
    } else if c == '+' {
        Some(Sym::Plus)
    } else if c == '*' {
        Some(Sym::Star)
    } else if c == '%' {
        Some(Sym::Percent)
    } else {
        None
    }
}

/// A run of characters that are all `0`.
pub open spec fn all_zero(w: Seq<char>) -> bool {
    forall|k: int| 0 <= k < w.len() ==> w[k] == '0'
}

/// The index just past the line comment that starts at `i`: past the next
/// line feed, or the end of the input.
pub open spec fn line_end(s: Seq<char>, i: int) -> int {
    let n = find_char(s, i, '\n');
    if n < s.len() {
        n + 1
    } else {
        s.len() as int
    }
}

/// Emits `sym` and goes on at `j`.
pub open spec fn emit(sym: Sym, j: int) -> Result<(Option<TokModel>, int), LexerError> {
    Ok((Some(TokModel::Sym(sym)), j))
}

/// The numeric literal whose digits start at `j`, with the given sign. A
/// negative literal whose digits are all zero is an error.
pub open spec fn number_token(s: Seq<char>, j: int, sign: Sign) -> Result<
    (Option<TokModel>, int),
    LexerError,
> {
    match scan_number(s, j) {
        Err(e) => Err(e),
        Ok((w, f, end)) => {
            if sign == Sign::Negative && all_zero(w) && match f {
                Some(d) => all_zero(d),
                None => true,
            } {
                Err(LexerError::NegativeZero)
            } else {
                Ok((Some(TokModel::Num(sign, w, f)), end))
            }
        },
    }
}

/// One step of the lexer at index `i`: the token read there, if any (comments
/// and whitespace give none), and the index where lexing goes on.
pub open spec fn step(s: Seq<char>, i: int) -> Result<(Option<TokModel>, int), LexerError> {
    let c = s[i];
    let has_next = i + 1 < s.len();
    let next = s[i + 1];
    if single_symbol(c) is Some {
        emit(single_symbol(c)->0, i + 1)
    } else if c == '/' {
        if has_next && next == '/' {
            Ok((None, line_end(s, i)))
        } else if has_next && next == '*' {
            match comment_close(s, i + 2, 1) {
                Some(e) => Ok((None, e)),
                None => Err(LexerError::UnterminatedBlockComment),
            }
        } else {
            emit(Sym::Slash, i + 1)
        }
    } else if c == '!' {
        if has_next && next == '=' {
            emit(Sym::NEq, i + 2)
        } else {
            Err(LexerError::LoneExclamationPoint)
        }
    } else if c == '=' {
        if has_next && next == '=' {
            emit(Sym::Eq, i + 2)
        } else if has_next && next == '>' {
            emit(Sym::DoubleArrow, i + 2)
        } else {
            emit(Sym::Assign, i + 1)
        }
    } else if c == '>' {
        if has_next && next == '=' {
            emit(Sym::GE, i + 2)
        } else {
            emit(Sym::GT, i + 1)
        }
    } else if c == '<' {
        if has_next && next == '=' {
            emit(Sym::LE, i + 2)
        } else {
            emit(Sym::LT, i + 1)
        }
    } else if c == '-' {
        if has_next && next == '>' {
            emit(Sym::Arrow, i + 2)
        } else if has_next && digit(next) {
            number_token(s, i + 1, Sign::Negative)
        } else {
            emit(Sym::Minus, i + 1)
        }
    } else if digit(c) {
        number_token(s, i, Sign::Positive)
    } else if ident_start(c) {
        let e = ident_end(s, i + 1);
        let text = s.subrange(i, e);
        Ok(
            (
                Some(
                    match kw_of(text) {
                        Some(k) => TokModel::Kw(k),
                        None => TokModel::Ident(text),
                    },
                ),
                e,
            ),
        )
    } else if c == '"' {
        match scan_string(s, i + 1) {
            Ok((t, e)) => Ok((Some(TokModel::Str(t)), e)),
            Err(err) => Err(err),
        }
    } else if whitespace(c) {
        Ok((None, i + 1))
    } else {
        Err(LexerError::UnrecognizedCharacter(c))
    }
}

/// The tokens of `s` from index `i` on, or the first error met there.
pub open spec fn lex_from(s: Seq<char>, i: int) -> Result<Seq<TokModel>, LexerError>
    decreases s.len() - i,
{
    if i < 0 || i >= s.len() {
        Ok(seq![])
    } else {
        match step(s, i) {
            Err(e) => Err(e),
            Ok((t, j)) => {
                // every step moves forward within `s`: see `lemma_step_advances`
                if i < j <= s.len() {
                    prepend(opt_seq(t), lex_from(s, j))
                } else {
                    Ok(seq![])
                }
            },
        }
    }
}

/// The tokens of a whole source text, or the first error in it.
pub open spec fn lex_spec(s: Seq<char>) -> Result<Seq<TokModel>, LexerError> {
    lex_from(s, 0)
}

/// The token, if any, as a sequence of none or one.
pub open spec fn opt_seq(t: Option<TokModel>) -> Seq<TokModel> {
    match t {
        Some(x) => seq![x],
        None => seq![],
    }
}

/// `p` in front of the tokens of `r`, or the error of `r`.
pub open spec fn prepend(p: Seq<TokModel>, r: Result<Seq<TokModel>, LexerError>) -> Result<
    Seq<TokModel>,
    LexerError,
> {
    match r {
        Ok(ts) => Ok(p + ts),
        Err(e) => Err(e),
    }
}

/// The models of a sequence of tokens.
pub open spec fn toks_view(v: Seq<Tok>) -> Seq<TokModel> {
    v.map_values(|t: Tok| t@)
}

/// The model of an optional token.
pub open spec fn opt_view(t: Option<Tok>) -> Option<TokModel> {
    match t {
        Some(x) => Some(x@),
        None => None,
    }
}

/// The symbol that `c` stands for on its own, if any.
pub fn single_symbol_of(c: char) -> (r: Option<Sym>)
    ensures
        r == single_symbol(c),
{
    match c {
        '(' => Some(Sym::LParen),
        ')' => Some(Sym::RParen),
        '[' => Some(Sym::LBrack),
        ']' => Some(Sym::RBrack),
        '{' => Some(Sym::LBrace),
        '}' => Some(Sym::RBrace),
        ';' => Some(Sym::Semi),
        ',' => Some(Sym::Comma),
        ':' => Some(Sym::Colon),
        '.' => Some(Sym::Dot),
        '+' => Some(Sym::Plus),
        '*' => Some(Sym::Star),
        '%' => Some(Sym::Percent),
        _ => None,
    }
}

/// Tells whether every character of `w` is `0`.
pub fn is_all_zero(w: &str) -> (r: bool)
    ensures
        r == all_zero(w@),
{
    let v = str_chars(w);
    let mut k: usize = 0;
    while k < v.len()
        invariant
            v@ == w@,
            k <= v@.len(),
            forall|m: int| 0 <= m < k ==> v@[m] == '0',
        decreases v@.len() - k,
    {
        if v[k] != '0' {
            return false;
        }
        k = k + 1;
    }
    true
}

/// Reads the numeric literal whose digits start at `j`, with the given sign.
pub fn lex_number(s: &[char], j: usize, sign: Sign) -> (r: Result<(Option<Tok>, usize), LexerError>)
    requires
        j <= s@.len(),
    ensures
        match (r, number_token(s@, j as int, sign)) {
            (Ok((t, e)), Ok((t2, e2))) => opt_view(t) == t2 && e == e2,
            (Err(e), Err(e2)) => e == e2,
            _ => false,
        },
{
    match lex_num_lit(s, j) {
        Err(e) => Err(e),
        Ok((w, f, end)) => {
            let zero = match &f {
                Some(d) => is_all_zero(w.as_str()) && is_all_zero(d.as_str()),
                None => is_all_zero(w.as_str()),
            };
            if sign == Sign::Negative && zero {
                Err(LexerError::NegativeZero)
            } else {
                Ok((Some(Tok::Num(sign, w, f)), end))
            }
        },
    }
}

/// Reads what stands at index `i`: the token there, if any, and the index
/// where lexing goes on.
pub fn next_token(s: &[char], i: usize) -> (r: Result<(Option<Tok>, usize), LexerError>)
    requires
        i < s@.len(),
    ensures
        match (r, step(s@, i as int)) {
            (Ok((t, j)), Ok((t2, j2))) => opt_view(t) == t2 && j == j2,
            (Err(e), Err(e2)) => e == e2,
            _ => false,
        },
{
    let c = s[i];
    let has_next = i + 1 < s.len();
    if let Some(sym) = single_symbol_of(c) {
        return Ok((Some(Tok::Sym(sym)), i + 1));
    }
    if c == '/' {
        if has_next && s[i + 1] == '/' {
            let n = find_from(s, i, '\n');
            proof {
                lemma_find_char_bounds(s@, i as int, '\n');
            }
            if n < s.len() {
                Ok((None, n + 1))
            } else {
                Ok((None, s.len()))
            }
        } else if has_next && s[i + 1] == '*' {
            match skip_block_comment(s, i) {
                Ok(e) => Ok((None, e)),
                Err(e) => Err(e),
            }
        } else {
            Ok((Some(Tok::Sym(Sym::Slash)), i + 1))
        }
    } else if c == '!' {
        if has_next && s[i + 1] == '=' {
            Ok((Some(Tok::Sym(Sym::NEq)), i + 2))
        } else {
            Err(LexerError::LoneExclamationPoint)
        }
    } else if c == '=' {
        if has_next && s[i + 1] == '=' {
            Ok((Some(Tok::Sym(Sym::Eq)), i + 2))
        } else if has_next && s[i + 1] == '>' {
            Ok((Some(Tok::Sym(Sym::DoubleArrow)), i + 2))
        } else {
            Ok((Some(Tok::Sym(Sym::Assign)), i + 1))
        }
    } else if c == '>' {
        if has_next && s[i + 1] == '=' {
            Ok((Some(Tok::Sym(Sym::GE)), i + 2))
        } else {
            Ok((Some(Tok::Sym(Sym::GT)), i + 1))
        }
    } else if c == '<' {
        if has_next && s[i + 1] == '=' {
            Ok((Some(Tok::Sym(Sym::LE)), i + 2))
        } else {
            Ok((Some(Tok::Sym(Sym::LT)), i + 1))
        }
    } else if c == '-' {
        if has_next && s[i + 1] == '>' {
            Ok((Some(Tok::Sym(Sym::Arrow)), i + 2))
        } else if has_next && is_digit(s[i + 1]) {
            lex_number(s, i + 1, Sign::Negative)
        } else {
            Ok((Some(Tok::Sym(Sym::Minus)), i + 1))
        }
    } else if is_digit(c) {
        lex_number(s, i, Sign::Positive)
    } else if is_ident_start(c) {
        let e = ident_run_end(s, i + 1);
        proof {
            lemma_ident_end_bounds(s@, i + 1);
        }
        match Kw::from_chars(s, i, e) {
            Some(k) => Ok((Some(Tok::Kw(k)), e)),
            None => Ok((Some(Tok::Ident(string_of(s, i, e))), e)),
        }
    } else if c == '"' {
        match lex_string_lit(s, i + 1) {
            Ok((t, e)) => Ok((Some(Tok::String(t)), e)),
            Err(err) => Err(err),
        }
    } else if is_whitespace(c) {
        Ok((None, i + 1))
    } else {
        Err(LexerError::UnrecognizedCharacter(c))
    }
}

/// The model of what `lex` returns.
pub open spec fn lex_result_view(r: Result<Vec<Tok>, LexerError>) -> Result<
    Seq<TokModel>,
    LexerError,
> {
    match r {
        Ok(v) => Ok(toks_view(v@)),
        Err(e) => Err(e),
    }
}

/// Every step of the lexer that succeeds moves forward, and stays within
/// the input.
pub proof fn lemma_step_advances(s: Seq<char>, i: int)
    requires
        0 <= i < s.len(),
    ensures
        step(s, i) matches Ok((_, j)) ==> i < j <= s.len(),
{
    let c = s[i];
    lemma_find_char_bounds(s, i, '\n');
    lemma_comment_close_bounds(s, i + 2, 1);
    if i + 1 < s.len() && digit(s[i + 1]) {
        lemma_scan_number_bounds(s, i + 1);
    }
    if digit(c) {
        lemma_scan_number_bounds(s, i);
    }
    lemma_ident_end_bounds(s, i + 1);
    lemma_scan_string_bounds(s, i + 1);
}

/// Splits a source text into tokens, or reports the first error in it.
pub fn lex(src: &str) -> (r: Result<Vec<Tok>, LexerError>)
    ensures
        lex_result_view(r) == lex_spec(src@),
{
    let chars = str_chars(src);
    let s = chars.as_slice();
    let mut toks: Vec<Tok> = Vec::new();
    let mut i: usize = 0;
    while i < s.len()
        invariant
            s@ == src@,
            i <= s@.len(),
            lex_spec(s@) == prepend(toks_view(toks@), lex_from(s@, i as int)),
        decreases s@.len() - i,
    {
        proof {
            lemma_step_advances(s@, i as int);
        }
        match next_token(s, i) {
            Err(e) => {
                return Err(e);
            },
            Ok((t, j)) => {
                let ghost old_toks = toks@;
                match t {
                    Some(tok) => {
                        toks.push(tok);
                    },
                    None => {},
                }
                proof {
                    assert(toks_view(toks@) =~= toks_view(old_toks) + opt_seq(opt_view(t)));
                    match lex_from(s@, j as int) {
                        Ok(ts) => {
                            assert(toks_view(old_toks) + (opt_seq(opt_view(t)) + ts) =~= toks_view(toks@) + ts);
                        },
                        Err(_) => {},
                    }
                }
                i = j;
            },
        }
    }
    assert(toks_view(toks@) + seq![] =~= toks_view(toks@));
    Ok(toks)
}

} // verus!
