use vstd::prelude::*;
use vstd::string::StringExecFns;
use crate::chars::{push_char, string_of};
use crate::token::LexerError;

verus! {

/// An ASCII decimal digit.
pub open spec fn digit(c: char) -> bool {
    '0' <= c && c <= '9'
}

/// ASCII whitespace: space, tab, line feed, form feed, carriage return.
pub open spec fn whitespace(c: char) -> bool {
    c == ' ' || c == '\t' || c == '\n' || c == '\x0C' || c == '\r'
}

/// Whether `c` has the Unicode XID_Start property.
pub uninterp spec fn xid_start(c: char) -> bool;

/// Whether `c` has the Unicode XID_Continue property.
pub uninterp spec fn xid_continue(c: char) -> bool;

/// A character that can start an identifier.
pub open spec fn ident_start(c: char) -> bool {
    c == '_' || xid_start(c)
}

/// A character that can continue an identifier.
pub open spec fn ident_continue(c: char) -> bool {
    c == '_' || xid_continue(c)
}

/// Tells whether `c` is an ASCII decimal digit.
pub fn is_digit(c: char) -> (r: bool)
    ensures
        r == digit(c),
{
    '0' <= c && c <= '9'
}

/// Tells whether `c` is ASCII whitespace.
pub fn is_whitespace(c: char) -> (r: bool)
    ensures
        r == whitespace(c),
{
    c == ' ' || c == '\t' || c == '\n' || c == '\x0C' || c == '\r'
}

/// Relies on `unic_ucd_ident::is_xid_start`, a lookup of the XID_Start
/// property in the crate's Unicode tables.
#[verifier::external_body]
fn is_xid_start(c: char) -> (r: bool)
    ensures
        r == xid_start(c),
{
    unic_ucd_ident::is_xid_start(c)
}

/// Relies on `unic_ucd_ident::is_xid_continue`, a lookup of the
/// XID_Continue property in the crate's Unicode tables.
#[verifier::external_body]
fn is_xid_continue(c: char) -> (r: bool)
    ensures
        r == xid_continue(c),
{
    unic_ucd_ident::is_xid_continue(c)
}

/// Tells whether `c` can start an identifier.
pub fn is_ident_start(c: char) -> (r: bool)
    ensures
        r == ident_start(c),
{
    c == '_' || is_xid_start(c)
}

/// Tells whether `c` can continue an identifier.
pub fn is_ident_continue(c: char) -> (r: bool)
    ensures
        r == ident_continue(c),
{
    c == '_' || is_xid_continue(c)
}

/// The index of the first `c` in `s` at or after `i`, or `s.len()` if there
/// is none.
pub open spec fn find_char(s: Seq<char>, i: int, c: char) -> int
    decreases s.len() - i,
{
    if i < 0 || i >= s.len() {
        s.len() as int
    } else if s[i] == c {
        i
    } else {
        find_char(s, i + 1, c)
    }
}

/// The end of the run of digits that starts at `i`.
pub open spec fn digits_end(s: Seq<char>, i: int) -> int
    decreases s.len() - i,
{
    if 0 <= i < s.len() && digit(s[i]) {
        digits_end(s, i + 1)
    } else {
        i
    }
}

/// The end of the run of identifier characters that starts at `i`.
pub open spec fn ident_end(s: Seq<char>, i: int) -> int
    decreases s.len() - i,
{
    if 0 <= i < s.len() && ident_continue(s[i]) {
        ident_end(s, i + 1)
    } else {
        i
    }
}

/// `find_char` lands on `c`, or at the end, and skips no `c` on the way.
pub proof fn lemma_find_char_bounds(s: Seq<char>, i: int, c: char)
    requires
        0 <= i <= s.len(),
    ensures
        i <= find_char(s, i, c) <= s.len(),
        find_char(s, i, c) < s.len() ==> s[find_char(s, i, c)] == c,
        forall|k: int| i <= k < find_char(s, i, c) ==> s[k] != c,
    decreases s.len() - i,
{
    if i < s.len() && s[i] != c {
        lemma_find_char_bounds(s, i + 1, c);
    }
}

/// A digit run ends within the input, on a character that is no digit.
pub proof fn lemma_digits_end_bounds(s: Seq<char>, i: int)
    requires
        0 <= i <= s.len(),
    ensures
        i <= digits_end(s, i) <= s.len(),
        digits_end(s, i) < s.len() ==> !digit(s[digits_end(s, i)]),
    decreases s.len() - i,
{
    if i < s.len() && digit(s[i]) {
        lemma_digits_end_bounds(s, i + 1);
    }
}

/// An identifier run ends within the input.
pub proof fn lemma_ident_end_bounds(s: Seq<char>, i: int)
    requires
        0 <= i <= s.len(),
    ensures
        i <= ident_end(s, i) <= s.len(),
    decreases s.len() - i,
{
    if i < s.len() && ident_continue(s[i]) {
        lemma_ident_end_bounds(s, i + 1);
    }
}

/// Finds the first `c` in `s` at or after `i`.
pub fn find_from(s: &[char], i: usize, c: char) -> (r: usize)
    requires
        i <= s@.len(),
    ensures
        r == find_char(s@, i as int, c),
{
    let mut k: usize = i;
    while k < s.len() && s[k] != c
        invariant
            i <= k <= s@.len(),
            find_char(s@, k as int, c) == find_char(s@, i as int, c),
        decreases s@.len() - k,
    {
        k = k + 1;
    }
    k
}

/// Finds the end of the run of digits that starts at `i`.
pub fn digit_run_end(s: &[char], i: usize) -> (r: usize)
    requires
        i <= s@.len(),
    ensures
        r == digits_end(s@, i as int),
{
    let mut k: usize = i;
    while k < s.len() && is_digit(s[k])
        invariant
            i <= k <= s@.len(),
            digits_end(s@, k as int) == digits_end(s@, i as int),
        decreases s@.len() - k,
    {
        k = k + 1;
    }
    k
}

/// Finds the end of the run of identifier characters that starts at `i`.
pub fn ident_run_end(s: &[char], i: usize) -> (r: usize)
    requires
        i <= s@.len(),
    ensures
        r == ident_end(s@, i as int),
{
    let mut k: usize = i;
    while k < s.len() && is_ident_continue(s[k])
        invariant
            i <= k <= s@.len(),
            ident_end(s@, k as int) == ident_end(s@, i as int),
        decreases s@.len() - k,
    {
        k = k + 1;
    }
    k
}

/// Where the block comment whose body starts at `i` ends, `depth` comments
/// deep: the index just past the `*/` that closes the outermost one. Scanning
/// left to right, `/*` opens a nested comment and `*/` closes the innermost
/// open one. `None` if the input ends first.
pub open spec fn comment_close(s: Seq<char>, i: int, depth: nat) -> Option<int>
    decreases s.len() - i,
{
    if i < 0 || i + 1 >= s.len() {
        None
    } else if s[i] == '/' && s[i + 1] == '*' {
        comment_close(s, i + 2, depth + 1)
    } else if s[i] == '*' && s[i + 1] == '/' {
        if depth <= 1 {
            Some(i + 2)
        } else {
            comment_close(s, i + 2, (depth - 1) as nat)
        }
    } else {
        comment_close(s, i + 1, depth)
    }
}

/// Skips the block comment that opens at `start`, nested comments included,
/// and returns the index just past its closing `*/`. Nesting is tracked with a
/// counter, so deep nesting costs no stack.
pub fn skip_block_comment(s: &[char], start: usize) -> (r: Result<usize, LexerError>)
    requires
        start + 1 < s.len(),
        s@[start as int] == '/',
        s@[start + 1] == '*',
    ensures
        match r {
            Ok(e) => comment_close(s@, start + 2, 1) == Some(e as int),
            Err(err) => comment_close(s@, start + 2, 1) is None
                && err == LexerError::UnterminatedBlockComment,
        },
{
    let mut i: usize = start + 2;
    let mut depth: usize = 1;
    while i < s.len() && i + 1 < s.len()
        invariant
            start + 2 <= i <= s@.len(),
            1 <= depth <= i,
            comment_close(s@, i as int, depth as nat) == comment_close(s@, start + 2, 1),
        decreases s@.len() - i,
    {
        if s[i] == '/' && s[i + 1] == '*' {
            depth = depth + 1;
            i = i + 2;
        } else if s[i] == '*' && s[i + 1] == '/' {
            if depth == 1 {
                return Ok(i + 2);
            }
            depth = depth - 1;
            i = i + 2;
        } else {
            i = i + 1;
        }
    }
    Err(LexerError::UnterminatedBlockComment)
}

/// The numeric literal whose digits start at `i`: its integer digits, its
/// fractional digits if a `.` followed by a digit comes next, and the index
/// just past it. An identifier character right after it is an error.
pub open spec fn scan_number(s: Seq<char>, i: int) -> Result<
    (Seq<char>, Option<Seq<char>>, int),
    LexerError,
> {
    let e = digits_end(s, i);
    let has_frac = e < s.len() && e + 1 < s.len() && s[e] == '.' && digit(s[e + 1]);
    let end = if has_frac {
        digits_end(s, e + 1)
    } else {
        e
    };
    if end < s.len() && (ident_continue(s[end]) || xid_start(s[end])) {
        Err(LexerError::NumericLiteralSuffix)
    } else {
        Ok(
            (
                s.subrange(i, e),
                if has_frac {
                    Some(s.subrange(e + 1, end))
                } else {
                    None
                },
                end,
            ),
        )
    }
}

/// Reads the numeric literal whose digits start at `start`. Returns its
/// integer digits, its fractional digits if any, and the index just past it.
pub fn lex_num_lit(s: &[char], start: usize) -> (r: Result<
    (String, Option<String>, usize),
    LexerError,
>)
    requires
        start <= s@.len(),
    ensures
        match (r, scan_number(s@, start as int)) {
            (Ok((w, f, end)), Ok((w2, f2, end2))) => w@ == w2 && end == end2 && match (f, f2) {
                (Some(d), Some(d2)) => d@ == d2,
                (None, None) => true,
                _ => false,
            },
            (Err(e), Err(e2)) => e == e2,
            _ => false,
        },
{
    let e = digit_run_end(s, start);
    proof {
        lemma_digits_end_bounds(s@, start as int);
    }
    let has_frac = e < s.len() && e + 1 < s.len() && s[e] == '.' && is_digit(s[e + 1]);
    let end = if has_frac {
        digit_run_end(s, e + 1)
    } else {
        e
    };
    proof {
        if has_frac {
            lemma_digits_end_bounds(s@, e + 1);
        }
    }
    if end < s.len() && (is_ident_continue(s[end]) || is_xid_start(s[end])) {
        return Err(LexerError::NumericLiteralSuffix);
    }
    let w = string_of(s, start, e);
    let f = if has_frac {
        Some(string_of(s, e + 1, end))
    } else {
        None
    };
    Ok((w, f, end))
}

/// The character that the escape sequence `\c` stands for, if any.
pub open spec fn unescape(c: char) -> Option<char> {
    if c == '"' {
        Some('"')
    } else if c == '\\' {
        Some('\\')
    } else if c == 'n' {
        Some('\n')
    } else if c == 'r' {
        Some('\r')
    } else if c == 't' {
        Some('\t')
    } else {
        None
    }
}

/// The rest of a string literal that has escapes, from `j` on, with `acc`
/// read so far. Every backslash up to the last one in the input starts an
/// escape sequence; after the last one, the literal ends at the next quote.
pub open spec fn string_rest(s: Seq<char>, j: int, acc: Seq<char>) -> Result<
    (Seq<char>, int),
    LexerError,
>
    decreases s.len() - j,
{
    if j < 0 || find_char(s, j, '\\') >= s.len() {
        let q = find_char(s, j, '"');
        if q >= s.len() {
            Err(LexerError::UnterminatedStringLiteral)
        } else {
            Ok((acc + s.subrange(j, q), q + 1))
        }
    } else if j >= s.len() {
        Err(LexerError::UnterminatedStringLiteral)
    } else if s[j] != '\\' {
        string_rest(s, j + 1, acc.push(s[j]))
    } else if j + 1 >= s.len() {
        Err(LexerError::UnterminatedStringLiteral)
    } else {
        match unescape(s[j + 1]) {
            Some(c) => string_rest(s, j + 2, acc.push(c)),
            None => Err(LexerError::UnrecognizedEscapeSequence(s[j + 1])),
        }
    }
}

/// The string literal whose body starts at `i`, just after the opening
/// quote: its content with escapes resolved, and the index just past the
/// closing quote. A literal with no backslash before its closing quote is
/// taken as it stands; otherwise escapes are resolved first, and a missing
/// closing quote is reported only after them.
pub open spec fn scan_string(s: Seq<char>, i: int) -> Result<(Seq<char>, int), LexerError> {
    let q = find_char(s, i, '"');
    if q < find_char(s, i, '\\') {
        Ok((s.subrange(i, q), q + 1))
    } else {
        string_rest(s, i, seq![])
    }
}

/// Characters up to the next backslash are copied as they stand.
proof fn lemma_string_rest_skip(s: Seq<char>, j: int, acc: Seq<char>)
    requires
        0 <= j <= s.len(),
        find_char(s, j, '\\') < s.len(),
    ensures
        string_rest(s, j, acc) == string_rest(
            s,
            find_char(s, j, '\\'),
            acc + s.subrange(j, find_char(s, j, '\\')),
        ),
    decreases s.len() - j,
{
    lemma_find_char_bounds(s, j, '\\');
    if s[j] != '\\' {
        lemma_string_rest_skip(s, j + 1, acc.push(s[j]));
        assert(acc.push(s[j]) + s.subrange(j + 1, find_char(s, j, '\\')) =~= acc + s.subrange(
            j,
            find_char(s, j, '\\'),
        ));
    } else {
        assert(acc + s.subrange(j, j) =~= acc);
    }
}

/// Reads the string literal whose body starts at `start`, just after the
/// opening quote. Returns its content, escapes resolved, and the index just
/// past the closing quote.
pub fn lex_string_lit(s: &[char], start: usize) -> (r: Result<(String, usize), LexerError>)
    requires
        start <= s@.len(),
    ensures
        match (r, scan_string(s@, start as int)) {
            (Ok((t, end)), Ok((t2, end2))) => t@ == t2 && end == end2,
            (Err(e), Err(e2)) => e == e2,
            _ => false,
        },
{
    let q = find_from(s, start, '"');
    let b = find_from(s, start, '\\');
    proof {
        lemma_find_char_bounds(s@, start as int, '"');
    }
    if q < b {
        return Ok((string_of(s, start, q), q + 1));
    }
    let mut acc = String::new();
    let mut j: usize = start;
    loop
        invariant
            start <= j <= s@.len(),
            string_rest(s@, j as int, acc@) == scan_string(s@, start as int),
        decreases s@.len() - j,
    {
        let b = find_from(s, j, '\\');
        proof {
            lemma_find_char_bounds(s@, j as int, '\\');
        }
        if b == s.len() {
            let q = find_from(s, j, '"');
            proof {
                lemma_find_char_bounds(s@, j as int, '"');
            }
            if q == s.len() {
                return Err(LexerError::UnterminatedStringLiteral);
            }
            let tail = string_of(s, j, q);
            acc.append(tail.as_str());
            return Ok((acc, q + 1));
        }
        proof {
            lemma_string_rest_skip(s@, j as int, acc@);
        }
        let run = string_of(s, j, b);
        acc.append(run.as_str());
        if b + 1 >= s.len() {
            return Err(LexerError::UnterminatedStringLiteral);
        }
        let e = s[b + 1];
        if e == '"' {
            push_char(&mut acc, '"');
        } else if e == '\\' {
            push_char(&mut acc, '\\');
        } else if e == 'n' {
            push_char(&mut acc, '\n');
        } else if e == 'r' {
            push_char(&mut acc, '\r');
        } else if e == 't' {
            push_char(&mut acc, '\t');
        } else {
            return Err(LexerError::UnrecognizedEscapeSequence(e));
        }
        j = b + 2;
    }
}

/// A block comment ends past its scan start and within the input.
pub proof fn lemma_comment_close_bounds(s: Seq<char>, i: int, depth: nat)
    requires
        0 <= i,
    ensures
        comment_close(s, i, depth) matches Some(e) ==> i + 2 <= e <= s.len(),
    decreases s.len() - i,
{
    if i + 1 < s.len() {
        if s[i] == '/' && s[i + 1] == '*' {
            lemma_comment_close_bounds(s, i + 2, depth + 1);
        } else if s[i] == '*' && s[i + 1] == '/' {
            if depth > 1 {
                lemma_comment_close_bounds(s, i + 2, (depth - 1) as nat);
            }
        } else {
            lemma_comment_close_bounds(s, i + 1, depth);
        }
    }
}

/// A numeric literal that is read takes at least one character, and ends
/// within the input.
pub proof fn lemma_scan_number_bounds(s: Seq<char>, i: int)
    requires
        0 <= i < s.len(),
        digit(s[i]),
    ensures
        scan_number(s, i) matches Ok((_, _, e)) ==> i < e <= s.len(),
{
    lemma_digits_end_bounds(s, i + 1);
    let e = digits_end(s, i);
    if e + 1 < s.len() && s[e] == '.' && digit(s[e + 1]) {
        lemma_digits_end_bounds(s, e + 1);
    }
}

/// The rest of a string literal, when read, ends past `j` and within the input.
pub proof fn lemma_string_rest_bounds(s: Seq<char>, j: int, acc: Seq<char>)
    requires
        0 <= j <= s.len(),
    ensures
        string_rest(s, j, acc) matches Ok((_, e)) ==> j < e <= s.len(),
    decreases s.len() - j,
{
    lemma_find_char_bounds(s, j, '\\');
    lemma_find_char_bounds(s, j, '"');
    if find_char(s, j, '\\') < s.len() && j < s.len() {
        if s[j] != '\\' {
            lemma_string_rest_bounds(s, j + 1, acc.push(s[j]));
        } else if j + 1 < s.len() {
            if unescape(s[j + 1]) is Some {
                lemma_string_rest_bounds(s, j + 2, acc.push(unescape(s[j + 1])->0));
            }
        }
    }
}

/// A string literal, when read, ends past its body start and within the input.
pub proof fn lemma_scan_string_bounds(s: Seq<char>, i: int)
    requires
        0 <= i <= s.len(),
    ensures
        scan_string(s, i) matches Ok((_, e)) ==> i < e <= s.len(),
{
    lemma_find_char_bounds(s, i, '"');
    lemma_find_char_bounds(s, i, '\\');
    lemma_string_rest_bounds(s, i, seq![]);
}

} // verus!
