//! The compact JSON encoding the relay exchanges with the mapping provider:
//! string escaping, and parsers for the token shapes the provider's documents
//! are built from. Every parser exists twice: a specification function over
//! `Seq<char>` that consumes a prefix and returns the value with the
//! remaining suffix, and an executable mirror proved equal to it.

use vstd::prelude::*;
use vstd::slice::{slice_index_get, slice_subrange};

verus! {

// ---------------------------------------------------------------------------
// String escaping
// ---------------------------------------------------------------------------

/// The lower-case hex digit for a value below sixteen.
pub open spec fn hex_digit(n: int) -> char {
    if n == 0 {
        '0'
    } else if n == 1 {
        '1'
    } else if n == 2 {
        '2'
    } else if n == 3 {
        '3'
    } else if n == 4 {
        '4'
    } else if n == 5 {
        '5'
    } else if n == 6 {
        '6'
    } else if n == 7 {
        '7'
    } else if n == 8 {
        '8'
    } else if n == 9 {
        '9'
    } else if n == 10 {
        'a'
    } else if n == 11 {
        'b'
    } else if n == 12 {
        'c'
    } else if n == 13 {
        'd'
    } else if n == 14 {
        'e'
    } else {
        'f'
    }
}

/// The value of a hex digit, either case.
pub open spec fn hex_val(c: char) -> Option<int> {
    if '0' <= c && c <= '9' {
        Some(c as int - '0' as int)
    } else if 'a' <= c && c <= 'f' {
        Some(c as int - 'a' as int + 10)
    } else if 'A' <= c && c <= 'F' {
        Some(c as int - 'A' as int + 10)
    } else {
        None
    }
}

/// The value of four hex digits, most significant first.
pub open spec fn hex4(s: Seq<char>) -> Option<int>
    recommends
        s.len() == 4,
{
    match (hex_val(s[0]), hex_val(s[1]), hex_val(s[2]), hex_val(s[3])) {
        (Some(a), Some(b), Some(c), Some(d)) => Some(a * 4096 + b * 256 + c * 16 + d),
        _ => None,
    }
}

/// The escape sequence a character is written as inside a JSON string:
/// quotes, backslashes and the named control characters are escaped, any
/// other control character is written in the `\u00XX` form, everything
/// else stands as itself.
pub open spec fn escape_char(c: char) -> Seq<char> {
    if c == '"' {
        seq!['\\', '"']
    } else if c == '\\' {
        seq!['\\', '\\']
    } else if c == '\n' {
        seq!['\\', 'n']
    } else if c == '\t' {
        seq!['\\', 't']
    } else if c == '\r' {
        seq!['\\', 'r']
    } else if c == '\u{0008}' {
        seq!['\\', 'b']
    } else if c == '\u{000C}' {
        seq!['\\', 'f']
    } else if (c as u32) < 0x20 {
        seq![
            '\\',
            'u',
            '0',
            '0',
            hex_digit((c as u32) as int / 16),
            hex_digit((c as u32) as int % 16),
        ]
    } else {
        seq![c]
    }
}

/// A character's code point is a valid unicode scalar value and casts back
/// to the character itself.
pub proof fn lemma_char_code(c: char)
    ensures
        (c as u32) as char == c,
        (c as u32) < 0xD800 || (0xE000 <= (c as u32) && (c as u32) <= 0x10FFFF),
{
}

/// A hex digit's value is itself again.
pub proof fn lemma_hex_digit_val(n: int)
    requires
        0 <= n < 16,
    ensures
        hex_val(hex_digit(n)) == Some(n),
{
}

/// The body of a JSON string holding exactly the characters of `s`.
pub open spec fn spec_escape(s: Seq<char>) -> Seq<char>
    decreases s.len(),
{
    if s.len() == 0 {
        Seq::<char>::empty()
    } else {
        escape_char(s[0]) + spec_escape(s.subrange(1, s.len() as int))
    }
}

/// A whole JSON string: quote, escaped body, quote.
pub open spec fn spec_json_string(s: Seq<char>) -> Seq<char> {
    seq!['"'] + spec_escape(s) + seq!['"']
}

/// A single character escapes to exactly its escape sequence.
pub proof fn lemma_escape_single(c: char)
    ensures
        spec_escape(seq![c]) == escape_char(c),
{
    assert(seq![c].subrange(1, 1) =~= Seq::<char>::empty());
    assert(spec_escape(Seq::<char>::empty()) =~= Seq::<char>::empty());
    assert(seq![c][0] == c);
    assert(spec_escape(seq![c]) =~= escape_char(c) + spec_escape(seq![c].subrange(1, 1)));
    assert(escape_char(c) + Seq::<char>::empty() =~= escape_char(c));
}

/// Escaping distributes over concatenation.
pub proof fn lemma_escape_app(a: Seq<char>, b: Seq<char>)
    ensures
        spec_escape(a + b) == spec_escape(a) + spec_escape(b),
    decreases a.len(),
{
    if a.len() == 0 {
        assert(a + b =~= b);
        assert(spec_escape(a) + spec_escape(b) =~= spec_escape(b));
    } else {
        let t = a.subrange(1, a.len() as int);
        assert((a + b).subrange(1, (a + b).len() as int) =~= t + b);
        lemma_escape_app(t, b);
        assert(escape_char((a + b)[0]) + (spec_escape(t) + spec_escape(b)) =~= (escape_char(a[0])
            + spec_escape(t)) + spec_escape(b));
    }
}

/// The lower-case hex digit for a value below sixteen.
fn hex_digit_exec(n: u32) -> (r: char)
    requires
        n < 16,
    ensures
        r == hex_digit(n as int),
{
    if n == 0 {
        '0'
    } else if n == 1 {
        '1'
    } else if n == 2 {
        '2'
    } else if n == 3 {
        '3'
    } else if n == 4 {
        '4'
    } else if n == 5 {
        '5'
    } else if n == 6 {
        '6'
    } else if n == 7 {
        '7'
    } else if n == 8 {
        '8'
    } else if n == 9 {
        '9'
    } else if n == 10 {
        'a'
    } else if n == 11 {
        'b'
    } else if n == 12 {
        'c'
    } else if n == 13 {
        'd'
    } else if n == 14 {
        'e'
    } else {
        'f'
    }
}

/// Appends the escaped body of `s` to `out`.
pub fn push_escaped(out: &mut Vec<char>, s: &str)
    ensures
        final(out)@ == old(out)@ + spec_escape(s@),
{
    let n: usize = s.unicode_len();
    let mut i: usize = 0;
    while i < n
        invariant
            n == s@.len(),
            i <= n,
            out@ == old(out)@ + spec_escape(s@.subrange(0, i as int)),
        decreases n - i,
    {
        let c = s.get_char(i);
        let ghost pre = out@;
        let code: u32 = c as u32;
        if c == '"' {
            out.push('\\');
            out.push('"');
        } else if c == '\\' {
            out.push('\\');
            out.push('\\');
        } else if c == '\n' {
            out.push('\\');
            out.push('n');
        } else if c == '\t' {
            out.push('\\');
            out.push('t');
        } else if c == '\r' {
            out.push('\\');
            out.push('r');
        } else if c == '\u{0008}' {
            out.push('\\');
            out.push('b');
        } else if c == '\u{000C}' {
            out.push('\\');
            out.push('f');
        } else if code < 0x20 {
            out.push('\\');
            out.push('u');
            out.push('0');
            out.push('0');
            out.push(hex_digit_exec(code / 16));
            out.push(hex_digit_exec(code % 16));
        } else {
            out.push(c);
        }
        proof {
            assert(out@ =~= pre + escape_char(c));
            assert(s@.subrange(0, i + 1) =~= s@.subrange(0, i as int) + seq![c]);
            lemma_escape_app(s@.subrange(0, i as int), seq![c]);
            lemma_escape_single(c);
            assert(out@ =~= old(out)@ + spec_escape(s@.subrange(0, i + 1)));
        }
        i = i + 1;
    }
    proof {
        assert(s@.subrange(0, n as int) =~= s@);
    }
}

/// Appends a whole JSON string holding the characters of `s` to `out`.
pub fn push_json_string(out: &mut Vec<char>, s: &str)
    ensures
        final(out)@ == old(out)@ + spec_json_string(s@),
{
    out.push('"');
    push_escaped(out, s);
    out.push('"');
    proof {
        assert(out@ =~= old(out)@ + spec_json_string(s@));
    }
}

// ---------------------------------------------------------------------------
// Token shapes
// ---------------------------------------------------------------------------

/// The characters a JSON number token is made of.
pub open spec fn is_num_char(c: char) -> bool {
    ('0' <= c && c <= '9') || c == '-' || c == '+' || c == '.' || c == 'e' || c == 'E'
}

/// A non-empty run of number characters: the shape a numeric field is carried
/// through the relay in, never interpreted as a quantity.
pub open spec fn is_number_token(s: Seq<char>) -> bool {
    s.len() > 0 && forall|i: int| 0 <= i < s.len() ==> is_num_char(#[trigger] s[i])
}

/// Whether `c` may appear in a number token.
pub fn num_char(c: char) -> (b: bool)
    ensures
        b == is_num_char(c),
{
    ('0' <= c && c <= '9') || c == '-' || c == '+' || c == '.' || c == 'e' || c == 'E'
}

/// Whether `s` has the shape of a number token.
pub fn is_number_str(s: &str) -> (b: bool)
    ensures
        b == is_number_token(s@),
{
    let n: usize = s.unicode_len();
    if n == 0 {
        return false;
    }
    let mut i: usize = 0;
    while i < n
        invariant
            n == s@.len(),
            i <= n,
            forall|k: int| 0 <= k < i ==> is_num_char(#[trigger] s@[k]),
        decreases n - i,
    {
        if !num_char(s.get_char(i)) {
            return false;
        }
        i = i + 1;
    }
    true
}

/// A JSON insignificant whitespace character.
pub open spec fn is_ws_char(c: char) -> bool {
    c == ' ' || c == '\n' || c == '\r' || c == '\t'
}

/// The suffix after the run of insignificant whitespace.
pub open spec fn spec_ws(s: Seq<char>) -> Seq<char>
    decreases s.len(),
{
    if s.len() > 0 && is_ws_char(s[0]) {
        spec_ws(s.subrange(1, s.len() as int))
    } else {
        s
    }
}

/// Skipping whitespace leaves a text that starts with none unchanged.
pub proof fn lemma_ws_none(s: Seq<char>)
    requires
        s.len() == 0 || !is_ws_char(s[0]),
    ensures
        spec_ws(s) == s,
{
}

/// Consumes the run of insignificant whitespace at the front of `s`.
pub fn skip_ws<'a>(s: &'a [char]) -> (r: &'a [char])
    ensures
        r@ == spec_ws(s@),
        r@.len() <= s@.len(),
{
    let n: usize = s.len();
    let mut i: usize = 0;
    proof {
        assert(s@.subrange(0, n as int) =~= s@);
    }
    while i < n
        invariant
            n == s@.len(),
            i <= n,
            spec_ws(s@) == spec_ws(s@.subrange(i as int, n as int)),
        decreases n - i,
    {
        let ghost cur = s@.subrange(i as int, n as int);
        let c = *slice_index_get(s, i);
        proof {
            assert(cur[0] == c);
        }
        if !(c == ' ' || c == '\n' || c == '\r' || c == '\t') {
            return slice_subrange(s, i, n);
        }
        proof {
            assert(cur.subrange(1, cur.len() as int) =~= s@.subrange(i + 1, n as int));
        }
        i = i + 1;
    }
    proof {
        assert(s@.subrange(i as int, n as int).len() == 0);
    }
    slice_subrange(s, n, n)
}

// ---------------------------------------------------------------------------
// Parsers: specification side
// ---------------------------------------------------------------------------

/// Consumes `lit` from the front of `s`; the remaining suffix on success.
pub open spec fn spec_lit(s: Seq<char>, lit: Seq<char>) -> Option<Seq<char>> {
    if lit.len() <= s.len() && s.subrange(0, lit.len() as int) == lit {
        Some(s.subrange(lit.len() as int, s.len() as int))
    } else {
        None
    }
}

/// The character an escape introducer is followed by, mapped back.
pub open spec fn unescape_char(c: char) -> Option<char> {
    if c == '"' {
        Some('"')
    } else if c == '\\' {
        Some('\\')
    } else if c == '/' {
        Some('/')
    } else if c == 'n' {
        Some('\n')
    } else if c == 't' {
        Some('\t')
    } else if c == 'r' {
        Some('\r')
    } else if c == 'b' {
        Some('\u{0008}')
    } else if c == 'f' {
        Some('\u{000C}')
    } else {
        None
    }
}

/// Consumes the rest of a JSON string body up to its closing quote.
pub open spec fn spec_string_body(s: Seq<char>) -> Option<(Seq<char>, Seq<char>)>
    decreases s.len(), 1int,
{
    if s.len() == 0 {
        None
    } else if s[0] == '"' {
        Some((Seq::<char>::empty(), s.subrange(1, s.len() as int)))
    } else if s[0] == '\\' {
        if s.len() >= 2 && s[1] == 'u' {
            spec_string_body_hex(s)
        } else if s.len() >= 2 {
            match unescape_char(s[1]) {
                Some(c) => match spec_string_body(s.subrange(2, s.len() as int)) {
                    Some((t, r)) => Some((seq![c] + t, r)),
                    None => None,
                },
                None => None,
            }
        } else {
            None
        }
    } else {
        match spec_string_body(s.subrange(1, s.len() as int)) {
            Some((t, r)) => Some((seq![s[0]] + t, r)),
            None => None,
        }
    }
}

/// Consumes the rest of a string body that starts with a `\uXXXX` escape:
/// a basic-plane code point stands alone, an astral one as a surrogate
/// pair; a lone surrogate is refused.
pub open spec fn spec_string_body_hex(s: Seq<char>) -> Option<(Seq<char>, Seq<char>)>
    recommends
        s.len() >= 2,
        s[0] == '\\',
        s[1] == 'u',
    decreases s.len(), 0int,
{
    if s.len() < 6 {
        None
    } else {
        match hex4(s.subrange(2, 6)) {
            Some(code) => if 0xD800 <= code && code < 0xDC00 {
                if s.len() >= 12 && s[6] == '\\' && s[7] == 'u' {
                    match hex4(s.subrange(8, 12)) {
                        Some(code2) => if 0xDC00 <= code2 && code2 < 0xE000 {
                            let ch = (0x10000 + (code - 0xD800) * 0x400 + (code2 - 0xDC00)) as char;
                            match spec_string_body(s.subrange(12, s.len() as int)) {
                                Some((t, r)) => Some((seq![ch] + t, r)),
                                None => None,
                            }
                        } else {
                            None
                        },
                        None => None,
                    }
                } else {
                    None
                }
            } else if 0xDC00 <= code && code < 0xE000 {
                None
            } else {
                let ch = code as char;
                match spec_string_body(s.subrange(6, s.len() as int)) {
                    Some((t, r)) => Some((seq![ch] + t, r)),
                    None => None,
                }
            },
            None => None,
        }
    }
}

/// Consumes a whole JSON string from the front of `s`.
pub open spec fn spec_string(s: Seq<char>) -> Option<(Seq<char>, Seq<char>)> {
    if s.len() > 0 && s[0] == '"' {
        spec_string_body(s.subrange(1, s.len() as int))
    } else {
        None
    }
}

/// Consumes the maximal run of number characters from the front of `s`.
pub open spec fn spec_num_run(s: Seq<char>) -> (Seq<char>, Seq<char>)
    decreases s.len(),
{
    if s.len() > 0 && is_num_char(s[0]) {
        let (t, r) = spec_num_run(s.subrange(1, s.len() as int));
        (seq![s[0]] + t, r)
    } else {
        (Seq::<char>::empty(), s)
    }
}

/// Consumes a non-empty number token from the front of `s`.
pub open spec fn spec_number(s: Seq<char>) -> Option<(Seq<char>, Seq<char>)> {
    if s.len() > 0 && is_num_char(s[0]) {
        Some(spec_num_run(s))
    } else {
        None
    }
}

/// Consumes either the literal `null` or a JSON string: the two shapes an
/// optional string-valued field takes.
pub open spec fn spec_str_or_null(s: Seq<char>) -> Option<(Option<Seq<char>>, Seq<char>)> {
    match spec_lit(s, "null"@) {
        Some(r) => Some((None, r)),
        None => match spec_string(s) {
            Some((t, r)) => Some((Some(t), r)),
            None => None,
        },
    }
}

/// Consumes the colon between a member's key and value, with the
/// whitespace around it.
pub open spec fn spec_colon(s: Seq<char>) -> Option<Seq<char>> {
    let r = spec_ws(s);
    match spec_lit(r, ":"@) {
        Some(r1) => Some(spec_ws(r1)),
        None => None,
    }
}

/// Consumes any JSON value, for dropping a member the relay does not map.
pub open spec fn spec_skip_value(s: Seq<char>) -> Option<Seq<char>>
    decreases s.len(), 0int,
{
    if s.len() == 0 {
        None
    } else if s[0] == '{' {
        let r = spec_ws(s.subrange(1, s.len() as int));
        if r.len() < s.len() {
            spec_skip_members(r)
        } else {
            None
        }
    } else if s[0] == '[' {
        let r = spec_ws(s.subrange(1, s.len() as int));
        if r.len() < s.len() {
            spec_skip_elements(r)
        } else {
            None
        }
    } else if s[0] == '"' {
        match spec_string(s) {
            Some((t, r)) => Some(r),
            None => None,
        }
    } else {
        match spec_lit(s, "null"@) {
            Some(r) => Some(r),
            None => match spec_lit(s, "true"@) {
                Some(r) => Some(r),
                None => match spec_lit(s, "false"@) {
                    Some(r) => Some(r),
                    None => match spec_number(s) {
                        Some((t, r)) => Some(r),
                        None => None,
                    },
                },
            },
        }
    }
}

/// Consumes the members of an object being dropped, the closing brace
/// included; positioned at a key or the closing brace.
pub open spec fn spec_skip_members(s: Seq<char>) -> Option<Seq<char>>
    decreases s.len(), 1int,
{
    match spec_lit(s, "}"@) {
        Some(r) => Some(r),
        None => match spec_string(s) {
            Some((k, r1)) => {
                let r2 = spec_ws(r1);
                match spec_lit(r2, ":"@) {
                    Some(r3) => {
                        let r4 = spec_ws(r3);
                        if r4.len() < s.len() {
                            match spec_skip_value(r4) {
                                Some(r5) => {
                                    let r6 = spec_ws(r5);
                                    match spec_lit(r6, ","@) {
                                        Some(r7) => {
                                            let r8 = spec_ws(r7);
                                            if r8.len() < s.len() {
                                                spec_skip_members(r8)
                                            } else {
                                                None
                                            }
                                        },
                                        None => match spec_lit(r6, "}"@) {
                                            Some(r7) => Some(r7),
                                            None => None,
                                        },
                                    }
                                },
                                None => None,
                            }
                        } else {
                            None
                        }
                    },
                    None => None,
                }
            },
            None => None,
        },
    }
}

/// Consumes the elements of an array being dropped, the closing bracket
/// included; positioned at a value or the closing bracket.
pub open spec fn spec_skip_elements(s: Seq<char>) -> Option<Seq<char>>
    decreases s.len(), 1int,
{
    match spec_lit(s, "]"@) {
        Some(r) => Some(r),
        None => match spec_skip_value(s) {
            Some(r1) => {
                let r2 = spec_ws(r1);
                match spec_lit(r2, ","@) {
                    Some(r3) => {
                        let r4 = spec_ws(r3);
                        if r4.len() < s.len() {
                            spec_skip_elements(r4)
                        } else {
                            None
                        }
                    },
                    None => match spec_lit(r2, "]"@) {
                        Some(r3) => Some(r3),
                        None => None,
                    },
                }
            },
            None => None,
        },
    }
}

// ---------------------------------------------------------------------------
// Parsers: executable side
// ---------------------------------------------------------------------------

/// Consumes `lit` from the front of `s`.
pub fn parse_lit<'a>(s: &'a [char], lit: &str) -> (r: Option<&'a [char]>)
    ensures
        match r {
            Some(rest) => spec_lit(s@, lit@) == Some(rest@),
            None => spec_lit(s@, lit@) is None,
        },
{
    let m: usize = lit.unicode_len();
    let n: usize = s.len();
    if m > n {
        return None;
    }
    let mut j: usize = 0;
    while j < m
        invariant
            m == lit@.len(),
            n == s@.len(),
            m <= n,
            j <= m,
            forall|k: int| 0 <= k < j ==> s@[k] == lit@[k],
        decreases m - j,
    {
        if *slice_index_get(s, j) != lit.get_char(j) {
            proof {
                if spec_lit(s@, lit@) is Some {
                    assert(s@.subrange(0, m as int)[j as int] == lit@[j as int]);
                }
            }
            return None;
        }
        j = j + 1;
    }
    proof {
        assert(s@.subrange(0, m as int) =~= lit@);
    }
    Some(slice_subrange(s, m, n))
}

/// Maps an escape introducer back to the character it stands for.
fn unescape_char_exec(c: char) -> (r: Option<char>)
    ensures
        r == unescape_char(c),
{
    if c == '"' {
        Some('"')
    } else if c == '\\' {
        Some('\\')
    } else if c == '/' {
        Some('/')
    } else if c == 'n' {
        Some('\n')
    } else if c == 't' {
        Some('\t')
    } else if c == 'r' {
        Some('\r')
    } else if c == 'b' {
        Some('\u{0008}')
    } else if c == 'f' {
        Some('\u{000C}')
    } else {
        None
    }
}

/// The value of a hex digit, either case.
fn hex_val_exec(c: char) -> (r: Option<u32>)
    ensures
        match r {
            Some(v) => hex_val(c) == Some(v as int) && v < 16,
            None => hex_val(c) is None,
        },
{
    if '0' <= c && c <= '9' {
        Some(c as u32 - '0' as u32)
    } else if 'a' <= c && c <= 'f' {
        Some(c as u32 - 'a' as u32 + 10)
    } else if 'A' <= c && c <= 'F' {
        Some(c as u32 - 'A' as u32 + 10)
    } else {
        None
    }
}

/// The value of the four hex digits at `i`.
fn hex4_exec(s: &[char], i: usize) -> (r: Option<u32>)
    requires
        i + 4 <= s@.len(),
    ensures
        match r {
            Some(v) => hex4(s@.subrange(i as int, i + 4)) == Some(v as int) && v < 0x10000,
            None => hex4(s@.subrange(i as int, i + 4)) is None,
        },
{
    let n: usize = s.len();
    proof {
        assert(n == s@.len());
        assert(s@.subrange(i as int, i + 4)[0] == s@[i as int]);
        assert(s@.subrange(i as int, i + 4)[1] == s@[i + 1]);
        assert(s@.subrange(i as int, i + 4)[2] == s@[i + 2]);
        assert(s@.subrange(i as int, i + 4)[3] == s@[i + 3]);
    }
    let a = match hex_val_exec(*slice_index_get(s, i)) {
        Some(v) => v,
        None => {
            return None;
        },
    };
    let b = match hex_val_exec(*slice_index_get(s, i + 1)) {
        Some(v) => v,
        None => {
            return None;
        },
    };
    let c = match hex_val_exec(*slice_index_get(s, i + 2)) {
        Some(v) => v,
        None => {
            return None;
        },
    };
    let d = match hex_val_exec(*slice_index_get(s, i + 3)) {
        Some(v) => v,
        None => {
            return None;
        },
    };
    Some(a * 4096 + b * 256 + c * 16 + d)
}

/// Relies on `char::from_u32`: `Some` exactly for a valid code point — not
/// a surrogate and at most 0x10FFFF — and the returned character has that
/// code point.
#[verifier::external_body]
fn char_from_code(code: u32) -> (r: Option<char>)
    ensures
        r matches Some(c) ==> c as u32 == code,
        (code < 0xD800 || (0xE000 <= code && code <= 0x10FFFF)) ==> r is Some,
{
    char::from_u32(code)
}

/// Consumes a whole JSON string from the front of `s`.
pub fn parse_string<'a>(s: &'a [char]) -> (r: Option<(Vec<char>, &'a [char])>)
    ensures
        match r {
            Some((t, rest)) => spec_string(s@) == Some((t@, rest@)),
            None => spec_string(s@) is None,
        },
{
    let n: usize = s.len();
    if n == 0 {
        return None;
    }
    if *slice_index_get(s, 0) != '"' {
        return None;
    }
    let mut i: usize = 1;
    let mut acc: Vec<char> = Vec::new();
    proof {
        match spec_string_body(s@.subrange(1, n as int)) {
            Some((t, r)) => {
                assert(acc@ + t =~= t);
            },
            None => {},
        }
    }
    while i < n
        invariant
            n == s@.len(),
            n > 0,
            s@[0] == '"',
            1 <= i <= n,
            spec_string_body(s@.subrange(1, n as int)) == (match spec_string_body(
                s@.subrange(i as int, n as int),
            ) {
                Some((t, r)) => Some((acc@ + t, r)),
                None => None::<(Seq<char>, Seq<char>)>,
            }),
        decreases n - i,
    {
        let ghost cur = s@.subrange(i as int, n as int);
        let c = *slice_index_get(s, i);
        proof {
            assert(cur[0] == c);
        }
        if c == '"' {
            proof {
                assert(cur.subrange(1, cur.len() as int) =~= s@.subrange(i + 1, n as int));
                assert(acc@ + Seq::<char>::empty() =~= acc@);
            }
            let rest = slice_subrange(s, i + 1, n);
            return Some((acc, rest));
        } else if c == '\\' {
            if i + 1 >= n {
                proof {
                    assert(cur.len() < 2);
                }
                return None;
            }
            let d = *slice_index_get(s, i + 1);
            proof {
                assert(cur[1] == d);
            }
            if d == 'u' {
                proof {
                    assert(spec_string_body(cur) == spec_string_body_hex(cur));
                }
                if n - i < 6 {
                    proof {
                        assert(cur.len() < 6);
                    }
                    return None;
                }
                proof {
                    assert(cur.subrange(2, 6) =~= s@.subrange(i + 2, i + 6));
                }
                let code = match hex4_exec(s, i + 2) {
                    Some(v) => v,
                    None => {
                        return None;
                    },
                };
                if 0xD800 <= code && code < 0xDC00 {
                    let pair_heads = n - i >= 12 && *slice_index_get(s, i + 6) == '\\'
                        && *slice_index_get(s, i + 7) == 'u';
                    proof {
                        if n - i >= 12 {
                            assert(cur[6] == s@[i + 6]);
                            assert(cur[7] == s@[i + 7]);
                        } else {
                            assert(cur.len() < 12);
                        }
                    }
                    if !pair_heads {
                        return None;
                    }
                    proof {
                        assert(cur.subrange(8, 12) =~= s@.subrange(i + 8, i + 12));
                    }
                    let code2 = match hex4_exec(s, i + 8) {
                        Some(v) => v,
                        None => {
                            return None;
                        },
                    };
                    if !(0xDC00 <= code2 && code2 < 0xE000) {
                        return None;
                    }
                    let full: u32 = 0x10000 + (code - 0xD800) * 0x400 + (code2 - 0xDC00);
                    let ch = match char_from_code(full) {
                        Some(ch) => ch,
                        None => {
                            proof {
                                assert(false);
                            }
                            return None;
                        },
                    };
                    let ghost pre = acc@;
                    acc.push(ch);
                    proof {
                        assert(0x10000 <= full <= 0x10FFFF);
                        lemma_char_code(ch);
                        assert(full as char == ch);
                        assert(cur.subrange(12, cur.len() as int) =~= s@.subrange(
                            i + 12,
                            n as int,
                        ));
                        match spec_string_body(s@.subrange(i + 12, n as int)) {
                            Some((t, r)) => {
                                assert(pre + (seq![ch] + t) =~= acc@ + t);
                            },
                            None => {},
                        }
                    }
                    i = i + 12;
                    continue;
                }
                if 0xDC00 <= code && code < 0xE000 {
                    return None;
                }
                let ch = match char_from_code(code) {
                    Some(ch) => ch,
                    None => {
                        proof {
                            assert(false);
                        }
                        return None;
                    },
                };
                let ghost pre = acc@;
                acc.push(ch);
                proof {
                    lemma_char_code(ch);
                    assert(code as char == ch);
                    assert(cur.subrange(6, cur.len() as int) =~= s@.subrange(i + 6, n as int));
                    match spec_string_body(s@.subrange(i + 6, n as int)) {
                        Some((t, r)) => {
                            assert(pre + (seq![ch] + t) =~= acc@ + t);
                        },
                        None => {},
                    }
                }
                i = i + 6;
                continue;
            }
            match unescape_char_exec(d) {
                Some(u) => {
                    let ghost pre = acc@;
                    acc.push(u);
                    proof {
                        assert(cur.subrange(2, cur.len() as int) =~= s@.subrange(i + 2, n as int));
                        match spec_string_body(s@.subrange(i + 2, n as int)) {
                            Some((t, r)) => {
                                assert(pre + (seq![u] + t) =~= acc@ + t);
                            },
                            None => {},
                        }
                    }
                    i = i + 2;
                },
                None => {
                    return None;
                },
            }
        } else {
            let ghost pre = acc@;
            acc.push(c);
            proof {
                assert(cur.subrange(1, cur.len() as int) =~= s@.subrange(i + 1, n as int));
                match spec_string_body(s@.subrange(i + 1, n as int)) {
                    Some((t, r)) => {
                        assert(pre + (seq![c] + t) =~= acc@ + t);
                    },
                    None => {},
                }
            }
            i = i + 1;
        }
    }
    proof {
        assert(s@.subrange(i as int, n as int).len() == 0);
    }
    None
}

/// Consumes a non-empty number token from the front of `s`.
pub fn parse_number<'a>(s: &'a [char]) -> (r: Option<(Vec<char>, &'a [char])>)
    ensures
        match r {
            Some((t, rest)) => spec_number(s@) == Some((t@, rest@)),
            None => spec_number(s@) is None,
        },
{
    let n: usize = s.len();
    if n == 0 {
        return None;
    }
    if !num_char(*slice_index_get(s, 0)) {
        return None;
    }
    let mut i: usize = 0;
    let mut acc: Vec<char> = Vec::new();
    proof {
        assert(s@.subrange(0, n as int) =~= s@);
        assert(acc@ + spec_num_run(s@).0 =~= spec_num_run(s@).0);
    }
    while i < n
        invariant
            n == s@.len(),
            n > 0,
            is_num_char(s@[0]),
            i <= n,
            spec_num_run(s@).0 == acc@ + spec_num_run(s@.subrange(i as int, n as int)).0,
            spec_num_run(s@).1 == spec_num_run(s@.subrange(i as int, n as int)).1,
        decreases n - i,
    {
        let ghost cur = s@.subrange(i as int, n as int);
        let c = *slice_index_get(s, i);
        proof {
            assert(cur[0] == c);
        }
        if !num_char(c) {
            proof {
                assert(spec_num_run(cur).0 =~= Seq::<char>::empty());
                assert(acc@ + Seq::<char>::empty() =~= acc@);
                assert(spec_num_run(s@).0 =~= acc@);
                assert(spec_num_run(s@).1 =~= cur);
                assert(spec_number(s@) == Some((acc@, cur)));
            }
            let rest = slice_subrange(s, i, n);
            return Some((acc, rest));
        }
        let ghost pre = acc@;
        acc.push(c);
        proof {
            assert(cur.subrange(1, cur.len() as int) =~= s@.subrange(i + 1, n as int));
            let t = spec_num_run(s@.subrange(i + 1, n as int)).0;
            assert(spec_num_run(cur).0 =~= seq![c] + t);
            assert(pre + (seq![c] + t) =~= acc@ + t);
        }
        i = i + 1;
    }
    proof {
        let cur = s@.subrange(i as int, n as int);
        assert(cur.len() == 0);
        assert(spec_num_run(cur).0 =~= Seq::<char>::empty());
        assert(acc@ + Seq::<char>::empty() =~= acc@);
        assert(spec_num_run(s@).0 =~= acc@);
        assert(spec_num_run(s@).1 =~= cur);
        assert(spec_number(s@) == Some((acc@, cur)));
    }
    let rest = slice_subrange(s, n, n);
    Some((acc, rest))
}

/// Consumes `null` or a JSON string from the front of `s`.
pub fn parse_str_or_null<'a>(s: &'a [char]) -> (r: Option<(Option<Vec<char>>, &'a [char])>)
    ensures
        match r {
            Some((t, rest)) => spec_str_or_null(s@) matches Some((tt, rr)) && rr == rest@ && (match t {
                Some(v) => tt == Some(v@),
                None => tt is None,
            }),
            None => spec_str_or_null(s@) is None,
        },
{
    match parse_lit(s, "null") {
        Some(rest) => Some((None, rest)),
        None => match parse_string(s) {
            Some((t, rest)) => Some((Some(t), rest)),
            None => None,
        },
    }
}

/// Consumes the colon between a member's key and value, with the
/// whitespace around it.
pub fn parse_colon<'a>(s: &'a [char]) -> (r: Option<&'a [char]>)
    ensures
        match r {
            Some(rest) => spec_colon(s@) == Some(rest@),
            None => spec_colon(s@) is None,
        },
{
    let r1 = skip_ws(s);
    match parse_lit(r1, ":") {
        Some(r2) => Some(skip_ws(r2)),
        None => None,
    }
}

/// Consumes any JSON value, for dropping a member the relay does not map.
pub fn parse_skip_value<'a>(s: &'a [char]) -> (r: Option<&'a [char]>)
    ensures
        match r {
            Some(rest) => spec_skip_value(s@) == Some(rest@),
            None => spec_skip_value(s@) is None,
        },
    decreases s@.len(), 0int,
{
    let n: usize = s.len();
    if n == 0 {
        return None;
    }
    let c = *slice_index_get(s, 0);
    if c == '{' {
        let r = skip_ws(slice_subrange(s, 1, n));
        if r.len() < s.len() {
            parse_skip_members(r)
        } else {
            None
        }
    } else if c == '[' {
        let r = skip_ws(slice_subrange(s, 1, n));
        if r.len() < s.len() {
            parse_skip_elements(r)
        } else {
            None
        }
    } else if c == '"' {
        match parse_string(s) {
            Some((_t, r)) => Some(r),
            None => None,
        }
    } else {
        match parse_lit(s, "null") {
            Some(r) => Some(r),
            None => match parse_lit(s, "true") {
                Some(r) => Some(r),
                None => match parse_lit(s, "false") {
                    Some(r) => Some(r),
                    None => match parse_number(s) {
                        Some((_t, r)) => Some(r),
                        None => None,
                    },
                },
            },
        }
    }
}

/// Consumes the members of an object being dropped.
fn parse_skip_members<'a>(s: &'a [char]) -> (r: Option<&'a [char]>)
    ensures
        match r {
            Some(rest) => spec_skip_members(s@) == Some(rest@),
            None => spec_skip_members(s@) is None,
        },
    decreases s@.len(), 1int,
{
    match parse_lit(s, "}") {
        Some(r) => Some(r),
        None => {
            let (_k, r1) = match parse_string(s) {
                Some(p) => p,
                None => {
                    return None;
                },
            };
            let r2 = skip_ws(r1);
            let r3 = match parse_lit(r2, ":") {
                Some(r) => r,
                None => {
                    return None;
                },
            };
            let r4 = skip_ws(r3);
            if !(r4.len() < s.len()) {
                return None;
            }
            let r5 = match parse_skip_value(r4) {
                Some(r) => r,
                None => {
                    return None;
                },
            };
            let r6 = skip_ws(r5);
            match parse_lit(r6, ",") {
                Some(r7) => {
                    let r8 = skip_ws(r7);
                    if r8.len() < s.len() {
                        parse_skip_members(r8)
                    } else {
                        None
                    }
                },
                None => match parse_lit(r6, "}") {
                    Some(r7) => Some(r7),
                    None => None,
                },
            }
        },
    }
}

/// Consumes the elements of an array being dropped.
fn parse_skip_elements<'a>(s: &'a [char]) -> (r: Option<&'a [char]>)
    ensures
        match r {
            Some(rest) => spec_skip_elements(s@) == Some(rest@),
            None => spec_skip_elements(s@) is None,
        },
    decreases s@.len(), 1int,
{
    match parse_lit(s, "]") {
        Some(r) => Some(r),
        None => {
            let r1 = match parse_skip_value(s) {
                Some(r) => r,
                None => {
                    return None;
                },
            };
            let r2 = skip_ws(r1);
            match parse_lit(r2, ",") {
                Some(r3) => {
                    let r4 = skip_ws(r3);
                    if r4.len() < s.len() {
                        parse_skip_elements(r4)
                    } else {
                        None
                    }
                },
                None => match parse_lit(r2, "]") {
                    Some(r3) => Some(r3),
                    None => None,
                },
            }
        },
    }
}

// ---------------------------------------------------------------------------
// Round-trip lemmas: each parser consumes exactly what was rendered
// ---------------------------------------------------------------------------

/// A literal placed at the front of a text is consumed as itself.
pub proof fn lemma_lit_eats(lit: Seq<char>, rest: Seq<char>)
    ensures
        spec_lit(lit + rest, lit) == Some(rest),
{
    let s = lit + rest;
    assert(s.subrange(0, lit.len() as int) =~= lit);
    assert(s.subrange(lit.len() as int, s.len() as int) =~= rest);
}

/// A literal cannot be consumed where the text differs from it.
pub proof fn lemma_lit_miss(s: Seq<char>, lit: Seq<char>, k: int)
    requires
        0 <= k < lit.len(),
        k < s.len(),
        s[k] != lit[k],
    ensures
        spec_lit(s, lit) is None,
{
    if spec_lit(s, lit) is Some {
        assert(s.subrange(0, lit.len() as int)[k] == lit[k]);
    }
}

/// A rendered string body followed by its closing quote parses back to the
/// original characters, leaving exactly the rest.
#[verifier::rlimit(80)]
pub proof fn lemma_string_body_eats(x: Seq<char>, rest: Seq<char>)
    ensures
        spec_string_body(spec_escape(x) + seq!['"'] + rest) == Some((x, rest)),
    decreases x.len(),
{
    let s = spec_escape(x) + seq!['"'] + rest;
    if x.len() == 0 {
        assert(s[0] == '"');
        assert(s.subrange(1, s.len() as int) =~= rest);
        assert(spec_string_body(s) == Some((Seq::<char>::empty(), rest)));
        assert(Seq::<char>::empty() =~= x);
    } else {
        let c = x[0];
        let t = x.subrange(1, x.len() as int);
        assert(x =~= seq![c] + t);
        lemma_escape_app(seq![c], t);
        lemma_escape_single(c);
        assert(s =~= escape_char(c) + (spec_escape(t) + seq!['"'] + rest));
        lemma_string_body_eats(t, rest);
        let inner = spec_escape(t) + seq!['"'] + rest;
        if c == '"' {
            assert(s[0] == '\\');
            assert(s[1] == '"');
            assert(s.subrange(2, s.len() as int) =~= inner);
            assert(spec_string_body(s) == Some((seq!['"'] + t, rest)));
            assert(seq!['"'] + t =~= x);
        } else if c == '\\' {
            assert(s[0] == '\\');
            assert(s[1] == '\\');
            assert(s.subrange(2, s.len() as int) =~= inner);
            assert(spec_string_body(s) == Some((seq!['\\'] + t, rest)));
            assert(seq!['\\'] + t =~= x);
        } else if c == '\n' || c == '\t' || c == '\r' || c == '\u{0008}' || c == '\u{000C}' {
            assert(s[0] == '\\');
            assert(s[1] != 'u');
            assert(unescape_char(s[1]) == Some(c));
            assert(s.subrange(2, s.len() as int) =~= inner);
            assert(spec_string_body(s) == Some((seq![c] + t, rest)));
            assert(seq![c] + t =~= x);
        } else if (c as u32) < 0x20 {
            let cu = (c as u32) as int;
            let hi = cu / 16;
            let lo = cu % 16;
            assert(0 <= cu < 0x20);
            assert(s[0] == '\\');
            assert(s[1] == 'u');
            assert(s[2] == '0');
            assert(s[3] == '0');
            assert(s[4] == hex_digit(hi));
            assert(s[5] == hex_digit(lo));
            assert(s.subrange(2, 6) =~= seq!['0', '0', hex_digit(hi), hex_digit(lo)]);
            lemma_hex_digit_val(hi);
            lemma_hex_digit_val(lo);
            assert(hex_val('0') == Some(0int));
            let code = 0 * 4096 + 0 * 256 + hi * 16 + lo;
            assert(hex4(s.subrange(2, 6)) == Some(code));
            assert(code == cu);
            assert(code < 0x20);
            lemma_char_code(c);
            assert((c as u32) as char == c);
            assert(code as char == c);
            assert(s.subrange(6, s.len() as int) =~= inner);
            assert(spec_string_body_hex(s) == Some((seq![c] + t, rest)));
            assert(spec_string_body(s) == Some((seq![c] + t, rest)));
            assert(seq![c] + t =~= x);
        } else {
            assert(s[0] == c);
            assert(s.subrange(1, s.len() as int) =~= inner);
            assert(spec_string_body(s) == Some((seq![c] + t, rest)));
            assert(seq![c] + t =~= x);
        }
    }
}

/// A rendered JSON string parses back to the original characters.
pub proof fn lemma_string_eats(x: Seq<char>, rest: Seq<char>)
    ensures
        spec_string(spec_json_string(x) + rest) == Some((x, rest)),
{
    let s = spec_json_string(x) + rest;
    assert(s[0] == '"');
    assert(s.subrange(1, s.len() as int) =~= spec_escape(x) + seq!['"'] + rest);
    lemma_string_body_eats(x, rest);
}

/// A number token followed by a non-number character parses back whole.
pub proof fn lemma_number_eats(tok: Seq<char>, rest: Seq<char>)
    requires
        is_number_token(tok),
        rest.len() > 0,
        !is_num_char(rest[0]),
    ensures
        spec_number(tok + rest) == Some((tok, rest)),
{
    lemma_num_run_eats(tok, rest);
    assert((tok + rest)[0] == tok[0]);
}

proof fn lemma_num_run_eats(tok: Seq<char>, rest: Seq<char>)
    requires
        forall|i: int| 0 <= i < tok.len() ==> is_num_char(#[trigger] tok[i]),
        rest.len() > 0,
        !is_num_char(rest[0]),
    ensures
        spec_num_run(tok + rest) == (tok, rest),
    decreases tok.len(),
{
    let s = tok + rest;
    if tok.len() == 0 {
        assert(s =~= rest);
        assert(spec_num_run(s) == (Seq::<char>::empty(), s));
        assert(Seq::<char>::empty() =~= tok);
    } else {
        let t = tok.subrange(1, tok.len() as int);
        assert(s[0] == tok[0]);
        assert(s.subrange(1, s.len() as int) =~= t + rest);
        lemma_num_run_eats(t, rest);
        assert(seq![tok[0]] + t =~= tok);
    }
}

/// A bare colon before a value is consumed as itself.
pub proof fn lemma_colon_eats(rest: Seq<char>)
    requires
        rest.len() > 0,
        !is_ws_char(rest[0]),
    ensures
        spec_colon(":"@ + rest) == Some(rest),
{
    reveal_strlit(":");
    let s = ":"@ + rest;
    assert(s[0] == ':');
    lemma_ws_none(s);
    lemma_lit_eats(":"@, rest);
    lemma_ws_none(rest);
}

/// A rendered JSON string is never consumed as the literal `null`.
pub proof fn lemma_json_string_not_null(x: Seq<char>, rest: Seq<char>)
    ensures
        spec_lit(spec_json_string(x) + rest, "null"@) is None,
{
    reveal_strlit("null");
    let s = spec_json_string(x) + rest;
    assert(s[0] == '"');
    lemma_lit_miss(s, "null"@, 0);
}

} // verus!
