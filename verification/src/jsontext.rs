//! A small JSON text codec for the persisted records.
//!
//! The settings and credential records are flat JSON objects of booleans,
//! unsigned integers and strings. The writer emits the pretty-printed form;
//! the reader accepts what the writer emits, with arbitrary whitespace
//! between tokens. Reading back what was written returns the record
//! unchanged, which is proved once and for all over these primitives.

use vstd::prelude::*;
use vstd::string::StrSliceExecFns;

verus! {

/// JSON whitespace between tokens.
pub open spec fn is_json_ws(c: char) -> bool {
    c == ' ' || c == '\t' || c == '\n' || c == '\r'
}

/// A decimal digit.
pub open spec fn is_digit(c: char) -> bool {
    '0' <= c && c <= '9'
}

/// The value of a decimal digit character.
pub open spec fn digit_val(c: char) -> int {
    (c as int) - 48
}

/// The character for a decimal digit value (0 to 9).
pub open spec fn digit_char(d: int) -> char {
    ((d + 48) as u8) as char
}

/// The value of a hexadecimal digit character, or -1 for any other.
pub open spec fn hex_val(c: char) -> int {
    if '0' <= c && c <= '9' {
        (c as int) - 48
    } else if 'a' <= c && c <= 'f' {
        (c as int) - 87
    } else if 'A' <= c && c <= 'F' {
        (c as int) - 55
    } else {
        -1
    }
}

/// Whether the character is a hexadecimal digit.
pub open spec fn is_hex(c: char) -> bool {
    hex_val(c) >= 0
}

/// The lowercase character for a hexadecimal digit value (0 to 15).
pub open spec fn hex_char(d: int) -> char {
    if d < 10 {
        ((d + 48) as u8) as char
    } else {
        ((d + 87) as u8) as char
    }
}

/// The first position at or after `i` holding no whitespace.
pub open spec fn skip_ws(s: Seq<char>, i: int) -> int
    decreases s.len() - i,
    when 0 <= i <= s.len()
{
    if i < s.len() && is_json_ws(s[i]) {
        skip_ws(s, i + 1)
    } else {
        i
    }
}

/// The position after one expected character.
pub open spec fn expect_char(s: Seq<char>, i: int, c: char) -> Option<int> {
    if 0 <= i < s.len() && s[i] == c {
        Some(i + 1)
    } else {
        None
    }
}

/// The position after an expected literal.
pub open spec fn expect_lit(s: Seq<char>, i: int, lit: Seq<char>) -> Option<int> {
    if 0 <= i && i + lit.len() <= s.len() && s.subrange(i, i + lit.len()) == lit {
        Some(i + lit.len())
    } else {
        None
    }
}

/// The rendering of a boolean.
pub open spec fn render_bool(b: bool) -> Seq<char> {
    if b {
        "true"@
    } else {
        "false"@
    }
}

/// Parse a boolean literal.
pub open spec fn parse_bool(s: Seq<char>, i: int) -> Option<(bool, int)> {
    match expect_lit(s, i, "true"@) {
        Some(j) => Some((true, j)),
        None => match expect_lit(s, i, "false"@) {
            Some(j) => Some((false, j)),
            None => None,
        },
    }
}

fn is_ws_exec(c: char) -> (r: bool)
    ensures
        r == is_json_ws(c),
{
    c == ' ' || c == '\t' || c == '\n' || c == '\r'
}

/// Advance past whitespace.
pub fn p_skip_ws(v: &Vec<char>, i: usize) -> (r: usize)
    requires
        i <= v@.len(),
    ensures
        r as int == skip_ws(v@, i as int),
        i <= r <= v@.len(),
    decreases v@.len() - i,
{
    if i < v.len() {
        let c = v[i];
        if is_ws_exec(c) {
            return p_skip_ws(v, i + 1);
        }
    }
    i
}

/// Match one expected character.
pub fn p_expect_char(v: &Vec<char>, i: usize, c: char) -> (r: Option<usize>)
    requires
        i <= v@.len(),
    ensures
        match r {
            Some(j) => expect_char(v@, i as int, c) == Some(j as int) && i < j <= v@.len(),
            None => expect_char(v@, i as int, c) is None,
        },
{
    if i < v.len() {
        let d = v[i];
        if d == c {
            return Some(i + 1);
        }
    }
    None
}

/// Match an expected literal.
pub fn p_expect_lit(v: &Vec<char>, i: usize, lit: &str) -> (r: Option<usize>)
    requires
        i <= v@.len(),
    ensures
        match r {
            Some(j) => expect_lit(v@, i as int, lit@) == Some(j as int) && i <= j <= v@.len(),
            None => expect_lit(v@, i as int, lit@) is None,
        },
{
    let n = lit.unicode_len();
    let m = v.len();
    if n > m || i > m - n {
        return None;
    }
    let mut j: usize = 0;
    while j < n
        invariant
            i + n <= m,
            m == v@.len(),
            n == lit@.len(),
            j <= n,
            forall|t: int| 0 <= t < j ==> v@[i + t] == lit@[t],
        decreases n - j,
    {
        let c = lit.get_char(j);
        if v[i + j] != c {
            proof {
                if expect_lit(v@, i as int, lit@) is Some {
                    let jj = j as int;
                    assert(v@.subrange(i as int, i + lit@.len())[jj] == lit@[jj]);
                }
            }
            return None;
        }
        j = j + 1;
    }
    proof {
        assert(v@.subrange(i as int, i + lit@.len()) =~= lit@);
    }
    Some(i + n)
}

/// Parse a boolean literal.
pub fn p_parse_bool(v: &Vec<char>, i: usize) -> (r: Option<(bool, usize)>)
    requires
        i <= v@.len(),
    ensures
        match r {
            Some(p) => parse_bool(v@, i as int) == Some((p.0, p.1 as int)) && i <= p.1 <= v@.len(),
            None => parse_bool(v@, i as int) is None,
        },
{
    match p_expect_lit(v, i, "true") {
        Some(j) => Some((true, j)),
        None => match p_expect_lit(v, i, "false") {
            Some(j) => Some((false, j)),
            None => None,
        },
    }
}

/// The first position at or after `i` holding no decimal digit.
pub open spec fn digits_end(s: Seq<char>, i: int) -> int
    decreases s.len() - i,
    when 0 <= i <= s.len()
{
    if i < s.len() && is_digit(s[i]) {
        digits_end(s, i + 1)
    } else {
        i
    }
}

/// The value of the decimal digits of `s` between `i` and `j`.
pub open spec fn digits_value(s: Seq<char>, i: int, j: int) -> int
    decreases j - i,
    when i <= j
{
    if i >= j {
        0
    } else {
        digits_value(s, i, j - 1) * 10 + digit_val(s[j - 1])
    }
}

proof fn lemma_digits_value_nonneg(s: Seq<char>, i: int, j: int)
    requires
        i <= j,
        forall|x: int| i <= x < j ==> is_digit(#[trigger] s[x]),
    ensures
        digits_value(s, i, j) >= 0,
    decreases j - i,
{
    if i < j {
        lemma_digits_value_nonneg(s, i, j - 1);
    }
}

proof fn lemma_digits_value_mono(s: Seq<char>, i: int, t: int, j: int)
    requires
        i <= t <= j,
        forall|x: int| i <= x < j ==> is_digit(#[trigger] s[x]),
    ensures
        digits_value(s, i, j) >= digits_value(s, i, t),
    decreases j - t,
{
    if t < j {
        lemma_digits_value_mono(s, i, t, j - 1);
        lemma_digits_value_nonneg(s, i, j - 1);
    }
}

/// Parse an unsigned decimal number: at least one digit, and a value that
/// fits in 32 bits.
pub open spec fn parse_u32(s: Seq<char>, i: int) -> Option<(u32, int)> {
    let j = digits_end(s, i);
    if j == i || digits_value(s, i, j) > u32::MAX {
        None
    } else {
        Some((digits_value(s, i, j) as u32, j))
    }
}

/// The decimal rendering of a nonnegative number.
pub open spec fn dec_of(n: int) -> Seq<char>
    decreases n,
    when n >= 0
{
    if n < 10 {
        seq![digit_char(n)]
    } else {
        dec_of(n / 10) + seq![digit_char(n % 10)]
    }
}

/// The rendering of an unsigned number.
pub open spec fn render_u32(n: u32) -> Seq<char> {
    dec_of(n as int)
}

pub proof fn lemma_dec_of_digits(n: int)
    requires
        0 <= n,
    ensures
        dec_of(n).len() >= 1,
        forall|x: int| 0 <= x < dec_of(n).len() ==> is_digit(#[trigger] dec_of(n)[x]),
    decreases n,
{
    if n < 10 {
        assert(is_digit(digit_char(n)));
    } else {
        lemma_dec_of_digits(n / 10);
        assert(0 <= n % 10 < 10) by {
            vstd::arithmetic::div_mod::lemma_mod_bound(n, 10);
        }
        assert(is_digit(digit_char(n % 10)));
        assert forall|x: int| 0 <= x < dec_of(n).len() implies is_digit(#[trigger] dec_of(n)[x]) by {
            if x < dec_of(n / 10).len() {
                assert(dec_of(n)[x] == dec_of(n / 10)[x]);
            } else {
                assert(dec_of(n)[x] == digit_char(n % 10));
            }
        }
    }
}

fn digit_at(v: &Vec<char>, j: usize) -> (r: bool)
    requires
        j < v@.len(),
    ensures
        r == is_digit(v@[j as int]),
{
    let c = v[j];
    '0' <= c && c <= '9'
}

/// Parse an unsigned decimal number that fits in 32 bits.
pub fn p_parse_u32(v: &Vec<char>, i: usize) -> (r: Option<(u32, usize)>)
    requires
        i <= v@.len(),
    ensures
        match r {
            Some(p) => parse_u32(v@, i as int) == Some((p.0, p.1 as int)) && i <= p.1 <= v@.len(),
            None => parse_u32(v@, i as int) is None,
        },
{
    let m = v.len();
    let mut j: usize = i;
    while j < m && digit_at(v, j)
        invariant
            i <= j <= m,
            m == v@.len(),
            digits_end(v@, i as int) == digits_end(v@, j as int),
            forall|x: int| i <= x < j ==> is_digit(#[trigger] v@[x]),
        decreases m - j,
    {
        j = j + 1;
    }
    assert(digits_end(v@, i as int) == j as int);
    if j == i {
        return None;
    }
    let ghost jv = j as int;
    let mut acc: u32 = 0;
    let mut t: usize = i;
    while t < j
        invariant
            i <= t <= j <= m,
            m == v@.len(),
            jv == j as int,
            digits_end(v@, i as int) == jv,
            forall|x: int| i <= x < jv ==> is_digit(#[trigger] v@[x]),
            acc as int == digits_value(v@, i as int, t as int),
        decreases j - t,
    {
        let c = v[t];
        assert(is_digit(v@[t as int]));
        let d: u32 = (c as u32) - 48;
        if acc > 429496729 || (acc == 429496729 && d > 5) {
            proof {
                assert(digits_value(v@, i as int, t + 1) == acc as int * 10 + d);
                assert(digits_value(v@, i as int, t + 1) > u32::MAX);
                lemma_digits_value_mono(v@, i as int, t + 1, jv);
            }
            return None;
        }
        acc = acc * 10 + d;
        t = t + 1;
    }
    Some((acc, j))
}

/// Write `n` in decimal onto the end of `out`.
pub fn push_u32(out: &mut Vec<char>, n: u32)
    ensures
        final(out)@ == old(out)@ + render_u32(n),
    decreases n,
{
    if n < 10 {
        let d: u8 = (n as u8) + 48;
        out.push(d as char);
        assert(out@ =~= old(out)@ + render_u32(n));
    } else {
        push_u32(out, n / 10);
        let d: u8 = ((n % 10) as u8) + 48;
        out.push(d as char);
        assert(out@ =~= old(out)@ + render_u32(n));
    }
}

proof fn lemma_digits_end_at(prefix: Seq<char>, digits: Seq<char>, rest: Seq<char>)
    requires
        forall|x: int| 0 <= x < digits.len() ==> is_digit(#[trigger] digits[x]),
        rest.len() > 0,
        !is_digit(rest[0]),
    ensures
        digits_end(prefix + digits + rest, prefix.len() as int) == prefix.len() + digits.len(),
    decreases digits.len(),
{
    let s = prefix + digits + rest;
    if digits.len() == 0 {
        assert(s[prefix.len() as int] == rest[0]);
    } else {
        assert(s[prefix.len() as int] == digits[0]);
        lemma_digits_end_at(prefix.push(digits[0]), digits.drop_first(), rest);
        assert(prefix.push(digits[0]) + digits.drop_first() + rest =~= s);
    }
}

proof fn lemma_digits_value_render(s: Seq<char>, p: int, n: int)
    requires
        n >= 0,
        0 <= p,
        p + dec_of(n).len() <= s.len(),
        s.subrange(p, p + dec_of(n).len()) == dec_of(n),
    ensures
        digits_value(s, p, p + dec_of(n).len()) == n,
    decreases n,
{
    let d = dec_of(n);
    if n < 10 {
        assert(s.subrange(p, p + d.len() as int)[0] == d[0]);
        assert(s[p] == digit_char(n));
        assert(digits_value(s, p, p) == 0);
        assert(digits_value(s, p, p + 1) == digit_val(s[p]));
    } else {
        let hd = dec_of(n / 10);
        assert(s.subrange(p, p + hd.len()) =~= hd) by {
            assert forall|x: int| 0 <= x < hd.len() implies s.subrange(p, p + hd.len())[x] == hd[x] by {
                assert(s[p + x] == d[x]);
            }
        }
        lemma_digits_value_render(s, p, n / 10);
        assert(s[p + d.len() - 1] == d[d.len() - 1]);
        assert(digits_value(s, p, p + d.len()) == digits_value(s, p, p + d.len() - 1) * 10
            + digit_val(s[p + d.len() - 1]));
        assert(0 <= n % 10 < 10) by {
            vstd::arithmetic::div_mod::lemma_mod_bound(n, 10);
        }
        assert(digit_val(digit_char(n % 10)) == n % 10);
        assert(n / 10 * 10 + n % 10 == n) by {
            vstd::arithmetic::div_mod::lemma_fundamental_div_mod(n, 10);
        }
    }
}

/// Reading a rendered number back: at any position, the digits written for
/// `n`, followed by anything that is not a digit, parse to exactly `n`.
pub proof fn lemma_parse_u32_at(prefix: Seq<char>, n: u32, rest: Seq<char>)
    requires
        rest.len() > 0,
        !is_digit(rest[0]),
    ensures
        parse_u32(prefix + render_u32(n) + rest, prefix.len() as int) == Some(
            (n, prefix.len() as int + render_u32(n).len() as int),
        ),
{
    let d = render_u32(n);
    let s = prefix + d + rest;
    lemma_dec_of_digits(n as int);
    lemma_digits_end_at(prefix, d, rest);
    assert(s.subrange(prefix.len() as int, prefix.len() + d.len() as int) =~= d);
    lemma_digits_value_render(s, prefix.len() as int, n as int);
}

/// The character a short escape denotes, if it is one.
pub open spec fn unescape_short(e: char) -> Option<char> {
    if e == '"' {
        Some('"')
    } else if e == '\\' {
        Some('\\')
    } else if e == '/' {
        Some('/')
    } else if e == 'n' {
        Some('\n')
    } else if e == 't' {
        Some('\t')
    } else if e == 'r' {
        Some('\r')
    } else if e == 'b' {
        Some('\u{8}')
    } else if e == 'f' {
        Some('\u{c}')
    } else {
        None
    }
}

/// The escape of one character inside a JSON string: `"`, `\` and the
/// named control characters by a short escape, any other control character
/// by a four-digit hexadecimal escape, anything else by itself.
pub open spec fn escape_char(c: char) -> Seq<char> {
    if c == '"' {
        seq!['\\', '"']
    } else if c == '\\' {
        seq!['\\', '\\']
    } else if c == '\n' {
        seq!['\\', 'n']
    } else if c == '\t' {
        seq!['\\', 't']
    } else if c == '\r' {
        seq!['\\', 'r']
    } else if c == '\u{8}' {
        seq!['\\', 'b']
    } else if c == '\u{c}' {
        seq!['\\', 'f']
    } else if (c as u32) < 0x20 {
        seq![
            '\\',
            'u',
            '0',
            '0',
            hex_char(((c as u32) / 16) as int),
            hex_char(((c as u32) % 16) as int),
        ]
    } else {
        seq![c]
    }
}

/// The rendering of the body of a JSON string: each character escaped.
pub open spec fn render_str_body(t: Seq<char>) -> Seq<char>
    decreases t.len(),
{
    if t.len() == 0 {
        Seq::empty()
    } else {
        escape_char(t.first()) + render_str_body(t.drop_first())
    }
}

/// The rendering of a JSON string: the escaped body between quotes.
pub open spec fn render_string(t: Seq<char>) -> Seq<char> {
    seq!['"'] + render_str_body(t) + seq!['"']
}

/// Parse the body of a JSON string after its opening quote: the decoded
/// characters, and the position after the closing quote. Escapes are the
/// short ones and `\u00..` below 0x20 (all the writer emits); a raw
/// control character is refused.
pub open spec fn parse_str_body(s: Seq<char>, i: int) -> Option<(Seq<char>, int)>
    decreases s.len() - i,
    when 0 <= i <= s.len()
{
    if i >= s.len() {
        None
    } else if s[i] == '"' {
        Some((Seq::empty(), i + 1))
    } else if s[i] == '\\' {
        if i + 1 >= s.len() {
            None
        } else {
            let e = s[i + 1];
            if e == 'u' {
                if i + 6 > s.len() {
                    None
                } else if !(is_hex(s[i + 2]) && is_hex(s[i + 3]) && is_hex(s[i + 4]) && is_hex(
                    s[i + 5],
                )) {
                    None
                } else {
                    let val = ((hex_val(s[i + 2]) * 16 + hex_val(s[i + 3])) * 16 + hex_val(
                        s[i + 4],
                    )) * 16 + hex_val(s[i + 5]);
                    if val >= 0x20 {
                        None
                    } else {
                        match parse_str_body(s, i + 6) {
                            Some(p) => Some((seq![((val as u8) as char)] + p.0, p.1)),
                            None => None,
                        }
                    }
                }
            } else {
                match unescape_short(e) {
                    Some(c) => match parse_str_body(s, i + 2) {
                        Some(p) => Some((seq![c] + p.0, p.1)),
                        None => None,
                    },
                    None => None,
                }
            }
        }
    } else if (s[i] as u32) < 0x20 {
        None
    } else {
        match parse_str_body(s, i + 1) {
            Some(p) => Some((seq![s[i]] + p.0, p.1)),
            None => None,
        }
    }
}

/// Parse a JSON string, quotes included.
pub open spec fn parse_string(s: Seq<char>, i: int) -> Option<(Seq<char>, int)> {
    match expect_char(s, i, '"') {
        Some(j) => parse_str_body(s, j),
        None => None,
    }
}

fn unescape_short_exec(e: char) -> (r: Option<char>)
    ensures
        r == unescape_short(e),
{
    if e == '"' {
        Some('"')
    } else if e == '\\' {
        Some('\\')
    } else if e == '/' {
        Some('/')
    } else if e == 'n' {
        Some('\n')
    } else if e == 't' {
        Some('\t')
    } else if e == 'r' {
        Some('\r')
    } else if e == 'b' {
        Some('\u{8}')
    } else if e == 'f' {
        Some('\u{c}')
    } else {
        None
    }
}

fn hex_digit(c: char) -> (r: Option<u8>)
    ensures
        match r {
            Some(d) => hex_val(c) == d as int && d < 16,
            None => hex_val(c) < 0,
        },
{
    if '0' <= c && c <= '9' {
        Some(((c as u32) - 48) as u8)
    } else if 'a' <= c && c <= 'f' {
        Some(((c as u32) - 87) as u8)
    } else if 'A' <= c && c <= 'F' {
        Some(((c as u32) - 55) as u8)
    } else {
        None
    }
}

fn p_parse_str_body(v: &Vec<char>, i: usize) -> (r: Option<(Vec<char>, usize)>)
    requires
        i <= v@.len(),
    ensures
        match r {
            Some(p) => parse_str_body(v@, i as int) == Some((p.0@, p.1 as int)) && i < p.1
                <= v@.len(),
            None => parse_str_body(v@, i as int) is None,
        },
    decreases v@.len() - i,
{
    if i >= v.len() {
        return None;
    }
    let c = v[i];
    if c == '"' {
        let out: Vec<char> = Vec::new();
        proof {
            assert(out@ =~= Seq::<char>::empty());
        }
        return Some((out, i + 1));
    }
    if c == '\\' {
        if i + 1 >= v.len() {
            return None;
        }
        let e = v[i + 1];
        if e == 'u' {
            if v.len() - i < 6 {
                return None;
            }
            let d2 = match hex_digit(v[i + 2]) {
                Some(d) => d,
                None => {
                    return None;
                },
            };
            let d3 = match hex_digit(v[i + 3]) {
                Some(d) => d,
                None => {
                    return None;
                },
            };
            let d4 = match hex_digit(v[i + 4]) {
                Some(d) => d,
                None => {
                    return None;
                },
            };
            let d5 = match hex_digit(v[i + 5]) {
                Some(d) => d,
                None => {
                    return None;
                },
            };
            let val: u32 = ((d2 as u32 * 16 + d3 as u32) * 16 + d4 as u32) * 16 + d5 as u32;
            if val >= 0x20 {
                return None;
            }
            match p_parse_str_body(v, i + 6) {
                Some(p) => {
                    let (mut out, j) = p;
                    out.insert(0, (val as u8) as char);
                    proof {
                        let sp = parse_str_body(v@, i as int);
                        assert(out@ =~= sp->Some_0.0);
                    }
                    Some((out, j))
                },
                None => None,
            }
        } else {
            let c2 = match unescape_short_exec(e) {
                Some(x) => x,
                None => {
                    return None;
                },
            };
            match p_parse_str_body(v, i + 2) {
                Some(p) => {
                    let (mut out, j) = p;
                    out.insert(0, c2);
                    proof {
                        let sp = parse_str_body(v@, i as int);
                        assert(out@ =~= sp->Some_0.0);
                    }
                    Some((out, j))
                },
                None => None,
            }
        }
    } else if (c as u32) < 0x20 {
        None
    } else {
        match p_parse_str_body(v, i + 1) {
            Some(p) => {
                let (mut out, j) = p;
                out.insert(0, c);
                proof {
                    let sp = parse_str_body(v@, i as int);
                    assert(out@ =~= sp->Some_0.0);
                }
                Some((out, j))
            },
            None => None,
        }
    }
}

/// Append the characters of `s` to `out`.
pub fn push_lit(out: &mut Vec<char>, s: &str)
    ensures
        final(out)@ == old(out)@ + s@,
{
    let n = s.unicode_len();
    let mut i: usize = 0;
    while i < n
        invariant
            i <= n,
            n == s@.len(),
            out@ == old(out)@ + s@.subrange(0, i as int),
        decreases n - i,
    {
        let c = s.get_char(i);
        out.push(c);
        assert(out@ =~= old(out)@ + s@.subrange(0, i + 1 as int));
        i = i + 1;
    }
    assert(out@ =~= old(out)@ + s@);
}

/// Append a rendered boolean to `out`.
pub fn push_bool(out: &mut Vec<char>, b: bool)
    ensures
        final(out)@ == old(out)@ + render_bool(b),
{
    if b {
        push_lit(out, "true");
    } else {
        push_lit(out, "false");
    }
}

fn hex_char_exec(d: u8) -> (r: char)
    requires
        d < 16,
    ensures
        r == hex_char(d as int),
{
    if d < 10 {
        (d + 48) as char
    } else {
        (d + 87) as char
    }
}

fn push_escape_char(out: &mut Vec<char>, c: char)
    ensures
        final(out)@ == old(out)@ + escape_char(c),
{
    if c == '"' {
        out.push('\\');
        out.push('"');
        assert(out@ =~= old(out)@ + escape_char(c));
    } else if c == '\\' {
        out.push('\\');
        out.push('\\');
        assert(out@ =~= old(out)@ + escape_char(c));
    } else if c == '\n' {
        out.push('\\');
        out.push('n');
        assert(out@ =~= old(out)@ + escape_char(c));
    } else if c == '\t' {
        out.push('\\');
        out.push('t');
        assert(out@ =~= old(out)@ + escape_char(c));
    } else if c == '\r' {
        out.push('\\');
        out.push('r');
        assert(out@ =~= old(out)@ + escape_char(c));
    } else if c == '\u{8}' {
        out.push('\\');
        out.push('b');
        assert(out@ =~= old(out)@ + escape_char(c));
    } else if c == '\u{c}' {
        out.push('\\');
        out.push('f');
        assert(out@ =~= old(out)@ + escape_char(c));
    } else {
        let code = c as u32;
        if code < 0x20 {
            out.push('\\');
            out.push('u');
            out.push('0');
            out.push('0');
            let hi = (code / 16) as u8;
            let lo = (code % 16) as u8;
            out.push(hex_char_exec(hi));
            out.push(hex_char_exec(lo));
            assert(out@ =~= old(out)@ + escape_char(c));
        } else {
            out.push(c);
            assert(out@ =~= old(out)@ + escape_char(c));
        }
    }
}

proof fn lemma_render_str_body_push(a: Seq<char>, c: char)
    ensures
        render_str_body(a.push(c)) == render_str_body(a) + escape_char(c),
    decreases a.len(),
{
    if a.len() == 0 {
        assert(a.push(c).drop_first() =~= a);
        assert(render_str_body(a.push(c)) =~= render_str_body(a) + escape_char(c));
    } else {
        assert(a.push(c).first() == a.first());
        assert(a.push(c).drop_first() =~= a.drop_first().push(c));
        lemma_render_str_body_push(a.drop_first(), c);
        assert(render_str_body(a.push(c)) =~= render_str_body(a) + escape_char(c));
    }
}

/// Append the escaped body of a JSON string to `out` (no quotes).
pub fn push_escaped(out: &mut Vec<char>, t: &str)
    ensures
        final(out)@ == old(out)@ + render_str_body(t@),
{
    let n = t.unicode_len();
    let mut i: usize = 0;
    proof {
        assert(t@.subrange(0, 0) =~= Seq::<char>::empty());
    }
    while i < n
        invariant
            i <= n,
            n == t@.len(),
            out@ == old(out)@ + render_str_body(t@.subrange(0, i as int)),
        decreases n - i,
    {
        let c = t.get_char(i);
        push_escape_char(out, c);
        proof {
            lemma_render_str_body_push(t@.subrange(0, i as int), c);
            assert(t@.subrange(0, i as int).push(c) =~= t@.subrange(0, i + 1 as int));
            assert(out@ =~= old(out)@ + render_str_body(t@.subrange(0, i + 1 as int)));
        }
        i = i + 1;
    }
    assert(t@.subrange(0, n as int) =~= t@);
}

/// Append a rendered JSON string (quotes included) to `out`.
pub fn push_string(out: &mut Vec<char>, t: &str)
    ensures
        final(out)@ == old(out)@ + render_string(t@),
{
    out.push('"');
    push_escaped(out, t);
    out.push('"');
    assert(out@ =~= old(out)@ + render_string(t@));
}

proof fn lemma_hex_char_val(d: int)
    requires
        0 <= d < 16,
    ensures
        hex_val(hex_char(d)) == d,
        is_hex(hex_char(d)),
{
}

/// Reading a rendered string body back: at any position, the escaped body
/// written for `t` followed by a quote parses to exactly `t`, ending after
/// that quote.
#[verifier::rlimit(100)]
proof fn lemma_parse_render_str_body(t: Seq<char>, prefix: Seq<char>, suffix: Seq<char>)
    requires
        suffix.len() > 0,
        suffix[0] == '"',
    ensures
        parse_str_body(prefix + render_str_body(t) + suffix, prefix.len() as int) == Some(
            (t, prefix.len() as int + render_str_body(t).len() as int + 1),
        ),
    decreases t.len(),
{
    let s = prefix + render_str_body(t) + suffix;
    let p = prefix.len() as int;
    if t.len() == 0 {
        assert(render_str_body(t) =~= Seq::<char>::empty());
        assert(s[p] == suffix[0]);
        assert(t =~= Seq::<char>::empty());
    } else {
        let c = t.first();
        let esc = escape_char(c);
        let body = render_str_body(t);
        assert(body == esc + render_str_body(t.drop_first()));
        assert forall|k: int| 0 <= k < esc.len() implies s[p + k] == esc[k] by {
            assert(s[p + k] == body[k]);
            assert(body[k] == esc[k]);
        }
        let prefix2 = prefix + esc;
        lemma_parse_render_str_body(t.drop_first(), prefix2, suffix);
        assert(prefix2 + render_str_body(t.drop_first()) + suffix =~= s);
        let q = p + esc.len();
        assert(parse_str_body(s, q) == Some(
            (t.drop_first(), q + render_str_body(t.drop_first()).len() as int + 1),
        ));
        assert(seq![c] + t.drop_first() =~= t);
        if esc.len() == 2 {
            assert(s[p] == '\\');
            assert(s[p + 1] == esc[1]);
            assert(unescape_short(esc[1]) == Some(c));
            assert(esc[1] != 'u');
            assert(parse_str_body(s, p) == Some((seq![c] + t.drop_first(), q
                + render_str_body(t.drop_first()).len() as int + 1)));
        } else if esc.len() == 6 {
            assert(s[p] == '\\' && s[p + 1] == 'u' && s[p + 2] == '0' && s[p + 3] == '0');
            let cv = (c as u32) as int;
            assert(0 <= cv < 0x20);
            assert(0 <= cv / 16 < 2 && 0 <= cv % 16 < 16) by {
                vstd::arithmetic::div_mod::lemma_mod_bound(cv, 16);
            }
            lemma_hex_char_val(cv / 16);
            lemma_hex_char_val(cv % 16);
            assert(s[p + 4] == hex_char(cv / 16) && s[p + 5] == hex_char(cv % 16));
            let val = ((hex_val(s[p + 2]) * 16 + hex_val(s[p + 3])) * 16 + hex_val(s[p + 4]))
                * 16 + hex_val(s[p + 5]);
            assert(val == (cv / 16) * 16 + cv % 16);
            assert(cv / 16 * 16 + cv % 16 == cv) by {
                vstd::arithmetic::div_mod::lemma_fundamental_div_mod(cv, 16);
            }
            assert(val == cv);
            assert(((val as u8) as char) == c) by {
                vstd::utf8::char_u32_cast(c, c as u32);
                assert(val as u8 == c as u32);
            }
            assert(parse_str_body(s, p) == Some((seq![c] + t.drop_first(), q
                + render_str_body(t.drop_first()).len() as int + 1)));
        } else {
            assert(esc =~= seq![c]);
            assert(s[p] == c);
            assert(c != '"' && c != '\\' && !((c as u32) < 0x20));
            assert(parse_str_body(s, p) == Some((seq![c] + t.drop_first(), q
                + render_str_body(t.drop_first()).len() as int + 1)));
        }
    }
}

/// Reading a rendered string back: at any position, the quoted, escaped
/// form written for `t` parses to exactly `t`.
#[verifier::rlimit(100)]
pub proof fn lemma_parse_render_string(prefix: Seq<char>, t: Seq<char>, rest: Seq<char>)
    ensures
        parse_string(prefix + render_string(t) + rest, prefix.len() as int) == Some(
            (t, prefix.len() as int + render_string(t).len() as int),
        ),
{
    let s = prefix + render_string(t) + rest;
    let p = prefix.len() as int;
    assert(s[p] == '"');
    let prefix2 = prefix + seq!['"'];
    let suffix = seq!['"'] + rest;
    assert(prefix2 + render_str_body(t) + suffix =~= s);
    lemma_parse_render_str_body(t, prefix2, suffix);
}

/// Parse a JSON string, quotes included.
pub fn p_parse_string(v: &Vec<char>, i: usize) -> (r: Option<(Vec<char>, usize)>)
    requires
        i <= v@.len(),
    ensures
        match r {
            Some(p) => parse_string(v@, i as int) == Some((p.0@, p.1 as int)) && i < p.1
                <= v@.len(),
            None => parse_string(v@, i as int) is None,
        },
{
    match p_expect_char(v, i, '"') {
        Some(j) => p_parse_str_body(v, j),
        None => None,
    }
}

/// The rendering of one object member: newline, two-space indent, the
/// quoted field name, a colon and a space, then the rendered value.
pub open spec fn render_field(name: Seq<char>, value: Seq<char>) -> Seq<char> {
    seq!['\n', ' ', ' ', '"'] + name + seq!['"', ':', ' '] + value
}

/// Parse a field name up to and including its colon: whitespace, the
/// quoted name, whitespace, a colon.
pub open spec fn parse_name(s: Seq<char>, i: int, name: Seq<char>) -> Option<int> {
    let i1 = skip_ws(s, i);
    match expect_char(s, i1, '"') {
        Some(i2) => match expect_lit(s, i2, name) {
            Some(i3) => match expect_char(s, i3, '"') {
                Some(i4) => {
                    let i5 = skip_ws(s, i4);
                    expect_char(s, i5, ':')
                },
                None => None,
            },
            None => None,
        },
        None => None,
    }
}

/// Parse a boolean member: the quoted name, a colon, a boolean.
pub open spec fn parse_field_bool(s: Seq<char>, i: int, name: Seq<char>) -> Option<(bool, int)> {
    match parse_name(s, i, name) {
        Some(j) => parse_bool(s, skip_ws(s, j)),
        None => None,
    }
}

/// Parse an unsigned-number member.
pub open spec fn parse_field_u32(s: Seq<char>, i: int, name: Seq<char>) -> Option<(u32, int)> {
    match parse_name(s, i, name) {
        Some(j) => parse_u32(s, skip_ws(s, j)),
        None => None,
    }
}

/// Parse a string member.
pub open spec fn parse_field_string(s: Seq<char>, i: int, name: Seq<char>) -> Option<
    (Seq<char>, int),
> {
    match parse_name(s, i, name) {
        Some(j) => parse_string(s, skip_ws(s, j)),
        None => None,
    }
}

/// Parse the comma between two members, with whitespace before it.
pub open spec fn parse_comma(s: Seq<char>, i: int) -> Option<int> {
    expect_char(s, skip_ws(s, i), ',')
}

/// Parse the end of the object: whitespace, the closing brace, and
/// nothing but whitespace after it.
pub open spec fn parse_close(s: Seq<char>, i: int) -> bool {
    match expect_char(s, skip_ws(s, i), '}') {
        Some(j) => skip_ws(s, j) == s.len(),
        None => false,
    }
}

/// Parse a field name up to and including its colon.
pub fn p_parse_name(v: &Vec<char>, i: usize, name: &str) -> (r: Option<usize>)
    requires
        i <= v@.len(),
    ensures
        match r {
            Some(j) => parse_name(v@, i as int, name@) == Some(j as int) && i <= j <= v@.len(),
            None => parse_name(v@, i as int, name@) is None,
        },
{
    let i1 = p_skip_ws(v, i);
    let i2 = match p_expect_char(v, i1, '"') {
        Some(x) => x,
        None => {
            return None;
        },
    };
    let i3 = match p_expect_lit(v, i2, name) {
        Some(x) => x,
        None => {
            return None;
        },
    };
    let i4 = match p_expect_char(v, i3, '"') {
        Some(x) => x,
        None => {
            return None;
        },
    };
    let i5 = p_skip_ws(v, i4);
    p_expect_char(v, i5, ':')
}

/// Parse a boolean member.
pub fn p_field_bool(v: &Vec<char>, i: usize, name: &str) -> (r: Option<(bool, usize)>)
    requires
        i <= v@.len(),
    ensures
        match r {
            Some(p) => parse_field_bool(v@, i as int, name@) == Some((p.0, p.1 as int)) && p.1
                <= v@.len(),
            None => parse_field_bool(v@, i as int, name@) is None,
        },
{
    match p_parse_name(v, i, name) {
        Some(j) => {
            let k = p_skip_ws(v, j);
            p_parse_bool(v, k)
        },
        None => None,
    }
}

/// Parse an unsigned-number member.
pub fn p_field_u32(v: &Vec<char>, i: usize, name: &str) -> (r: Option<(u32, usize)>)
    requires
        i <= v@.len(),
    ensures
        match r {
            Some(p) => parse_field_u32(v@, i as int, name@) == Some((p.0, p.1 as int)) && p.1
                <= v@.len(),
            None => parse_field_u32(v@, i as int, name@) is None,
        },
{
    match p_parse_name(v, i, name) {
        Some(j) => {
            let k = p_skip_ws(v, j);
            p_parse_u32(v, k)
        },
        None => None,
    }
}

/// Parse a string member.
pub fn p_field_string(v: &Vec<char>, i: usize, name: &str) -> (r: Option<(Vec<char>, usize)>)
    requires
        i <= v@.len(),
    ensures
        match r {
            Some(p) => parse_field_string(v@, i as int, name@) == Some((p.0@, p.1 as int)) && p.1
                <= v@.len(),
            None => parse_field_string(v@, i as int, name@) is None,
        },
{
    match p_parse_name(v, i, name) {
        Some(j) => {
            let k = p_skip_ws(v, j);
            p_parse_string(v, k)
        },
        None => None,
    }
}

/// Parse the comma between two members.
pub fn p_parse_comma(v: &Vec<char>, i: usize) -> (r: Option<usize>)
    requires
        i <= v@.len(),
    ensures
        match r {
            Some(j) => parse_comma(v@, i as int) == Some(j as int) && i < j <= v@.len(),
            None => parse_comma(v@, i as int) is None,
        },
{
    let k = p_skip_ws(v, i);
    p_expect_char(v, k, ',')
}

/// Parse the end of the object.
pub fn p_parse_close(v: &Vec<char>, i: usize) -> (r: bool)
    requires
        i <= v@.len(),
    ensures
        r == parse_close(v@, i as int),
{
    let k = p_skip_ws(v, i);
    match p_expect_char(v, k, '}') {
        Some(j) => {
            let e = p_skip_ws(v, j);
            e == v.len()
        },
        None => false,
    }
}

/// Reading a literal back from where it was written.
pub proof fn lemma_expect_lit_at(prefix: Seq<char>, lit: Seq<char>, rest: Seq<char>)
    ensures
        expect_lit(prefix + lit + rest, prefix.len() as int, lit) == Some(
            prefix.len() as int + lit.len() as int,
        ),
{
    let s = prefix + lit + rest;
    assert(s.subrange(prefix.len() as int, prefix.len() as int + lit.len() as int) =~= lit);
}

/// Skipping whitespace lands exactly where the whitespace ends.
pub proof fn lemma_skip_ws_at(prefix: Seq<char>, ws: Seq<char>, rest: Seq<char>)
    requires
        forall|x: int| 0 <= x < ws.len() ==> is_json_ws(#[trigger] ws[x]),
        rest.len() > 0,
        !is_json_ws(rest[0]),
    ensures
        skip_ws(prefix + ws + rest, prefix.len() as int) == prefix.len() + ws.len(),
    decreases ws.len(),
{
    let s = prefix + ws + rest;
    let p = prefix.len() as int;
    if ws.len() == 0 {
        assert(s[p] == rest[0]);
    } else {
        assert(s[p] == ws[0]);
        lemma_skip_ws_at(prefix.push(ws[0]), ws.drop_first(), rest);
        assert(prefix.push(ws[0]) + ws.drop_first() + rest =~= s);
    }
}

/// Reading a rendered boolean back from where it was written.
#[verifier::rlimit(100)]
pub proof fn lemma_parse_bool_at(prefix: Seq<char>, b: bool, rest: Seq<char>)
    ensures
        parse_bool(prefix + render_bool(b) + rest, prefix.len() as int) == Some(
            (b, prefix.len() as int + render_bool(b).len() as int),
        ),
{
    reveal_strlit("true");
    reveal_strlit("false");
    let s = prefix + render_bool(b) + rest;
    let p = prefix.len() as int;
    if b {
        lemma_expect_lit_at(prefix, "true"@, rest);
    } else {
        lemma_expect_lit_at(prefix, "false"@, rest);
        if expect_lit(s, p, "true"@) is Some {
            assert(s.subrange(p, p + 4)[0] == 't');
            assert(s[p] == 'f');
        }
    }
}

/// Reading a field name back from where it was written.
#[verifier::rlimit(100)]
proof fn lemma_parse_name_at(prefix: Seq<char>, name: Seq<char>, tail: Seq<char>)
    ensures
        parse_name(prefix + (seq!['\n', ' ', ' ', '"'] + name + seq!['"', ':']) + tail,
            prefix.len() as int, name) == Some(
            prefix.len() as int + 6 + name.len() as int,
        ),
{
    let chunk = seq!['\n', ' ', ' ', '"'] + name + seq!['"', ':'];
    let s = prefix + chunk + tail;
    let p = prefix.len() as int;
    assert forall|k: int| 0 <= k < chunk.len() implies s[p + k] == chunk[k] by {}
    lemma_skip_ws_at(prefix, seq!['\n', ' ', ' '], seq!['"'] + name + seq!['"', ':'] + tail);
    assert(prefix + seq!['\n', ' ', ' '] + (seq!['"'] + name + seq!['"', ':'] + tail) =~= s);
    assert(skip_ws(s, p) == p + 3);
    assert(s[p + 3] == '"');
    assert(expect_char(s, p + 3, '"') == Some(p + 4));
    lemma_expect_lit_at(prefix + seq!['\n', ' ', ' ', '"'], name, seq!['"', ':'] + tail);
    assert((prefix + seq!['\n', ' ', ' ', '"']) + name + (seq!['"', ':'] + tail) =~= s);
    let i3 = p + 4 + name.len() as int;
    assert(expect_lit(s, p + 4, name) == Some(i3));
    assert(s[i3] == '"');
    assert(s[i3 + 1] == ':');
    assert(expect_char(s, i3, '"') == Some(i3 + 1));
    assert(skip_ws(s, i3 + 1) == i3 + 1);
    assert(expect_char(s, i3 + 1, ':') == Some(i3 + 2));
}

/// Reading a boolean member back from where it was written.
#[verifier::rlimit(100)]
pub proof fn lemma_field_bool_at(prefix: Seq<char>, name: Seq<char>, b: bool, rest: Seq<char>)
    ensures
        parse_field_bool(prefix + render_field(name, render_bool(b)) + rest, prefix.len() as int,
            name) == Some(
            (b, prefix.len() as int + render_field(name, render_bool(b)).len() as int),
        ),
{
    let f = render_field(name, render_bool(b));
    let s = prefix + f + rest;
    let p = prefix.len() as int;
    let namechunk = seq!['\n', ' ', ' ', '"'] + name + seq!['"', ':'];
    let tail = seq![' '] + render_bool(b) + rest;
    assert(prefix + namechunk + tail =~= s);
    lemma_parse_name_at(prefix, name, tail);
    let j = p + 6 + name.len() as int;
    assert(parse_name(s, p, name) == Some(j));
    reveal_strlit("true");
    reveal_strlit("false");
    assert(!is_json_ws(render_bool(b)[0]));
    lemma_skip_ws_at(prefix + namechunk, seq![' '], render_bool(b) + rest);
    assert((prefix + namechunk) + seq![' '] + (render_bool(b) + rest) =~= s);
    assert(skip_ws(s, j) == j + 1);
    lemma_parse_bool_at(prefix + namechunk + seq![' '], b, rest);
    assert((prefix + namechunk + seq![' ']) + render_bool(b) + rest =~= s);
}

/// Reading an unsigned-number member back from where it was written.
#[verifier::rlimit(100)]
pub proof fn lemma_field_u32_at(prefix: Seq<char>, name: Seq<char>, n: u32, rest: Seq<char>)
    requires
        rest.len() > 0,
        !is_digit(rest[0]),
    ensures
        parse_field_u32(prefix + render_field(name, render_u32(n)) + rest, prefix.len() as int,
            name) == Some(
            (n, prefix.len() as int + render_field(name, render_u32(n)).len() as int),
        ),
{
    let f = render_field(name, render_u32(n));
    let s = prefix + f + rest;
    let p = prefix.len() as int;
    let namechunk = seq!['\n', ' ', ' ', '"'] + name + seq!['"', ':'];
    let tail = seq![' '] + render_u32(n) + rest;
    assert(prefix + namechunk + tail =~= s);
    lemma_parse_name_at(prefix, name, tail);
    let j = p + 6 + name.len() as int;
    assert(parse_name(s, p, name) == Some(j));
    lemma_dec_of_digits(n as int);
    assert(is_digit(render_u32(n)[0]));
    assert(!is_json_ws(render_u32(n)[0]));
    lemma_skip_ws_at(prefix + namechunk, seq![' '], render_u32(n) + rest);
    assert((prefix + namechunk) + seq![' '] + (render_u32(n) + rest) =~= s);
    assert(skip_ws(s, j) == j + 1);
    lemma_parse_u32_at(prefix + namechunk + seq![' '], n, rest);
    assert((prefix + namechunk + seq![' ']) + render_u32(n) + rest =~= s);
}

/// Reading a string member back from where it was written.
#[verifier::rlimit(100)]
pub proof fn lemma_field_string_at(prefix: Seq<char>, name: Seq<char>, t: Seq<char>, rest: Seq<char>)
    ensures
        parse_field_string(prefix + render_field(name, render_string(t)) + rest,
            prefix.len() as int, name) == Some(
            (t, prefix.len() as int + render_field(name, render_string(t)).len() as int),
        ),
{
    let f = render_field(name, render_string(t));
    let s = prefix + f + rest;
    let p = prefix.len() as int;
    let namechunk = seq!['\n', ' ', ' ', '"'] + name + seq!['"', ':'];
    let tail = seq![' '] + render_string(t) + rest;
    assert(prefix + namechunk + tail =~= s);
    lemma_parse_name_at(prefix, name, tail);
    let j = p + 6 + name.len() as int;
    assert(parse_name(s, p, name) == Some(j));
    assert(render_string(t)[0] == '"');
    assert(!is_json_ws(render_string(t)[0]));
    lemma_skip_ws_at(prefix + namechunk, seq![' '], render_string(t) + rest);
    assert((prefix + namechunk) + seq![' '] + (render_string(t) + rest) =~= s);
    assert(skip_ws(s, j) == j + 1);
    lemma_parse_render_string(prefix + namechunk + seq![' '], t, rest);
    assert((prefix + namechunk + seq![' ']) + render_string(t) + rest =~= s);
}

/// Reading the comma between members back from where it was written.
pub proof fn lemma_parse_comma_at(prefix: Seq<char>, rest: Seq<char>)
    ensures
        parse_comma(prefix + seq![','] + rest, prefix.len() as int) == Some(
            prefix.len() as int + 1,
        ),
{
    let s = prefix + seq![','] + rest;
    let p = prefix.len() as int;
    assert(s[p] == ',');
    assert(skip_ws(s, p) == p);
}

/// Reading the object end back from where it was written.
pub proof fn lemma_parse_close_at(prefix: Seq<char>)
    ensures
        parse_close(prefix + seq!['\n', '}'], prefix.len() as int),
{
    let s = prefix + seq!['\n', '}'];
    let p = prefix.len() as int;
    lemma_skip_ws_at(prefix, seq!['\n'], seq!['}']);
    assert(prefix + seq!['\n'] + seq!['}'] =~= s);
    assert(skip_ws(s, p) == p + 1);
    assert(s[p + 1] == '}');
    assert(expect_char(s, p + 1, '}') == Some(p + 2));
    assert(p + 2 == s.len());
    assert(skip_ws(s, p + 2) == s.len());
}

/// Parse a boolean member followed by the separating comma.
pub open spec fn parse_field_bool_comma(s: Seq<char>, i: int, name: Seq<char>) -> Option<
    (bool, int),
> {
    match parse_field_bool(s, i, name) {
        Some(p) => match parse_comma(s, p.1) {
            Some(k) => Some((p.0, k)),
            None => None,
        },
        None => None,
    }
}

/// Parse an unsigned-number member followed by the separating comma.
pub open spec fn parse_field_u32_comma(s: Seq<char>, i: int, name: Seq<char>) -> Option<
    (u32, int),
> {
    match parse_field_u32(s, i, name) {
        Some(p) => match parse_comma(s, p.1) {
            Some(k) => Some((p.0, k)),
            None => None,
        },
        None => None,
    }
}

/// Parse a string member followed by the separating comma.
pub open spec fn parse_field_string_comma(s: Seq<char>, i: int, name: Seq<char>) -> Option<
    (Seq<char>, int),
> {
    match parse_field_string(s, i, name) {
        Some(p) => match parse_comma(s, p.1) {
            Some(k) => Some((p.0, k)),
            None => None,
        },
        None => None,
    }
}

/// Parse a boolean member followed by the separating comma.
pub fn p_field_bool_comma(v: &Vec<char>, i: usize, name: &str) -> (r: Option<(bool, usize)>)
    requires
        i <= v@.len(),
    ensures
        match r {
            Some(p) => parse_field_bool_comma(v@, i as int, name@) == Some((p.0, p.1 as int))
                && p.1 <= v@.len(),
            None => parse_field_bool_comma(v@, i as int, name@) is None,
        },
{
    match p_field_bool(v, i, name) {
        Some(p) => match p_parse_comma(v, p.1) {
            Some(k) => Some((p.0, k)),
            None => None,
        },
        None => None,
    }
}

/// Parse an unsigned-number member followed by the separating comma.
pub fn p_field_u32_comma(v: &Vec<char>, i: usize, name: &str) -> (r: Option<(u32, usize)>)
    requires
        i <= v@.len(),
    ensures
        match r {
            Some(p) => parse_field_u32_comma(v@, i as int, name@) == Some((p.0, p.1 as int))
                && p.1 <= v@.len(),
            None => parse_field_u32_comma(v@, i as int, name@) is None,
        },
{
    match p_field_u32(v, i, name) {
        Some(p) => match p_parse_comma(v, p.1) {
            Some(k) => Some((p.0, k)),
            None => None,
        },
        None => None,
    }
}

/// Parse a string member followed by the separating comma.
pub fn p_field_string_comma(v: &Vec<char>, i: usize, name: &str) -> (r: Option<
    (Vec<char>, usize),
>)
    requires
        i <= v@.len(),
    ensures
        match r {
            Some(p) => parse_field_string_comma(v@, i as int, name@) == Some((p.0@, p.1 as int))
                && p.1 <= v@.len(),
            None => parse_field_string_comma(v@, i as int, name@) is None,
        },
{
    match p_field_string(v, i, name) {
        Some(p) => match p_parse_comma(v, p.1) {
            Some(k) => Some((p.0, k)),
            None => None,
        },
        None => None,
    }
}

/// Reading back a boolean member and its comma from where they were
/// written.
#[verifier::rlimit(100)]
pub proof fn lemma_field_bool_comma_at(prefix: Seq<char>, name: Seq<char>, b: bool, rest: Seq<
    char,
>)
    ensures
        parse_field_bool_comma(prefix + render_field(name, render_bool(b)) + seq![','] + rest,
            prefix.len() as int, name) == Some(
            (b, prefix.len() as int + render_field(name, render_bool(b)).len() as int + 1),
        ),
{
    let g = render_field(name, render_bool(b));
    let s = prefix + g + seq![','] + rest;
    lemma_field_bool_at(prefix, name, b, seq![','] + rest);
    assert(prefix + g + (seq![','] + rest) =~= s);
    lemma_parse_comma_at(prefix + g, rest);
}

/// Reading back an unsigned-number member and its comma from where they
/// were written.
#[verifier::rlimit(100)]
pub proof fn lemma_field_u32_comma_at(prefix: Seq<char>, name: Seq<char>, n: u32, rest: Seq<
    char,
>)
    ensures
        parse_field_u32_comma(prefix + render_field(name, render_u32(n)) + seq![','] + rest,
            prefix.len() as int, name) == Some(
            (n, prefix.len() as int + render_field(name, render_u32(n)).len() as int + 1),
        ),
{
    let g = render_field(name, render_u32(n));
    let s = prefix + g + seq![','] + rest;
    lemma_field_u32_at(prefix, name, n, seq![','] + rest);
    assert(prefix + g + (seq![','] + rest) =~= s);
    lemma_parse_comma_at(prefix + g, rest);
}

/// Reading back a string member and its comma from where they were
/// written.
#[verifier::rlimit(100)]
pub proof fn lemma_field_string_comma_at(prefix: Seq<char>, name: Seq<char>, t: Seq<char>, rest: Seq<
    char,
>)
    ensures
        parse_field_string_comma(prefix + render_field(name, render_string(t)) + seq![','] + rest,
            prefix.len() as int, name) == Some(
            (t, prefix.len() as int + render_field(name, render_string(t)).len() as int + 1),
        ),
{
    let g = render_field(name, render_string(t));
    let s = prefix + g + seq![','] + rest;
    lemma_field_string_at(prefix, name, t, seq![','] + rest);
    assert(prefix + g + (seq![','] + rest) =~= s);
    lemma_parse_comma_at(prefix + g, rest);
}

/// Append the opening of one rendered member to `out`: newline, indent,
/// the quoted name, a colon and a space.
pub fn push_field_name(out: &mut Vec<char>, name: &str)
    ensures
        final(out)@ == old(out)@ + seq!['\n', ' ', ' ', '"'] + name@ + seq!['"', ':', ' '],
{
    out.push('\n');
    out.push(' ');
    out.push(' ');
    out.push('"');
    push_lit(out, name);
    out.push('"');
    out.push(':');
    out.push(' ');
    assert(out@ =~= old(out)@ + seq!['\n', ' ', ' ', '"'] + name@ + seq!['"', ':', ' ']);
}

} // verus!
