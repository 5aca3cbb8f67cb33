//! Parsing of configured key-name strings into key codes.
//!
//! A configured bind is a string such as `"Ctrl+Shift+A"`. The literal key is
//! the part after the last `+`; it may carry an optional, case-insensitive
//! `Key` prefix (`"KeyA"`), surrounding ASCII whitespace is ignored, and the
//! lookup itself is case-insensitive. An unrecognized name parses to `None`
//! ("binding disabled"), never to an error.

use vstd::prelude::*;
use vstd::string::StringExecFns;
use vstd::string::StrSliceExecFns;

verus! {

/// A physical key, mirroring the key codes reported by the OS-level
/// keyboard hook. Only the keys that the lookup table or the modifier
/// tracking speak of are represented.
#[derive(Clone, Copy, Debug, PartialEq, Eq, Structural)]
pub enum KeyCode {
    KeyA,
    KeyB,
    KeyC,
    KeyD,
    KeyE,
    KeyF,
    KeyG,
    KeyH,
    KeyI,
    KeyJ,
    KeyK,
    KeyL,
    KeyM,
    KeyN,
    KeyO,
    KeyP,
    KeyQ,
    KeyR,
    KeyS,
    KeyT,
    KeyU,
    KeyV,
    KeyW,
    KeyX,
    KeyY,
    KeyZ,
    Num0,
    Num1,
    Num2,
    Num3,
    Num4,
    Num5,
    Num6,
    Num7,
    Num8,
    Num9,
    Return,
    Escape,
    Space,
    Tab,
    ShiftLeft,
    ShiftRight,
    ControlLeft,
    ControlRight,
    Alt,
    Backspace,
    Delete,
    LeftArrow,
    RightArrow,
    UpArrow,
    DownArrow,
    Home,
    End,
    PageUp,
    PageDown,
    Pause,
    Insert,
    Function,
    ScrollLock,
    PrintScreen,
    Equal,
    Minus,
    Comma,
    Slash,
    LeftBracket,
    RightBracket,
    F1,
    F2,
    F3,
    F4,
    F5,
    F6,
    F7,
    F8,
    F9,
    F10,
    F11,
    F12,
}

/// ASCII whitespace, as stripped from around a key name.
pub open spec fn is_space_char(c: char) -> bool {
    c == ' ' || c == '\t' || c == '\n' || c == '\r' || c == '\u{b}' || c == '\u{c}'
}

/// The uppercase form of an ASCII letter; any other character is unchanged.
pub open spec fn spec_to_upper(c: char) -> char {
    if 'a' <= c && c <= 'z' {
        (((c as u32) - 32) as u8) as char
    } else {
        c
    }
}

/// A sequence of characters, each ASCII-uppercased.
pub open spec fn upper_seq(s: Seq<char>) -> Seq<char> {
    s.map_values(|c: char| spec_to_upper(c))
}

/// The suffix after the last `+`, or the whole sequence if it has none.
pub open spec fn after_last_plus(s: Seq<char>) -> Seq<char>
    decreases s.len(),
{
    if s.len() == 0 {
        s
    } else if s.last() == '+' {
        Seq::empty()
    } else {
        after_last_plus(s.drop_last()).push(s.last())
    }
}

/// The sequence with its leading whitespace removed.
pub open spec fn trim_start(s: Seq<char>) -> Seq<char>
    decreases s.len(),
{
    if s.len() == 0 {
        s
    } else if is_space_char(s.first()) {
        trim_start(s.drop_first())
    } else {
        s
    }
}

/// The sequence with its trailing whitespace removed.
pub open spec fn trim_end(s: Seq<char>) -> Seq<char>
    decreases s.len(),
{
    if s.len() == 0 {
        s
    } else if is_space_char(s.last()) {
        trim_end(s.drop_last())
    } else {
        s
    }
}

/// The sequence with surrounding whitespace removed.
pub open spec fn trim_seq(s: Seq<char>) -> Seq<char> {
    trim_end(trim_start(s))
}

/// Whether the token starts with `Key` in any letter case.
pub open spec fn has_key_prefix(s: Seq<char>) -> bool {
    s.len() >= 3 && spec_to_upper(s[0]) == 'K' && spec_to_upper(s[1]) == 'E' && spec_to_upper(
        s[2],
    ) == 'Y'
}

/// The key token of a bind string, normalized for the table lookup:
/// the part after the last `+`, trimmed, with an optional case-insensitive
/// `Key` prefix stripped (and trimmed again), uppercased.
pub open spec fn normalized_token(s: Seq<char>) -> Seq<char> {
    let t = trim_seq(after_last_plus(s));
    let u = if has_key_prefix(t) {
        trim_seq(t.skip(3))
    } else {
        t
    };
    upper_seq(u)
}

/// The fixed lookup table, keyed by the uppercased key name.
pub open spec fn key_of_name(u: Seq<char>) -> Option<KeyCode> {
    if u == "A"@ {
        Some(KeyCode::KeyA)
    } else if u == "B"@ {
        Some(KeyCode::KeyB)
    } else if u == "C"@ {
        Some(KeyCode::KeyC)
    } else if u == "D"@ {
        Some(KeyCode::KeyD)
    } else if u == "E"@ {
        Some(KeyCode::KeyE)
    } else if u == "F"@ {
        Some(KeyCode::KeyF)
    } else if u == "G"@ {
        Some(KeyCode::KeyG)
    } else if u == "H"@ {
        Some(KeyCode::KeyH)
    } else if u == "I"@ {
        Some(KeyCode::KeyI)
    } else if u == "J"@ {
        Some(KeyCode::KeyJ)
    } else if u == "K"@ {
        Some(KeyCode::KeyK)
    } else if u == "L"@ {
        Some(KeyCode::KeyL)
    } else if u == "M"@ {
        Some(KeyCode::KeyM)
    } else if u == "N"@ {
        Some(KeyCode::KeyN)
    } else if u == "O"@ {
        Some(KeyCode::KeyO)
    } else if u == "P"@ {
        Some(KeyCode::KeyP)
    } else if u == "Q"@ {
        Some(KeyCode::KeyQ)
    } else if u == "R"@ {
        Some(KeyCode::KeyR)
    } else if u == "S"@ {
        Some(KeyCode::KeyS)
    } else if u == "T"@ {
        Some(KeyCode::KeyT)
    } else if u == "U"@ {
        Some(KeyCode::KeyU)
    } else if u == "V"@ {
        Some(KeyCode::KeyV)
    } else if u == "W"@ {
        Some(KeyCode::KeyW)
    } else if u == "X"@ {
        Some(KeyCode::KeyX)
    } else if u == "Y"@ {
        Some(KeyCode::KeyY)
    } else if u == "Z"@ {
        Some(KeyCode::KeyZ)
    } else if u == "0"@ {
        Some(KeyCode::Num0)
    } else if u == "1"@ {
        Some(KeyCode::Num1)
    } else if u == "2"@ {
        Some(KeyCode::Num2)
    } else if u == "3"@ {
        Some(KeyCode::Num3)
    } else if u == "4"@ {
        Some(KeyCode::Num4)
    } else if u == "5"@ {
        Some(KeyCode::Num5)
    } else if u == "6"@ {
        Some(KeyCode::Num6)
    } else if u == "7"@ {
        Some(KeyCode::Num7)
    } else if u == "8"@ {
        Some(KeyCode::Num8)
    } else if u == "9"@ {
        Some(KeyCode::Num9)
    } else if u == "ENTER"@ || u == "RETURN"@ {
        Some(KeyCode::Return)
    } else if u == "ESC"@ || u == "ESCAPE"@ {
        Some(KeyCode::Escape)
    } else if u == "SPACE"@ {
        Some(KeyCode::Space)
    } else if u == "TAB"@ {
        Some(KeyCode::Tab)
    } else if u == "SHIFT"@ {
        Some(KeyCode::ShiftLeft)
    } else if u == "CTRL"@ || u == "CONTROL"@ {
        Some(KeyCode::ControlLeft)
    } else if u == "ALT"@ {
        Some(KeyCode::Alt)
    } else if u == "BACKSPACE"@ {
        Some(KeyCode::Backspace)
    } else if u == "DELETE"@ {
        Some(KeyCode::Delete)
    } else if u == "LEFT"@ {
        Some(KeyCode::LeftArrow)
    } else if u == "RIGHT"@ {
        Some(KeyCode::RightArrow)
    } else if u == "UP"@ {
        Some(KeyCode::UpArrow)
    } else if u == "DOWN"@ {
        Some(KeyCode::DownArrow)
    } else if u == "HOME"@ {
        Some(KeyCode::Home)
    } else if u == "END"@ {
        Some(KeyCode::End)
    } else if u == "PAGEUP"@ {
        Some(KeyCode::PageUp)
    } else if u == "PAGEDOWN"@ {
        Some(KeyCode::PageDown)
    } else if u == "PAUSE"@ {
        Some(KeyCode::Pause)
    } else if u == "INS"@ || u == "INSERT"@ {
        Some(KeyCode::Insert)
    } else if u == "DEL"@ {
        Some(KeyCode::Delete)
    } else if u == "FN"@ {
        Some(KeyCode::Function)
    } else if u == "PRINTSCREEN"@ {
        Some(KeyCode::PrintScreen)
    } else if u == "EQUALS"@ {
        Some(KeyCode::Equal)
    } else if u == "MINUS"@ {
        Some(KeyCode::Minus)
    } else if u == "COMMA"@ {
        Some(KeyCode::Comma)
    } else if u == "SLASH"@ {
        Some(KeyCode::Slash)
    } else if u == "LEFTBRACKET"@ {
        Some(KeyCode::LeftBracket)
    } else if u == "RIGHTBRACKET"@ {
        Some(KeyCode::RightBracket)
    } else if u == "LEFTARROW"@ {
        Some(KeyCode::LeftArrow)
    } else if u == "RIGHTARROW"@ {
        Some(KeyCode::RightArrow)
    } else if u == "UPARROW"@ {
        Some(KeyCode::UpArrow)
    } else if u == "DOWNARROW"@ {
        Some(KeyCode::DownArrow)
    } else if u == "F1"@ {
        Some(KeyCode::F1)
    } else if u == "F2"@ {
        Some(KeyCode::F2)
    } else if u == "F3"@ {
        Some(KeyCode::F3)
    } else if u == "F4"@ {
        Some(KeyCode::F4)
    } else if u == "F5"@ {
        Some(KeyCode::F5)
    } else if u == "F6"@ {
        Some(KeyCode::F6)
    } else if u == "F7"@ {
        Some(KeyCode::F7)
    } else if u == "F8"@ {
        Some(KeyCode::F8)
    } else if u == "F9"@ {
        Some(KeyCode::F9)
    } else if u == "F10"@ {
        Some(KeyCode::F10)
    } else if u == "F11"@ {
        Some(KeyCode::F11)
    } else if u == "F12"@ {
        Some(KeyCode::F12)
    } else {
        None
    }
}

/// What a bind string resolves to: the normalized key token looked up in
/// the fixed table, or `None` when nothing matches.
pub open spec fn spec_str_to_key(s: Seq<char>) -> Option<KeyCode> {
    key_of_name(normalized_token(s))
}

/// ASCII-uppercase a single character.
pub fn to_upper_char(c: char) -> (r: char)
    ensures
        r == spec_to_upper(c),
{
    if 'a' <= c && c <= 'z' {
        (((c as u32) - 32) as u8) as char
    } else {
        c
    }
}

/// Whether a character counts as whitespace around a key name.
pub fn is_space(c: char) -> (r: bool)
    ensures
        r == is_space_char(c),
{
    c == ' ' || c == '\t' || c == '\n' || c == '\r' || c == '\u{b}' || c == '\u{c}'
}

proof fn lemma_after_last_plus_no_plus(s: Seq<char>)
    requires
        forall|k: int| 0 <= k < s.len() ==> s[k] != '+',
    ensures
        after_last_plus(s) == s,
    decreases s.len(),
{
    if s.len() == 0 {
    } else {
        lemma_after_last_plus_no_plus(s.drop_last());
        assert(after_last_plus(s) =~= s);
    }
}

proof fn lemma_after_last_plus_split(s: Seq<char>, k: int)
    requires
        0 <= k < s.len(),
        s[k] == '+',
        forall|j: int| k < j < s.len() ==> s[j] != '+',
    ensures
        after_last_plus(s) == s.subrange(k + 1, s.len() as int),
    decreases s.len(),
{
    if k == s.len() - 1 {
        assert(after_last_plus(s) =~= s.subrange(k + 1, s.len() as int));
    } else {
        lemma_after_last_plus_split(s.drop_last(), k);
        assert(after_last_plus(s) =~= s.subrange(k + 1, s.len() as int));
    }
}

proof fn lemma_trim_start_at(s: Seq<char>, lo: int)
    requires
        0 <= lo <= s.len(),
        forall|t: int| 0 <= t < lo ==> is_space_char(s[t]),
        lo < s.len() ==> !is_space_char(s[lo]),
    ensures
        trim_start(s) == s.skip(lo),
    decreases lo,
{
    if lo == 0 {
        assert(trim_start(s) =~= s.skip(0));
    } else {
        assert(is_space_char(s.first()));
        lemma_trim_start_at(s.drop_first(), lo - 1);
        assert(s.drop_first().skip(lo - 1) =~= s.skip(lo));
    }
}

proof fn lemma_trim_end_at(s: Seq<char>, hi: int)
    requires
        0 <= hi <= s.len(),
        forall|t: int| hi <= t < s.len() ==> is_space_char(s[t]),
        hi > 0 ==> !is_space_char(s[hi - 1]),
    ensures
        trim_end(s) == s.take(hi),
    decreases s.len() - hi,
{
    if hi == s.len() {
        if s.len() == 0 {
        } else {
            assert(!is_space_char(s.last()));
        }
        assert(trim_end(s) =~= s.take(hi));
    } else {
        assert(is_space_char(s.last()));
        lemma_trim_end_at(s.drop_last(), hi);
        assert(s.drop_last().take(hi) =~= s.take(hi));
    }
}

/// The characters of a string slice, in order.
pub fn str_to_chars(s: &str) -> (r: Vec<char>)
    ensures
        r@ == s@,
{
    let n = s.unicode_len();
    let mut v: Vec<char> = Vec::new();
    let mut i: usize = 0;
    while i < n
        invariant
            i <= n,
            n == s@.len(),
            v@ == s@.subrange(0, i as int),
        decreases n - i,
    {
        let c = s.get_char(i);
        v.push(c);
        assert(v@ =~= s@.subrange(0, i + 1 as int));
        i = i + 1;
    }
    assert(v@ =~= s@);
    v
}

/// The characters of `v` between `from` (inclusive) and `to` (exclusive).
fn copy_range(v: &Vec<char>, from: usize, to: usize) -> (r: Vec<char>)
    requires
        from <= to <= v@.len(),
    ensures
        r@ == v@.subrange(from as int, to as int),
{
    let mut r: Vec<char> = Vec::new();
    let mut i: usize = from;
    while i < to
        invariant
            from <= i <= to <= v@.len(),
            r@ == v@.subrange(from as int, i as int),
        decreases to - i,
    {
        let c = v[i];
        r.push(c);
        assert(r@ =~= v@.subrange(from as int, i + 1 as int));
        i = i + 1;
    }
    r
}

/// The part of `v` after its last `+`, or all of it if it has none.
fn last_segment(v: &Vec<char>) -> (r: Vec<char>)
    ensures
        r@ == after_last_plus(v@),
{
    let n = v.len();
    let mut start: usize = 0;
    let mut i: usize = 0;
    while i < n
        invariant
            i <= n,
            n == v@.len(),
            start == 0 || (0 < start <= i && v@[start - 1] == '+'),
            forall|t: int| start <= t < i ==> v@[t] != '+',
        decreases n - i,
    {
        if v[i] == '+' {
            start = i + 1;
        }
        i = i + 1;
    }
    proof {
        if start == 0 {
            lemma_after_last_plus_no_plus(v@);
            assert(after_last_plus(v@) =~= v@.subrange(0, n as int));
        } else {
            lemma_after_last_plus_split(v@, start - 1);
        }
    }
    copy_range(v, start, n)
}

/// The characters of `v` with surrounding whitespace removed.
fn trim_chars(v: &Vec<char>) -> (r: Vec<char>)
    ensures
        r@ == trim_seq(v@),
{
    let n = v.len();
    let mut lo: usize = 0;
    while lo < n && is_space(v[lo])
        invariant
            lo <= n,
            n == v@.len(),
            forall|t: int| 0 <= t < lo ==> is_space_char(v@[t]),
        decreases n - lo,
    {
        lo = lo + 1;
    }
    let mut hi: usize = n;
    while hi > lo && is_space(v[hi - 1])
        invariant
            lo <= hi <= n,
            n == v@.len(),
            forall|t: int| hi <= t < n ==> is_space_char(v@[t]),
        decreases hi,
    {
        hi = hi - 1;
    }
    proof {
        lemma_trim_start_at(v@, lo as int);
        let t = v@.skip(lo as int);
        lemma_trim_end_at(t, hi - lo as int);
        assert(t.take(hi - lo as int) =~= v@.subrange(lo as int, hi as int));
    }
    copy_range(v, lo, hi)
}

/// The characters of `v` with a case-insensitive `Key` prefix stripped and
/// the remainder trimmed; `v` unchanged when it has no such prefix.
fn strip_key_prefix_chars(v: &Vec<char>) -> (r: Vec<char>)
    ensures
        r@ == (if has_key_prefix(v@) {
            trim_seq(v@.skip(3))
        } else {
            v@
        }),
{
    if v.len() >= 3 {
        let c0 = to_upper_char(v[0]);
        let c1 = to_upper_char(v[1]);
        let c2 = to_upper_char(v[2]);
        if c0 == 'K' && c1 == 'E' && c2 == 'Y' {
            let tail = copy_range(v, 3, v.len());
            assert(tail@ =~= v@.skip(3));
            return trim_chars(&tail);
        }
    }
    copy_range(v, 0, v.len())
}

/// The characters of `v`, each ASCII-uppercased.
fn upper_chars(v: &Vec<char>) -> (r: Vec<char>)
    ensures
        r@ == upper_seq(v@),
{
    let n = v.len();
    let mut r: Vec<char> = Vec::new();
    let mut i: usize = 0;
    while i < n
        invariant
            i <= n,
            n == v@.len(),
            r@.len() == i,
            forall|t: int| 0 <= t < i ==> r@[t] == spec_to_upper(v@[t]),
        decreases n - i,
    {
        let c = to_upper_char(v[i]);
        r.push(c);
        i = i + 1;
    }
    assert(r@ =~= upper_seq(v@));
    r
}

/// Whether the characters of `v` are exactly those of `s`.
fn eq_str(v: &Vec<char>, s: &str) -> (b: bool)
    ensures
        b == (v@ == s@),
{
    let n = s.unicode_len();
    if v.len() != n {
        return false;
    }
    let mut i: usize = 0;
    while i < n
        invariant
            i <= n,
            n == s@.len(),
            n == v@.len(),
            forall|t: int| 0 <= t < i ==> v@[t] == s@[t],
        decreases n - i,
    {
        let c = s.get_char(i);
        if v[i] != c {
            return false;
        }
        i = i + 1;
    }
    proof {
        assert(v@ =~= s@);
    }
    true
}

/// The table lookup on an already-normalized (uppercased) key name.
#[verifier::rlimit(30)]
fn key_lookup(v: &Vec<char>) -> (r: Option<KeyCode>)
    ensures
        r == key_of_name(v@),
{
    if eq_str(v, "A") {
        Some(KeyCode::KeyA)
    } else if eq_str(v, "B") {
        Some(KeyCode::KeyB)
    } else if eq_str(v, "C") {
        Some(KeyCode::KeyC)
    } else if eq_str(v, "D") {
        Some(KeyCode::KeyD)
    } else if eq_str(v, "E") {
        Some(KeyCode::KeyE)
    } else if eq_str(v, "F") {
        Some(KeyCode::KeyF)
    } else if eq_str(v, "G") {
        Some(KeyCode::KeyG)
    } else if eq_str(v, "H") {
        Some(KeyCode::KeyH)
    } else if eq_str(v, "I") {
        Some(KeyCode::KeyI)
    } else if eq_str(v, "J") {
        Some(KeyCode::KeyJ)
    } else if eq_str(v, "K") {
        Some(KeyCode::KeyK)
    } else if eq_str(v, "L") {
        Some(KeyCode::KeyL)
    } else if eq_str(v, "M") {
        Some(KeyCode::KeyM)
    } else if eq_str(v, "N") {
        Some(KeyCode::KeyN)
    } else if eq_str(v, "O") {
        Some(KeyCode::KeyO)
    } else if eq_str(v, "P") {
        Some(KeyCode::KeyP)
    } else if eq_str(v, "Q") {
        Some(KeyCode::KeyQ)
    } else if eq_str(v, "R") {
        Some(KeyCode::KeyR)
    } else if eq_str(v, "S") {
        Some(KeyCode::KeyS)
    } else if eq_str(v, "T") {
        Some(KeyCode::KeyT)
    } else if eq_str(v, "U") {
        Some(KeyCode::KeyU)
    } else if eq_str(v, "V") {
        Some(KeyCode::KeyV)
    } else if eq_str(v, "W") {
        Some(KeyCode::KeyW)
    } else if eq_str(v, "X") {
        Some(KeyCode::KeyX)
    } else if eq_str(v, "Y") {
        Some(KeyCode::KeyY)
    } else if eq_str(v, "Z") {
        Some(KeyCode::KeyZ)
    } else if eq_str(v, "0") {
        Some(KeyCode::Num0)
    } else if eq_str(v, "1") {
        Some(KeyCode::Num1)
    } else if eq_str(v, "2") {
        Some(KeyCode::Num2)
    } else if eq_str(v, "3") {
        Some(KeyCode::Num3)
    } else if eq_str(v, "4") {
        Some(KeyCode::Num4)
    } else if eq_str(v, "5") {
        Some(KeyCode::Num5)
    } else if eq_str(v, "6") {
        Some(KeyCode::Num6)
    } else if eq_str(v, "7") {
        Some(KeyCode::Num7)
    } else if eq_str(v, "8") {
        Some(KeyCode::Num8)
    } else if eq_str(v, "9") {
        Some(KeyCode::Num9)
    } else if eq_str(v, "ENTER") || eq_str(v, "RETURN") {
        Some(KeyCode::Return)
    } else if eq_str(v, "ESC") || eq_str(v, "ESCAPE") {
        Some(KeyCode::Escape)
    } else if eq_str(v, "SPACE") {
        Some(KeyCode::Space)
    } else if eq_str(v, "TAB") {
        Some(KeyCode::Tab)
    } else if eq_str(v, "SHIFT") {
        Some(KeyCode::ShiftLeft)
    } else if eq_str(v, "CTRL") || eq_str(v, "CONTROL") {
        Some(KeyCode::ControlLeft)
    } else if eq_str(v, "ALT") {
        Some(KeyCode::Alt)
    } else if eq_str(v, "BACKSPACE") {
        Some(KeyCode::Backspace)
    } else if eq_str(v, "DELETE") {
        Some(KeyCode::Delete)
    } else if eq_str(v, "LEFT") {
        Some(KeyCode::LeftArrow)
    } else if eq_str(v, "RIGHT") {
        Some(KeyCode::RightArrow)
    } else if eq_str(v, "UP") {
        Some(KeyCode::UpArrow)
    } else if eq_str(v, "DOWN") {
        Some(KeyCode::DownArrow)
    } else if eq_str(v, "HOME") {
        Some(KeyCode::Home)
    } else if eq_str(v, "END") {
        Some(KeyCode::End)
    } else if eq_str(v, "PAGEUP") {
        Some(KeyCode::PageUp)
    } else if eq_str(v, "PAGEDOWN") {
        Some(KeyCode::PageDown)
    } else if eq_str(v, "PAUSE") {
        Some(KeyCode::Pause)
    } else if eq_str(v, "INS") || eq_str(v, "INSERT") {
        Some(KeyCode::Insert)
    } else if eq_str(v, "DEL") {
        Some(KeyCode::Delete)
    } else if eq_str(v, "FN") {
        Some(KeyCode::Function)
    } else if eq_str(v, "PRINTSCREEN") {
        Some(KeyCode::PrintScreen)
    } else if eq_str(v, "EQUALS") {
        Some(KeyCode::Equal)
    } else if eq_str(v, "MINUS") {
        Some(KeyCode::Minus)
    } else if eq_str(v, "COMMA") {
        Some(KeyCode::Comma)
    } else if eq_str(v, "SLASH") {
        Some(KeyCode::Slash)
    } else if eq_str(v, "LEFTBRACKET") {
        Some(KeyCode::LeftBracket)
    } else if eq_str(v, "RIGHTBRACKET") {
        Some(KeyCode::RightBracket)
    } else if eq_str(v, "LEFTARROW") {
        Some(KeyCode::LeftArrow)
    } else if eq_str(v, "RIGHTARROW") {
        Some(KeyCode::RightArrow)
    } else if eq_str(v, "UPARROW") {
        Some(KeyCode::UpArrow)
    } else if eq_str(v, "DOWNARROW") {
        Some(KeyCode::DownArrow)
    } else if eq_str(v, "F1") {
        Some(KeyCode::F1)
    } else if eq_str(v, "F2") {
        Some(KeyCode::F2)
    } else if eq_str(v, "F3") {
        Some(KeyCode::F3)
    } else if eq_str(v, "F4") {
        Some(KeyCode::F4)
    } else if eq_str(v, "F5") {
        Some(KeyCode::F5)
    } else if eq_str(v, "F6") {
        Some(KeyCode::F6)
    } else if eq_str(v, "F7") {
        Some(KeyCode::F7)
    } else if eq_str(v, "F8") {
        Some(KeyCode::F8)
    } else if eq_str(v, "F9") {
        Some(KeyCode::F9)
    } else if eq_str(v, "F10") {
        Some(KeyCode::F10)
    } else if eq_str(v, "F11") {
        Some(KeyCode::F11)
    } else if eq_str(v, "F12") {
        Some(KeyCode::F12)
    } else {
        None
    }
}

proof fn lemma_upper_char_class(c: char)
    ensures
        (spec_to_upper(c) == '+') == (c == '+'),
        is_space_char(spec_to_upper(c)) == is_space_char(c),
        spec_to_upper(spec_to_upper(c)) == spec_to_upper(c),
{
    if 'a' <= c && c <= 'z' {
        assert('A' <= spec_to_upper(c) && spec_to_upper(c) <= 'Z');
    }
}

proof fn lemma_upper_seq_idempotent(s: Seq<char>)
    ensures
        upper_seq(upper_seq(s)) == upper_seq(s),
{
    assert forall|i: int| 0 <= i < s.len() implies upper_seq(upper_seq(s))[i] == upper_seq(s)[i] by {
        lemma_upper_char_class(s[i]);
    }
    assert(upper_seq(upper_seq(s)) =~= upper_seq(s));
}

proof fn lemma_after_last_plus_upper(s: Seq<char>)
    ensures
        after_last_plus(upper_seq(s)) == upper_seq(after_last_plus(s)),
    decreases s.len(),
{
    let u = upper_seq(s);
    if s.len() == 0 {
        assert(after_last_plus(u) =~= upper_seq(after_last_plus(s)));
    } else {
        lemma_upper_char_class(s.last());
        if s.last() == '+' {
            assert(after_last_plus(u) =~= upper_seq(after_last_plus(s)));
        } else {
            lemma_after_last_plus_upper(s.drop_last());
            assert(u.drop_last() =~= upper_seq(s.drop_last()));
            assert(after_last_plus(u) =~= upper_seq(after_last_plus(s)));
        }
    }
}

proof fn lemma_trim_start_upper(s: Seq<char>)
    ensures
        trim_start(upper_seq(s)) == upper_seq(trim_start(s)),
    decreases s.len(),
{
    let u = upper_seq(s);
    if s.len() == 0 {
        assert(trim_start(u) =~= upper_seq(trim_start(s)));
    } else {
        lemma_upper_char_class(s.first());
        if is_space_char(s.first()) {
            lemma_trim_start_upper(s.drop_first());
            assert(u.drop_first() =~= upper_seq(s.drop_first()));
        }
    }
}

proof fn lemma_trim_end_upper(s: Seq<char>)
    ensures
        trim_end(upper_seq(s)) == upper_seq(trim_end(s)),
    decreases s.len(),
{
    let u = upper_seq(s);
    if s.len() == 0 {
        assert(trim_end(u) =~= upper_seq(trim_end(s)));
    } else {
        lemma_upper_char_class(s.last());
        if is_space_char(s.last()) {
            lemma_trim_end_upper(s.drop_last());
            assert(u.drop_last() =~= upper_seq(s.drop_last()));
        }
    }
}

/// Parsing a bind string is case-insensitive: changing any letters of the
/// string to their uppercase form never changes the key it resolves to.
pub proof fn lemma_str_to_key_case_insensitive(s: Seq<char>)
    ensures
        spec_str_to_key(upper_seq(s)) == spec_str_to_key(s),
{
    lemma_after_last_plus_upper(s);
    let a = after_last_plus(s);
    lemma_trim_start_upper(a);
    lemma_trim_end_upper(trim_start(a));
    let t = trim_seq(a);
    assert(trim_seq(after_last_plus(upper_seq(s))) == upper_seq(t));
    if t.len() >= 3 {
        lemma_upper_char_class(t[0]);
        lemma_upper_char_class(t[1]);
        lemma_upper_char_class(t[2]);
    }
    assert(has_key_prefix(upper_seq(t)) == has_key_prefix(t));
    if has_key_prefix(t) {
        assert(upper_seq(t).skip(3) =~= upper_seq(t.skip(3)));
        lemma_trim_start_upper(t.skip(3));
        lemma_trim_end_upper(trim_start(t.skip(3)));
        let u2 = trim_seq(t.skip(3));
        lemma_upper_seq_idempotent(u2);
    } else {
        lemma_upper_seq_idempotent(t);
    }
}

/// A clean key token (no `+`, no whitespace, not itself starting with
/// `Key` in any case) resolves the same with and without a `Key` prefix:
/// `"KeyA"` names the same key as `"A"`.
pub proof fn lemma_key_prefix_ignored(s: Seq<char>)
    requires
        forall|i: int| 0 <= i < s.len() ==> s[i] != '+' && !is_space_char(s[i]),
        !has_key_prefix(s),
    ensures
        spec_str_to_key("Key"@ + s) == spec_str_to_key(s),
{
    reveal_strlit("Key");
    let w = "Key"@ + s;
    assert(w.len() == 3 + s.len());
    assert(w[0] == 'K' && w[1] == 'e' && w[2] == 'y');
    assert(forall|i: int| 3 <= i < w.len() ==> w[i] == s[i - 3]);
    lemma_after_last_plus_no_plus(w);
    lemma_trim_start_at(w, 0);
    lemma_trim_end_at(w, w.len() as int);
    assert(w.skip(0) =~= w);
    assert(w.take(w.len() as int) =~= w);
    assert(trim_seq(w) == w);
    assert(has_key_prefix(w));
    assert(w.skip(3) =~= s);
    lemma_trim_start_at(s, 0);
    lemma_trim_end_at(s, s.len() as int);
    assert(s.skip(0) =~= s);
    assert(s.take(s.len() as int) =~= s);
    assert(trim_seq(s) == s);
    lemma_after_last_plus_no_plus(s);
}

/// Resolve a configured bind string to a key code, or `None` when it names
/// no key in the table ("binding disabled").
pub fn str_to_key(s: &str) -> (r: Option<KeyCode>)
    ensures
        r == spec_str_to_key(s@),
{
    let chars = str_to_chars(s);
    let seg = last_segment(&chars);
    let tok = trim_chars(&seg);
    let stripped = strip_key_prefix_chars(&tok);
    let up = upper_chars(&stripped);
    key_lookup(&up)
}

/// The combo string recorded for a captured key press: the prefixes of the
/// held modifiers in the fixed order `Ctrl`, `Shift`, `Alt`, then the
/// key's name.
pub open spec fn spec_combo(ctrl: bool, shift: bool, alt: bool, key_name: Seq<char>) -> Seq<
    char,
> {
    (if ctrl {
        "Ctrl+"@
    } else {
        Seq::empty()
    }) + (if shift {
        "Shift+"@
    } else {
        Seq::empty()
    }) + (if alt {
        "Alt+"@
    } else {
        Seq::empty()
    }) + key_name
}

/// Build the combo string for a captured key press from the held modifiers
/// and the key's name.
pub fn combo_string(ctrl: bool, shift: bool, alt: bool, key_name: &str) -> (r: String)
    ensures
        r@ == spec_combo(ctrl, shift, alt, key_name@),
{
    let mut out = String::new();
    if ctrl {
        out.append("Ctrl+");
    }
    if shift {
        out.append("Shift+");
    }
    if alt {
        out.append("Alt+");
    }
    out.append(key_name);
    proof {
        assert(out@ =~= spec_combo(ctrl, shift, alt, key_name@));
    }
    out
}

} // verus!

