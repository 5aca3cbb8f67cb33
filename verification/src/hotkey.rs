//! Tracking of modifier state and matching key presses against binds.
//!
//! The OS-level keyboard hook reports raw key presses and releases on a
//! dedicated thread. The listener keeps three booleans for the held
//! modifiers and, on each press of a non-modifier key, fires one action per
//! configured bind whose key and required modifiers match exactly. A bind
//! requiring no modifiers only fires when none is held.

use vstd::prelude::*;
use vstd::string::StrSliceExecFns;
use crate::keys::{KeyCode, spec_str_to_key, str_to_chars, str_to_key};

verus! {

/// A playback action fired by a matched key press, sent from the key
/// listener to the playback dispatcher.
#[derive(Clone, Copy, Debug, PartialEq, Eq, Structural)]
pub enum KeyEvent {
    Toggle,
    Play,
    Pause,
    Next,
    Previous,
    Volup,
    Voldown,
    Mute,
}

/// A raw key notification from the OS-level hook.
#[derive(Clone, Copy, Debug, PartialEq, Eq, Structural)]
pub enum InputEvent {
    Press(KeyCode),
    Release(KeyCode),
}

/// Which modifier keys are currently held.
#[derive(Clone, Copy, Debug, PartialEq, Eq, Structural)]
pub struct ModState {
    pub ctrl: bool,
    pub shift: bool,
    pub alt: bool,
}

impl ModState {
    /// The state at startup: no modifier held.
    pub fn new() -> (r: ModState)
        ensures
            r == (ModState { ctrl: false, shift: false, alt: false }),
    {
        ModState { ctrl: false, shift: false, alt: false }
    }
}

/// Whether `needle` occurs in `hay` starting at position `i`.
pub open spec fn occurs_at(hay: Seq<char>, needle: Seq<char>, i: int) -> bool {
    0 <= i && i + needle.len() <= hay.len() && hay.subrange(i, i + needle.len()) == needle
}

/// Whether `needle` occurs anywhere in `hay` (case-sensitive).
pub open spec fn contains_seq(hay: Seq<char>, needle: Seq<char>) -> bool {
    exists|i: int| occurs_at(hay, needle, i)
}

fn matches_at(hay: &Vec<char>, needle: &str, i: usize) -> (b: bool)
    requires
        i + needle@.len() <= hay@.len(),
    ensures
        b == occurs_at(hay@, needle@, i as int),
{
    let n = needle.unicode_len();
    let m = hay.len();
    let mut j: usize = 0;
    while j < n
        invariant
            i + n <= m,
            m == hay@.len(),
            n == needle@.len(),
            j <= n,
            forall|t: int| 0 <= t < j ==> hay@[i + t] == needle@[t],
        decreases n - j,
    {
        let c = needle.get_char(j);
        if hay[i + j] != c {
            proof {
                if occurs_at(hay@, needle@, i as int) {
                    let jj = j as int;
                    assert(hay@.subrange(i as int, i + needle@.len())[jj] == needle@[jj]);
                }
            }
            return false;
        }
        j = j + 1;
    }
    proof {
        assert(hay@.subrange(i as int, i + needle@.len()) =~= needle@);
    }
    true
}

/// Whether the characters of `needle` occur, contiguously and in order,
/// anywhere in `hay`.
pub fn contains_sub(hay: &Vec<char>, needle: &str) -> (b: bool)
    ensures
        b == contains_seq(hay@, needle@),
{
    let n = needle.unicode_len();
    let m = hay.len();
    if n == 0 {
        proof {
            assert(hay@.subrange(0, 0) =~= needle@);
            assert(occurs_at(hay@, needle@, 0));
        }
        return true;
    }
    if n > m {
        proof {
            assert forall|t: int| !occurs_at(hay@, needle@, t) by {}
        }
        return false;
    }
    let mut i: usize = 0;
    while i <= m - n
        invariant
            1 <= n <= m,
            m == hay@.len(),
            n == needle@.len(),
            i <= m - n + 1,
            forall|t: int| 0 <= t < i ==> !occurs_at(hay@, needle@, t),
        decreases m - n - i + 1,
    {
        if matches_at(hay, needle, i) {
            return true;
        }
        i = i + 1;
    }
    proof {
        assert forall|t: int| !occurs_at(hay@, needle@, t) by {
            if 0 <= t && t + needle@.len() <= hay@.len() {
                assert(t < i);
            }
        }
    }
    false
}

/// One configured bind: the literal key (if the combo string names one)
/// and exactly which modifiers the combo string mentions.
#[derive(Clone, Copy, Debug, PartialEq, Eq, Structural)]
pub struct Bind {
    pub key: Option<KeyCode>,
    pub ctrl: bool,
    pub shift: bool,
    pub alt: bool,
}

impl Bind {
    /// The bind a combo string configures: its key token resolved through
    /// the lookup table, and a modifier required exactly when the string
    /// contains `Ctrl`, `Shift` or `Alt` (case-sensitive).
    pub open spec fn spec_parse(s: Seq<char>) -> Bind {
        Bind {
            key: spec_str_to_key(s),
            ctrl: contains_seq(s, "Ctrl"@),
            shift: contains_seq(s, "Shift"@),
            alt: contains_seq(s, "Alt"@),
        }
    }

    /// Parse a configured combo string into a bind.
    pub fn parse(s: &str) -> (b: Bind)
        ensures
            b == Bind::spec_parse(s@),
    {
        let chars = str_to_chars(s);
        Bind {
            key: str_to_key(s),
            ctrl: contains_sub(&chars, "Ctrl"),
            shift: contains_sub(&chars, "Shift"),
            alt: contains_sub(&chars, "Alt"),
        }
    }
}

/// The eight configured binds, one per playback action.
#[derive(Clone, Copy, Debug, PartialEq, Eq, Structural)]
pub struct BindSet {
    pub toggle: Bind,
    pub play: Bind,
    pub pause: Bind,
    pub next: Bind,
    pub previous: Bind,
    pub volup: Bind,
    pub voldown: Bind,
    pub mute: Bind,
}

impl BindSet {
    /// Parse the eight configured combo strings into a bind set.
    pub fn parse(
        toggle: &str,
        play: &str,
        pause: &str,
        next: &str,
        previous: &str,
        volup: &str,
        voldown: &str,
        mute: &str,
    ) -> (bs: BindSet)
        ensures
            bs.toggle == Bind::spec_parse(toggle@),
            bs.play == Bind::spec_parse(play@),
            bs.pause == Bind::spec_parse(pause@),
            bs.next == Bind::spec_parse(next@),
            bs.previous == Bind::spec_parse(previous@),
            bs.volup == Bind::spec_parse(volup@),
            bs.voldown == Bind::spec_parse(voldown@),
            bs.mute == Bind::spec_parse(mute@),
    {
        BindSet {
            toggle: Bind::parse(toggle),
            play: Bind::parse(play),
            pause: Bind::parse(pause),
            next: Bind::parse(next),
            previous: Bind::parse(previous),
            volup: Bind::parse(volup),
            voldown: Bind::parse(voldown),
            mute: Bind::parse(mute),
        }
    }
}

/// Whether this key is one of the tracked control keys.
pub open spec fn is_ctrl_key(k: KeyCode) -> bool {
    k == KeyCode::ControlLeft || k == KeyCode::ControlRight
}

/// Whether this key is one of the tracked shift keys.
pub open spec fn is_shift_key(k: KeyCode) -> bool {
    k == KeyCode::ShiftLeft || k == KeyCode::ShiftRight
}

/// Whether this key is the tracked alt key.
pub open spec fn is_alt_key(k: KeyCode) -> bool {
    k == KeyCode::Alt
}

/// Whether this key only updates the modifier state and never fires a bind.
pub open spec fn is_modifier_key(k: KeyCode) -> bool {
    is_ctrl_key(k) || is_shift_key(k) || is_alt_key(k)
}

/// The modifier state after observing one raw key event.
pub open spec fn spec_next_mods(st: ModState, ev: InputEvent) -> ModState {
    match ev {
        InputEvent::Press(k) => {
            if is_ctrl_key(k) {
                ModState { ctrl: true, ..st }
            } else if is_shift_key(k) {
                ModState { shift: true, ..st }
            } else if is_alt_key(k) {
                ModState { alt: true, ..st }
            } else {
                st
            }
        },
        InputEvent::Release(k) => {
            if is_ctrl_key(k) {
                ModState { ctrl: false, ..st }
            } else if is_shift_key(k) {
                ModState { shift: false, ..st }
            } else if is_alt_key(k) {
                ModState { alt: false, ..st }
            } else {
                st
            }
        },
    }
}

/// Whether a bind fires for a pressed non-modifier key under the given
/// modifier state: the key matches and each of ctrl/shift/alt is held
/// exactly when the bind requires it.
pub open spec fn bind_fires(b: Bind, k: KeyCode, st: ModState) -> bool {
    b.key == Some(k) && st.ctrl == b.ctrl && st.shift == b.shift && st.alt == b.alt
}

/// One action if the bind fires for this press, else nothing.
pub open spec fn fired(b: Bind, a: KeyEvent, k: KeyCode, st: ModState) -> Seq<KeyEvent> {
    if bind_fires(b, k, st) {
        seq![a]
    } else {
        Seq::empty()
    }
}

/// The actions fired for the press of a non-modifier key: one per matching
/// bind, in the fixed order toggle, play, pause, next, previous, volume up,
/// volume down, mute. Several binds matching the same press all fire.
pub open spec fn spec_press_actions(bs: BindSet, st: ModState, k: KeyCode) -> Seq<KeyEvent> {
    fired(bs.toggle, KeyEvent::Toggle, k, st) + fired(bs.play, KeyEvent::Play, k, st) + fired(
        bs.pause,
        KeyEvent::Pause,
        k,
        st,
    ) + fired(bs.next, KeyEvent::Next, k, st) + fired(bs.previous, KeyEvent::Previous, k, st)
        + fired(bs.volup, KeyEvent::Volup, k, st) + fired(bs.voldown, KeyEvent::Voldown, k, st)
        + fired(bs.mute, KeyEvent::Mute, k, st)
}

/// The actions fired for one raw key event: none for releases and for
/// modifier presses; for any other press, those of `spec_press_actions`.
pub open spec fn spec_actions(bs: BindSet, st: ModState, ev: InputEvent) -> Seq<KeyEvent> {
    match ev {
        InputEvent::Press(k) => {
            if is_modifier_key(k) {
                Seq::empty()
            } else {
                spec_press_actions(bs, st, k)
            }
        },
        InputEvent::Release(_) => Seq::empty(),
    }
}

fn key_matches(bk: &Option<KeyCode>, k: KeyCode) -> (b: bool)
    ensures
        b == (*bk == Some(k)),
{
    match bk {
        Some(x) => *x == k,
        None => false,
    }
}

fn fires(b: &Bind, k: KeyCode, st: &ModState) -> (r: bool)
    ensures
        r == bind_fires(*b, k, *st),
{
    key_matches(&b.key, k) && st.ctrl == b.ctrl && st.shift == b.shift && st.alt == b.alt
}

#[verifier::rlimit(100)]
fn press_actions(bs: &BindSet, st: &ModState, k: KeyCode) -> (acts: Vec<KeyEvent>)
    ensures
        acts@ == spec_press_actions(*bs, *st, k),
{
    let mut acts: Vec<KeyEvent> = Vec::new();
    let ghost p1 = fired(bs.toggle, KeyEvent::Toggle, k, *st);
    let ghost p2 = fired(bs.play, KeyEvent::Play, k, *st);
    let ghost p3 = fired(bs.pause, KeyEvent::Pause, k, *st);
    let ghost p4 = fired(bs.next, KeyEvent::Next, k, *st);
    let ghost p5 = fired(bs.previous, KeyEvent::Previous, k, *st);
    let ghost p6 = fired(bs.volup, KeyEvent::Volup, k, *st);
    let ghost p7 = fired(bs.voldown, KeyEvent::Voldown, k, *st);
    let ghost p8 = fired(bs.mute, KeyEvent::Mute, k, *st);
    if fires(&bs.toggle, k, st) {
        acts.push(KeyEvent::Toggle);
    }
    assert(acts@ =~= p1);
    if fires(&bs.play, k, st) {
        acts.push(KeyEvent::Play);
    }
    assert(acts@ =~= p1 + p2);
    if fires(&bs.pause, k, st) {
        acts.push(KeyEvent::Pause);
    }
    assert(acts@ =~= p1 + p2 + p3);
    if fires(&bs.next, k, st) {
        acts.push(KeyEvent::Next);
    }
    assert(acts@ =~= p1 + p2 + p3 + p4);
    if fires(&bs.previous, k, st) {
        acts.push(KeyEvent::Previous);
    }
    assert(acts@ =~= p1 + p2 + p3 + p4 + p5);
    if fires(&bs.volup, k, st) {
        acts.push(KeyEvent::Volup);
    }
    assert(acts@ =~= p1 + p2 + p3 + p4 + p5 + p6);
    if fires(&bs.voldown, k, st) {
        acts.push(KeyEvent::Voldown);
    }
    assert(acts@ =~= p1 + p2 + p3 + p4 + p5 + p6 + p7);
    if fires(&bs.mute, k, st) {
        acts.push(KeyEvent::Mute);
    }
    assert(acts@ =~= p1 + p2 + p3 + p4 + p5 + p6 + p7 + p8);
    acts
}

fn is_ctrl(k: KeyCode) -> (b: bool)
    ensures
        b == is_ctrl_key(k),
{
    k == KeyCode::ControlLeft || k == KeyCode::ControlRight
}

fn is_shift(k: KeyCode) -> (b: bool)
    ensures
        b == is_shift_key(k),
{
    k == KeyCode::ShiftLeft || k == KeyCode::ShiftRight
}

fn is_alt(k: KeyCode) -> (b: bool)
    ensures
        b == is_alt_key(k),
{
    k == KeyCode::Alt
}

/// Observe one raw key event: update the modifier state and return the
/// fired actions, in order.
pub fn listener_step(bs: &BindSet, st: &mut ModState, ev: InputEvent) -> (acts: Vec<KeyEvent>)
    ensures
        *final(st) == spec_next_mods(*old(st), ev),
        acts@ == spec_actions(*bs, *old(st), ev),
{
    match ev {
        InputEvent::Press(k) => {
            if is_ctrl(k) {
                st.ctrl = true;
                Vec::new()
            } else if is_shift(k) {
                st.shift = true;
                Vec::new()
            } else if is_alt(k) {
                st.alt = true;
                Vec::new()
            } else {
                press_actions(bs, st, k)
            }
        },
        InputEvent::Release(k) => {
            if is_ctrl(k) {
                st.ctrl = false;
            } else if is_shift(k) {
                st.shift = false;
            } else if is_alt(k) {
                st.alt = false;
            }
            Vec::new()
        },
    }
}

/// A bind requiring exactly `Ctrl` fires exactly once when its key is
/// pressed with ctrl held alone, and not at all when shift is additionally
/// held — provided no other configured bind resolves to the same key
/// (several binds on one key legitimately all fire).
#[verifier::rlimit(100)]
pub proof fn lemma_exact_modifier_match(bs: BindSet, k: KeyCode)
    requires
        !is_modifier_key(k),
        bs.toggle.key == Some(k),
        bs.toggle.ctrl,
        !bs.toggle.shift,
        !bs.toggle.alt,
        bs.play.key != Some(k),
        bs.pause.key != Some(k),
        bs.next.key != Some(k),
        bs.previous.key != Some(k),
        bs.volup.key != Some(k),
        bs.voldown.key != Some(k),
        bs.mute.key != Some(k),
    ensures
        spec_actions(bs, ModState { ctrl: true, shift: false, alt: false }, InputEvent::Press(k))
            == seq![KeyEvent::Toggle],
        spec_actions(bs, ModState { ctrl: true, shift: true, alt: false }, InputEvent::Press(k))
            == Seq::<KeyEvent>::empty(),
{
    let held = ModState { ctrl: true, shift: false, alt: false };
    let with_shift = ModState { ctrl: true, shift: true, alt: false };
    assert(bind_fires(bs.toggle, k, held));
    assert(!bind_fires(bs.toggle, k, with_shift));
    assert(spec_press_actions(bs, held, k) =~= seq![KeyEvent::Toggle]);
    assert(spec_press_actions(bs, with_shift, k) =~= Seq::<KeyEvent>::empty());
}

} // verus!
