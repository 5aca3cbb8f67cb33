//! The persisted records: application settings and credentials.
//!
//! Both records are flat JSON objects next to the executable. The reading
//! and writing of the files themselves is plain I/O and lives outside the
//! library; here are the records, their JSON text forms, and the proof
//! that loading what was saved yields the record back, field for field.

use vstd::prelude::*;
use vstd::string::StringExecFns;
use crate::keys::str_to_chars;
use crate::jsontext::{
    render_field, render_bool, render_string, render_u32, parse_field_bool_comma,
    parse_field_string_comma, parse_field_u32_comma, parse_field_u32, parse_field_string,
    parse_close, expect_char, skip_ws, p_skip_ws, p_expect_char, p_field_bool_comma,
    p_field_string_comma, p_field_u32_comma, p_field_u32, p_field_string, p_parse_close,
    push_bool, push_string, push_u32, push_field_name, push_lit, lemma_field_bool_comma_at,
    lemma_field_string_comma_at, lemma_field_u32_comma_at, lemma_field_u32_at,
    lemma_field_string_at, lemma_parse_close_at,
};

verus! {

/// Relies on std's `FromIterator` for `String` over `char`: collecting
/// characters builds the string of exactly those characters.
#[verifier::external_body]
fn chars_to_string(v: &Vec<char>) -> (r: String)
    ensures
        r@ == v@,
{
    v.iter().collect()
}

/// The mathematical content of the settings record.
pub struct AppSettingsView {
    pub start_on_login: bool,
    pub start_minimized: bool,
    pub start_in_bg: bool,
    pub toggle: Seq<char>,
    pub play: Seq<char>,
    pub pause: Seq<char>,
    pub next: Seq<char>,
    pub previous: Seq<char>,
    pub volup: Seq<char>,
    pub voldown: Seq<char>,
    pub mute: Seq<char>,
    pub volstepup: u32,
    pub volstepdown: u32,
}

/// The application settings: the startup switches, the eight configured
/// bind strings, and the two volume step amounts.
#[derive(Clone, Debug, PartialEq, Eq)]
pub struct AppSettings {
    pub start_on_login: bool,
    pub start_minimized: bool,
    pub start_in_bg: bool,
    pub toggle: String,
    pub play: String,
    pub pause: String,
    pub next: String,
    pub previous: String,
    pub volup: String,
    pub voldown: String,
    pub mute: String,
    pub volstepup: u32,
    pub volstepdown: u32,
}

impl View for AppSettings {
    type V = AppSettingsView;

    open spec fn view(&self) -> AppSettingsView {
        AppSettingsView {
            start_on_login: self.start_on_login,
            start_minimized: self.start_minimized,
            start_in_bg: self.start_in_bg,
            toggle: self.toggle@,
            play: self.play@,
            pause: self.pause@,
            next: self.next@,
            previous: self.previous@,
            volup: self.volup@,
            voldown: self.voldown@,
            mute: self.mute@,
            volstepup: self.volstepup,
            volstepdown: self.volstepdown,
        }
    }
}

impl Default for AppSettings {
    /// The record before anything was configured: everything off, every
    /// bind empty, both steps zero.
    fn default() -> (r: Self)
        ensures
            r@.start_on_login == false,
            r@.start_minimized == false,
            r@.start_in_bg == false,
            r@.toggle.len() == 0,
            r@.play.len() == 0,
            r@.pause.len() == 0,
            r@.next.len() == 0,
            r@.previous.len() == 0,
            r@.volup.len() == 0,
            r@.voldown.len() == 0,
            r@.mute.len() == 0,
            r@.volstepup == 0,
            r@.volstepdown == 0,
    {
        AppSettings {
            start_on_login: false,
            start_minimized: false,
            start_in_bg: false,
            toggle: String::new(),
            play: String::new(),
            pause: String::new(),
            next: String::new(),
            previous: String::new(),
            volup: String::new(),
            voldown: String::new(),
            mute: String::new(),
            volstepup: 0,
            volstepdown: 0,
        }
    }
}

/// The JSON text written for a settings record: one pretty-printed object
/// with the fields in their fixed order.
pub open spec fn render_settings(v: AppSettingsView) -> Seq<char> {
    seq!['{']
        + render_field("start_on_login"@, render_bool(v.start_on_login)) + seq![',']
        + render_field("start_minimized"@, render_bool(v.start_minimized)) + seq![',']
        + render_field("start_in_bg"@, render_bool(v.start_in_bg)) + seq![',']
        + render_field("toggle"@, render_string(v.toggle)) + seq![',']
        + render_field("play"@, render_string(v.play)) + seq![',']
        + render_field("pause"@, render_string(v.pause)) + seq![',']
        + render_field("next"@, render_string(v.next)) + seq![',']
        + render_field("previous"@, render_string(v.previous)) + seq![',']
        + render_field("volup"@, render_string(v.volup)) + seq![',']
        + render_field("voldown"@, render_string(v.voldown)) + seq![',']
        + render_field("mute"@, render_string(v.mute)) + seq![',']
        + render_field("volstepup"@, render_u32(v.volstepup)) + seq![',']
        + render_field("volstepdown"@, render_u32(v.volstepdown))
        + seq!['\n', '}']
}

/// What a JSON text parses to as a settings record: the object form that
/// the writer emits, with any whitespace between tokens; anything else is
/// refused.
pub open spec fn parse_settings(s: Seq<char>) -> Option<AppSettingsView> {
    match expect_char(s, skip_ws(s, 0), '{') {
        None => None,
        Some(i0) => match parse_field_bool_comma(s, i0, "start_on_login"@) {
            None => None,
            Some((x0, i1)) => match parse_field_bool_comma(s, i1, "start_minimized"@) {
                None => None,
                Some((x1, i2)) => match parse_field_bool_comma(s, i2, "start_in_bg"@) {
                    None => None,
                    Some((x2, i3)) => match parse_field_string_comma(s, i3, "toggle"@) {
                        None => None,
                        Some((x3, i4)) => match parse_field_string_comma(s, i4, "play"@) {
                            None => None,
                            Some((x4, i5)) => match parse_field_string_comma(s, i5, "pause"@) {
                                None => None,
                                Some((x5, i6)) => match parse_field_string_comma(s, i6, "next"@) {
                                    None => None,
                                    Some((x6, i7)) => match parse_field_string_comma(s, i7, "previous"@) {
                                        None => None,
                                        Some((x7, i8)) => match parse_field_string_comma(s, i8, "volup"@) {
                                            None => None,
                                            Some((x8, i9)) => match parse_field_string_comma(s, i9, "voldown"@) {
                                                None => None,
                                                Some((x9, i10)) => match parse_field_string_comma(s, i10, "mute"@) {
                                                    None => None,
                                                    Some((x10, i11)) => match parse_field_u32_comma(s, i11, "volstepup"@) {
                                                        None => None,
                                                        Some((x11, i12)) => match parse_field_u32(s, i12, "volstepdown"@) {
                                                            None => None,
                                                            Some((x12, i13)) => if parse_close(s, i13) {
                                                                Some(AppSettingsView {
                                                                    start_on_login: x0,
                                                                    start_minimized: x1,
                                                                    start_in_bg: x2,
                                                                    toggle: x3,
                                                                    play: x4,
                                                                    pause: x5,
                                                                    next: x6,
                                                                    previous: x7,
                                                                    volup: x8,
                                                                    voldown: x9,
                                                                    mute: x10,
                                                                    volstepup: x11,
                                                                    volstepdown: x12,
                                                                })
                                                            } else {
                                                                None
                                                            },
                                                        },
                                                    },
                                                },
                                            },
                                        },
                                    },
                                },
                            },
                        },
                    },
                },
            },
        },
    }
}

#[verifier::rlimit(100)]
proof fn lemma_settings_stage0(v: AppSettingsView)
    ensures
        ({
            let g0 = render_field("start_on_login"@, render_bool(v.start_on_login));
            let g1 = render_field("start_minimized"@, render_bool(v.start_minimized));
            let g2 = render_field("start_in_bg"@, render_bool(v.start_in_bg));
            let g3 = render_field("toggle"@, render_string(v.toggle));
            let g4 = render_field("play"@, render_string(v.play));
            let g5 = render_field("pause"@, render_string(v.pause));
            let g6 = render_field("next"@, render_string(v.next));
            let g7 = render_field("previous"@, render_string(v.previous));
            let g8 = render_field("volup"@, render_string(v.volup));
            let g9 = render_field("voldown"@, render_string(v.voldown));
            let g10 = render_field("mute"@, render_string(v.mute));
            let g11 = render_field("volstepup"@, render_u32(v.volstepup));
            let g12 = render_field("volstepdown"@, render_u32(v.volstepdown));
            let p = seq!['{'];
            parse_field_bool_comma(render_settings(v), p.len() as int, "start_on_login"@) == Some(
                (v.start_on_login, p.len() as int + g0.len() as int + 1),
            )
        }),
{
    let s = render_settings(v);
    let g0 = render_field("start_on_login"@, render_bool(v.start_on_login));
    let g1 = render_field("start_minimized"@, render_bool(v.start_minimized));
    let g2 = render_field("start_in_bg"@, render_bool(v.start_in_bg));
    let g3 = render_field("toggle"@, render_string(v.toggle));
    let g4 = render_field("play"@, render_string(v.play));
    let g5 = render_field("pause"@, render_string(v.pause));
    let g6 = render_field("next"@, render_string(v.next));
    let g7 = render_field("previous"@, render_string(v.previous));
    let g8 = render_field("volup"@, render_string(v.volup));
    let g9 = render_field("voldown"@, render_string(v.voldown));
    let g10 = render_field("mute"@, render_string(v.mute));
    let g11 = render_field("volstepup"@, render_u32(v.volstepup));
    let g12 = render_field("volstepdown"@, render_u32(v.volstepdown));
    let p = seq!['{'];
    let rest = g1 + seq![','] + g2 + seq![','] + g3 + seq![','] + g4 + seq![','] + g5 + seq![','] + g6 + seq![','] + g7 + seq![','] + g8 + seq![','] + g9 + seq![','] + g10 + seq![','] + g11 + seq![','] + g12 + seq!['\n', '}'];
    assert(s =~= p + g0 + seq![','] + rest);
    lemma_field_bool_comma_at(p, "start_on_login"@, v.start_on_login, rest);
}

#[verifier::rlimit(100)]
proof fn lemma_settings_stage1(v: AppSettingsView)
    ensures
        ({
            let g0 = render_field("start_on_login"@, render_bool(v.start_on_login));
            let g1 = render_field("start_minimized"@, render_bool(v.start_minimized));
            let g2 = render_field("start_in_bg"@, render_bool(v.start_in_bg));
            let g3 = render_field("toggle"@, render_string(v.toggle));
            let g4 = render_field("play"@, render_string(v.play));
            let g5 = render_field("pause"@, render_string(v.pause));
            let g6 = render_field("next"@, render_string(v.next));
            let g7 = render_field("previous"@, render_string(v.previous));
            let g8 = render_field("volup"@, render_string(v.volup));
            let g9 = render_field("voldown"@, render_string(v.voldown));
            let g10 = render_field("mute"@, render_string(v.mute));
            let g11 = render_field("volstepup"@, render_u32(v.volstepup));
            let g12 = render_field("volstepdown"@, render_u32(v.volstepdown));
            let p = seq!['{'] + g0 + seq![','];
            parse_field_bool_comma(render_settings(v), p.len() as int, "start_minimized"@) == Some(
                (v.start_minimized, p.len() as int + g1.len() as int + 1),
            )
        }),
{
    let s = render_settings(v);
    let g0 = render_field("start_on_login"@, render_bool(v.start_on_login));
    let g1 = render_field("start_minimized"@, render_bool(v.start_minimized));
    let g2 = render_field("start_in_bg"@, render_bool(v.start_in_bg));
    let g3 = render_field("toggle"@, render_string(v.toggle));
    let g4 = render_field("play"@, render_string(v.play));
    let g5 = render_field("pause"@, render_string(v.pause));
    let g6 = render_field("next"@, render_string(v.next));
    let g7 = render_field("previous"@, render_string(v.previous));
    let g8 = render_field("volup"@, render_string(v.volup));
    let g9 = render_field("voldown"@, render_string(v.voldown));
    let g10 = render_field("mute"@, render_string(v.mute));
    let g11 = render_field("volstepup"@, render_u32(v.volstepup));
    let g12 = render_field("volstepdown"@, render_u32(v.volstepdown));
    let p = seq!['{'] + g0 + seq![','];
    let rest = g2 + seq![','] + g3 + seq![','] + g4 + seq![','] + g5 + seq![','] + g6 + seq![','] + g7 + seq![','] + g8 + seq![','] + g9 + seq![','] + g10 + seq![','] + g11 + seq![','] + g12 + seq!['\n', '}'];
    assert(s =~= p + g1 + seq![','] + rest);
    lemma_field_bool_comma_at(p, "start_minimized"@, v.start_minimized, rest);
}

#[verifier::rlimit(100)]
proof fn lemma_settings_stage2(v: AppSettingsView)
    ensures
        ({
            let g0 = render_field("start_on_login"@, render_bool(v.start_on_login));
            let g1 = render_field("start_minimized"@, render_bool(v.start_minimized));
            let g2 = render_field("start_in_bg"@, render_bool(v.start_in_bg));
            let g3 = render_field("toggle"@, render_string(v.toggle));
            let g4 = render_field("play"@, render_string(v.play));
            let g5 = render_field("pause"@, render_string(v.pause));
            let g6 = render_field("next"@, render_string(v.next));
            let g7 = render_field("previous"@, render_string(v.previous));
            let g8 = render_field("volup"@, render_string(v.volup));
            let g9 = render_field("voldown"@, render_string(v.voldown));
            let g10 = render_field("mute"@, render_string(v.mute));
            let g11 = render_field("volstepup"@, render_u32(v.volstepup));
            let g12 = render_field("volstepdown"@, render_u32(v.volstepdown));
            let p = seq!['{'] + g0 + seq![','] + g1 + seq![','];
            parse_field_bool_comma(render_settings(v), p.len() as int, "start_in_bg"@) == Some(
                (v.start_in_bg, p.len() as int + g2.len() as int + 1),
            )
        }),
{
    let s = render_settings(v);
    let g0 = render_field("start_on_login"@, render_bool(v.start_on_login));
    let g1 = render_field("start_minimized"@, render_bool(v.start_minimized));
    let g2 = render_field("start_in_bg"@, render_bool(v.start_in_bg));
    let g3 = render_field("toggle"@, render_string(v.toggle));
    let g4 = render_field("play"@, render_string(v.play));
    let g5 = render_field("pause"@, render_string(v.pause));
    let g6 = render_field("next"@, render_string(v.next));
    let g7 = render_field("previous"@, render_string(v.previous));
    let g8 = render_field("volup"@, render_string(v.volup));
    let g9 = render_field("voldown"@, render_string(v.voldown));
    let g10 = render_field("mute"@, render_string(v.mute));
    let g11 = render_field("volstepup"@, render_u32(v.volstepup));
    let g12 = render_field("volstepdown"@, render_u32(v.volstepdown));
    let p = seq!['{'] + g0 + seq![','] + g1 + seq![','];
    let rest = g3 + seq![','] + g4 + seq![','] + g5 + seq![','] + g6 + seq![','] + g7 + seq![','] + g8 + seq![','] + g9 + seq![','] + g10 + seq![','] + g11 + seq![','] + g12 + seq!['\n', '}'];
    assert(s =~= p + g2 + seq![','] + rest);
    lemma_field_bool_comma_at(p, "start_in_bg"@, v.start_in_bg, rest);
}

#[verifier::rlimit(100)]
proof fn lemma_settings_stage3(v: AppSettingsView)
    ensures
        ({
            let g0 = render_field("start_on_login"@, render_bool(v.start_on_login));
            let g1 = render_field("start_minimized"@, render_bool(v.start_minimized));
            let g2 = render_field("start_in_bg"@, render_bool(v.start_in_bg));
            let g3 = render_field("toggle"@, render_string(v.toggle));
            let g4 = render_field("play"@, render_string(v.play));
            let g5 = render_field("pause"@, render_string(v.pause));
            let g6 = render_field("next"@, render_string(v.next));
            let g7 = render_field("previous"@, render_string(v.previous));
            let g8 = render_field("volup"@, render_string(v.volup));
            let g9 = render_field("voldown"@, render_string(v.voldown));
            let g10 = render_field("mute"@, render_string(v.mute));
            let g11 = render_field("volstepup"@, render_u32(v.volstepup));
            let g12 = render_field("volstepdown"@, render_u32(v.volstepdown));
            let p = seq!['{'] + g0 + seq![','] + g1 + seq![','] + g2 + seq![','];
            parse_field_string_comma(render_settings(v), p.len() as int, "toggle"@) == Some(
                (v.toggle, p.len() as int + g3.len() as int + 1),
            )
        }),
{
    let s = render_settings(v);
    let g0 = render_field("start_on_login"@, render_bool(v.start_on_login));
    let g1 = render_field("start_minimized"@, render_bool(v.start_minimized));
    let g2 = render_field("start_in_bg"@, render_bool(v.start_in_bg));
    let g3 = render_field("toggle"@, render_string(v.toggle));
    let g4 = render_field("play"@, render_string(v.play));
    let g5 = render_field("pause"@, render_string(v.pause));
    let g6 = render_field("next"@, render_string(v.next));
    let g7 = render_field("previous"@, render_string(v.previous));
    let g8 = render_field("volup"@, render_string(v.volup));
    let g9 = render_field("voldown"@, render_string(v.voldown));
    let g10 = render_field("mute"@, render_string(v.mute));
    let g11 = render_field("volstepup"@, render_u32(v.volstepup));
    let g12 = render_field("volstepdown"@, render_u32(v.volstepdown));
    let p = seq!['{'] + g0 + seq![','] + g1 + seq![','] + g2 + seq![','];
    let rest = g4 + seq![','] + g5 + seq![','] + g6 + seq![','] + g7 + seq![','] + g8 + seq![','] + g9 + seq![','] + g10 + seq![','] + g11 + seq![','] + g12 + seq!['\n', '}'];
    assert(s =~= p + g3 + seq![','] + rest);
    lemma_field_string_comma_at(p, "toggle"@, v.toggle, rest);
}

#[verifier::rlimit(100)]
proof fn lemma_settings_stage4(v: AppSettingsView)
    ensures
        ({
            let g0 = render_field("start_on_login"@, render_bool(v.start_on_login));
            let g1 = render_field("start_minimized"@, render_bool(v.start_minimized));
            let g2 = render_field("start_in_bg"@, render_bool(v.start_in_bg));
            let g3 = render_field("toggle"@, render_string(v.toggle));
            let g4 = render_field("play"@, render_string(v.play));
            let g5 = render_field("pause"@, render_string(v.pause));
            let g6 = render_field("next"@, render_string(v.next));
            let g7 = render_field("previous"@, render_string(v.previous));
            let g8 = render_field("volup"@, render_string(v.volup));
            let g9 = render_field("voldown"@, render_string(v.voldown));
            let g10 = render_field("mute"@, render_string(v.mute));
            let g11 = render_field("volstepup"@, render_u32(v.volstepup));
            let g12 = render_field("volstepdown"@, render_u32(v.volstepdown));
            let p = seq!['{'] + g0 + seq![','] + g1 + seq![','] + g2 + seq![','] + g3 + seq![','];
            parse_field_string_comma(render_settings(v), p.len() as int, "play"@) == Some(
                (v.play, p.len() as int + g4.len() as int + 1),
            )
        }),
{
    let s = render_settings(v);
    let g0 = render_field("start_on_login"@, render_bool(v.start_on_login));
    let g1 = render_field("start_minimized"@, render_bool(v.start_minimized));
    let g2 = render_field("start_in_bg"@, render_bool(v.start_in_bg));
    let g3 = render_field("toggle"@, render_string(v.toggle));
    let g4 = render_field("play"@, render_string(v.play));
    let g5 = render_field("pause"@, render_string(v.pause));
    let g6 = render_field("next"@, render_string(v.next));
    let g7 = render_field("previous"@, render_string(v.previous));
    let g8 = render_field("volup"@, render_string(v.volup));
    let g9 = render_field("voldown"@, render_string(v.voldown));
    let g10 = render_field("mute"@, render_string(v.mute));
    let g11 = render_field("volstepup"@, render_u32(v.volstepup));
    let g12 = render_field("volstepdown"@, render_u32(v.volstepdown));
    let p = seq!['{'] + g0 + seq![','] + g1 + seq![','] + g2 + seq![','] + g3 + seq![','];
    let rest = g5 + seq![','] + g6 + seq![','] + g7 + seq![','] + g8 + seq![','] + g9 + seq![','] + g10 + seq![','] + g11 + seq![','] + g12 + seq!['\n', '}'];
    assert(s =~= p + g4 + seq![','] + rest);
    lemma_field_string_comma_at(p, "play"@, v.play, rest);
}

#[verifier::rlimit(100)]
proof fn lemma_settings_stage5(v: AppSettingsView)
    ensures
        ({
            let g0 = render_field("start_on_login"@, render_bool(v.start_on_login));
            let g1 = render_field("start_minimized"@, render_bool(v.start_minimized));
            let g2 = render_field("start_in_bg"@, render_bool(v.start_in_bg));
            let g3 = render_field("toggle"@, render_string(v.toggle));
            let g4 = render_field("play"@, render_string(v.play));
            let g5 = render_field("pause"@, render_string(v.pause));
            let g6 = render_field("next"@, render_string(v.next));
            let g7 = render_field("previous"@, render_string(v.previous));
            let g8 = render_field("volup"@, render_string(v.volup));
            let g9 = render_field("voldown"@, render_string(v.voldown));
            let g10 = render_field("mute"@, render_string(v.mute));
            let g11 = render_field("volstepup"@, render_u32(v.volstepup));
            let g12 = render_field("volstepdown"@, render_u32(v.volstepdown));
            let p = seq!['{'] + g0 + seq![','] + g1 + seq![','] + g2 + seq![','] + g3 + seq![','] + g4 + seq![','];
            parse_field_string_comma(render_settings(v), p.len() as int, "pause"@) == Some(
                (v.pause, p.len() as int + g5.len() as int + 1),
            )
        }),
{
    let s = render_settings(v);
    let g0 = render_field("start_on_login"@, render_bool(v.start_on_login));
    let g1 = render_field("start_minimized"@, render_bool(v.start_minimized));
    let g2 = render_field("start_in_bg"@, render_bool(v.start_in_bg));
    let g3 = render_field("toggle"@, render_string(v.toggle));
    let g4 = render_field("play"@, render_string(v.play));
    let g5 = render_field("pause"@, render_string(v.pause));
    let g6 = render_field("next"@, render_string(v.next));
    let g7 = render_field("previous"@, render_string(v.previous));
    let g8 = render_field("volup"@, render_string(v.volup));
    let g9 = render_field("voldown"@, render_string(v.voldown));
    let g10 = render_field("mute"@, render_string(v.mute));
    let g11 = render_field("volstepup"@, render_u32(v.volstepup));
    let g12 = render_field("volstepdown"@, render_u32(v.volstepdown));
    let p = seq!['{'] + g0 + seq![','] + g1 + seq![','] + g2 + seq![','] + g3 + seq![','] + g4 + seq![','];
    let rest = g6 + seq![','] + g7 + seq![','] + g8 + seq![','] + g9 + seq![','] + g10 + seq![','] + g11 + seq![','] + g12 + seq!['\n', '}'];
    assert(s =~= p + g5 + seq![','] + rest);
    lemma_field_string_comma_at(p, "pause"@, v.pause, rest);
}

#[verifier::rlimit(100)]
proof fn lemma_settings_stage6(v: AppSettingsView)
    ensures
        ({
            let g0 = render_field("start_on_login"@, render_bool(v.start_on_login));
            let g1 = render_field("start_minimized"@, render_bool(v.start_minimized));
            let g2 = render_field("start_in_bg"@, render_bool(v.start_in_bg));
            let g3 = render_field("toggle"@, render_string(v.toggle));
            let g4 = render_field("play"@, render_string(v.play));
            let g5 = render_field("pause"@, render_string(v.pause));
            let g6 = render_field("next"@, render_string(v.next));
            let g7 = render_field("previous"@, render_string(v.previous));
            let g8 = render_field("volup"@, render_string(v.volup));
            let g9 = render_field("voldown"@, render_string(v.voldown));
            let g10 = render_field("mute"@, render_string(v.mute));
            let g11 = render_field("volstepup"@, render_u32(v.volstepup));
            let g12 = render_field("volstepdown"@, render_u32(v.volstepdown));
            let p = seq!['{'] + g0 + seq![','] + g1 + seq![','] + g2 + seq![','] + g3 + seq![','] + g4 + seq![','] + g5 + seq![','];
            parse_field_string_comma(render_settings(v), p.len() as int, "next"@) == Some(
                (v.next, p.len() as int + g6.len() as int + 1),
            )
        }),
{
    let s = render_settings(v);
    let g0 = render_field("start_on_login"@, render_bool(v.start_on_login));
    let g1 = render_field("start_minimized"@, render_bool(v.start_minimized));
    let g2 = render_field("start_in_bg"@, render_bool(v.start_in_bg));
    let g3 = render_field("toggle"@, render_string(v.toggle));
    let g4 = render_field("play"@, render_string(v.play));
    let g5 = render_field("pause"@, render_string(v.pause));
    let g6 = render_field("next"@, render_string(v.next));
    let g7 = render_field("previous"@, render_string(v.previous));
    let g8 = render_field("volup"@, render_string(v.volup));
    let g9 = render_field("voldown"@, render_string(v.voldown));
    let g10 = render_field("mute"@, render_string(v.mute));
    let g11 = render_field("volstepup"@, render_u32(v.volstepup));
    let g12 = render_field("volstepdown"@, render_u32(v.volstepdown));
    let p = seq!['{'] + g0 + seq![','] + g1 + seq![','] + g2 + seq![','] + g3 + seq![','] + g4 + seq![','] + g5 + seq![','];
    let rest = g7 + seq![','] + g8 + seq![','] + g9 + seq![','] + g10 + seq![','] + g11 + seq![','] + g12 + seq!['\n', '}'];
    assert(s =~= p + g6 + seq![','] + rest);
    lemma_field_string_comma_at(p, "next"@, v.next, rest);
}

#[verifier::rlimit(100)]
proof fn lemma_settings_stage7(v: AppSettingsView)
    ensures
        ({
            let g0 = render_field("start_on_login"@, render_bool(v.start_on_login));
            let g1 = render_field("start_minimized"@, render_bool(v.start_minimized));
            let g2 = render_field("start_in_bg"@, render_bool(v.start_in_bg));
            let g3 = render_field("toggle"@, render_string(v.toggle));
            let g4 = render_field("play"@, render_string(v.play));
            let g5 = render_field("pause"@, render_string(v.pause));
            let g6 = render_field("next"@, render_string(v.next));
            let g7 = render_field("previous"@, render_string(v.previous));
            let g8 = render_field("volup"@, render_string(v.volup));
            let g9 = render_field("voldown"@, render_string(v.voldown));
            let g10 = render_field("mute"@, render_string(v.mute));
            let g11 = render_field("volstepup"@, render_u32(v.volstepup));
            let g12 = render_field("volstepdown"@, render_u32(v.volstepdown));
            let p = seq!['{'] + g0 + seq![','] + g1 + seq![','] + g2 + seq![','] + g3 + seq![','] + g4 + seq![','] + g5 + seq![','] + g6 + seq![','];
            parse_field_string_comma(render_settings(v), p.len() as int, "previous"@) == Some(
                (v.previous, p.len() as int + g7.len() as int + 1),
            )
        }),
{
    let s = render_settings(v);
    let g0 = render_field("start_on_login"@, render_bool(v.start_on_login));
    let g1 = render_field("start_minimized"@, render_bool(v.start_minimized));
    let g2 = render_field("start_in_bg"@, render_bool(v.start_in_bg));
    let g3 = render_field("toggle"@, render_string(v.toggle));
    let g4 = render_field("play"@, render_string(v.play));
    let g5 = render_field("pause"@, render_string(v.pause));
    let g6 = render_field("next"@, render_string(v.next));
    let g7 = render_field("previous"@, render_string(v.previous));
    let g8 = render_field("volup"@, render_string(v.volup));
    let g9 = render_field("voldown"@, render_string(v.voldown));
    let g10 = render_field("mute"@, render_string(v.mute));
    let g11 = render_field("volstepup"@, render_u32(v.volstepup));
    let g12 = render_field("volstepdown"@, render_u32(v.volstepdown));
    let p = seq!['{'] + g0 + seq![','] + g1 + seq![','] + g2 + seq![','] + g3 + seq![','] + g4 + seq![','] + g5 + seq![','] + g6 + seq![','];
    let rest = g8 + seq![','] + g9 + seq![','] + g10 + seq![','] + g11 + seq![','] + g12 + seq!['\n', '}'];
    assert(s =~= p + g7 + seq![','] + rest);
    lemma_field_string_comma_at(p, "previous"@, v.previous, rest);
}

#[verifier::rlimit(100)]
proof fn lemma_settings_stage8(v: AppSettingsView)
    ensures
        ({
            let g0 = render_field("start_on_login"@, render_bool(v.start_on_login));
            let g1 = render_field("start_minimized"@, render_bool(v.start_minimized));
            let g2 = render_field("start_in_bg"@, render_bool(v.start_in_bg));
            let g3 = render_field("toggle"@, render_string(v.toggle));
            let g4 = render_field("play"@, render_string(v.play));
            let g5 = render_field("pause"@, render_string(v.pause));
            let g6 = render_field("next"@, render_string(v.next));
            let g7 = render_field("previous"@, render_string(v.previous));
            let g8 = render_field("volup"@, render_string(v.volup));
            let g9 = render_field("voldown"@, render_string(v.voldown));
            let g10 = render_field("mute"@, render_string(v.mute));
            let g11 = render_field("volstepup"@, render_u32(v.volstepup));
            let g12 = render_field("volstepdown"@, render_u32(v.volstepdown));
            let p = seq!['{'] + g0 + seq![','] + g1 + seq![','] + g2 + seq![','] + g3 + seq![','] + g4 + seq![','] + g5 + seq![','] + g6 + seq![','] + g7 + seq![','];
            parse_field_string_comma(render_settings(v), p.len() as int, "volup"@) == Some(
                (v.volup, p.len() as int + g8.len() as int + 1),
            )
        }),
{
    let s = render_settings(v);
    let g0 = render_field("start_on_login"@, render_bool(v.start_on_login));
    let g1 = render_field("start_minimized"@, render_bool(v.start_minimized));
    let g2 = render_field("start_in_bg"@, render_bool(v.start_in_bg));
    let g3 = render_field("toggle"@, render_string(v.toggle));
    let g4 = render_field("play"@, render_string(v.play));
    let g5 = render_field("pause"@, render_string(v.pause));
    let g6 = render_field("next"@, render_string(v.next));
    let g7 = render_field("previous"@, render_string(v.previous));
    let g8 = render_field("volup"@, render_string(v.volup));
    let g9 = render_field("voldown"@, render_string(v.voldown));
    let g10 = render_field("mute"@, render_string(v.mute));
    let g11 = render_field("volstepup"@, render_u32(v.volstepup));
    let g12 = render_field("volstepdown"@, render_u32(v.volstepdown));
    let p = seq!['{'] + g0 + seq![','] + g1 + seq![','] + g2 + seq![','] + g3 + seq![','] + g4 + seq![','] + g5 + seq![','] + g6 + seq![','] + g7 + seq![','];
    let rest = g9 + seq![','] + g10 + seq![','] + g11 + seq![','] + g12 + seq!['\n', '}'];
    assert(s =~= p + g8 + seq![','] + rest);
    lemma_field_string_comma_at(p, "volup"@, v.volup, rest);
}

#[verifier::rlimit(100)]
proof fn lemma_settings_stage9(v: AppSettingsView)
    ensures
        ({
            let g0 = render_field("start_on_login"@, render_bool(v.start_on_login));
            let g1 = render_field("start_minimized"@, render_bool(v.start_minimized));
            let g2 = render_field("start_in_bg"@, render_bool(v.start_in_bg));
            let g3 = render_field("toggle"@, render_string(v.toggle));
            let g4 = render_field("play"@, render_string(v.play));
            let g5 = render_field("pause"@, render_string(v.pause));
            let g6 = render_field("next"@, render_string(v.next));
            let g7 = render_field("previous"@, render_string(v.previous));
            let g8 = render_field("volup"@, render_string(v.volup));
            let g9 = render_field("voldown"@, render_string(v.voldown));
            let g10 = render_field("mute"@, render_string(v.mute));
            let g11 = render_field("volstepup"@, render_u32(v.volstepup));
            let g12 = render_field("volstepdown"@, render_u32(v.volstepdown));
            let p = seq!['{'] + g0 + seq![','] + g1 + seq![','] + g2 + seq![','] + g3 + seq![','] + g4 + seq![','] + g5 + seq![','] + g6 + seq![','] + g7 + seq![','] + g8 + seq![','];
            parse_field_string_comma(render_settings(v), p.len() as int, "voldown"@) == Some(
                (v.voldown, p.len() as int + g9.len() as int + 1),
            )
        }),
{
    let s = render_settings(v);
    let g0 = render_field("start_on_login"@, render_bool(v.start_on_login));
    let g1 = render_field("start_minimized"@, render_bool(v.start_minimized));
    let g2 = render_field("start_in_bg"@, render_bool(v.start_in_bg));
    let g3 = render_field("toggle"@, render_string(v.toggle));
    let g4 = render_field("play"@, render_string(v.play));
    let g5 = render_field("pause"@, render_string(v.pause));
    let g6 = render_field("next"@, render_string(v.next));
    let g7 = render_field("previous"@, render_string(v.previous));
    let g8 = render_field("volup"@, render_string(v.volup));
    let g9 = render_field("voldown"@, render_string(v.voldown));
    let g10 = render_field("mute"@, render_string(v.mute));
    let g11 = render_field("volstepup"@, render_u32(v.volstepup));
    let g12 = render_field("volstepdown"@, render_u32(v.volstepdown));
    let p = seq!['{'] + g0 + seq![','] + g1 + seq![','] + g2 + seq![','] + g3 + seq![','] + g4 + seq![','] + g5 + seq![','] + g6 + seq![','] + g7 + seq![','] + g8 + seq![','];
    let rest = g10 + seq![','] + g11 + seq![','] + g12 + seq!['\n', '}'];
    assert(s =~= p + g9 + seq![','] + rest);
    lemma_field_string_comma_at(p, "voldown"@, v.voldown, rest);
}

#[verifier::rlimit(100)]
proof fn lemma_settings_stage10(v: AppSettingsView)
    ensures
        ({
            let g0 = render_field("start_on_login"@, render_bool(v.start_on_login));
            let g1 = render_field("start_minimized"@, render_bool(v.start_minimized));
            let g2 = render_field("start_in_bg"@, render_bool(v.start_in_bg));
            let g3 = render_field("toggle"@, render_string(v.toggle));
            let g4 = render_field("play"@, render_string(v.play));
            let g5 = render_field("pause"@, render_string(v.pause));
            let g6 = render_field("next"@, render_string(v.next));
            let g7 = render_field("previous"@, render_string(v.previous));
            let g8 = render_field("volup"@, render_string(v.volup));
            let g9 = render_field("voldown"@, render_string(v.voldown));
            let g10 = render_field("mute"@, render_string(v.mute));
            let g11 = render_field("volstepup"@, render_u32(v.volstepup));
            let g12 = render_field("volstepdown"@, render_u32(v.volstepdown));
            let p = seq!['{'] + g0 + seq![','] + g1 + seq![','] + g2 + seq![','] + g3 + seq![','] + g4 + seq![','] + g5 + seq![','] + g6 + seq![','] + g7 + seq![','] + g8 + seq![','] + g9 + seq![','];
            parse_field_string_comma(render_settings(v), p.len() as int, "mute"@) == Some(
                (v.mute, p.len() as int + g10.len() as int + 1),
            )
        }),
{
    let s = render_settings(v);
    let g0 = render_field("start_on_login"@, render_bool(v.start_on_login));
    let g1 = render_field("start_minimized"@, render_bool(v.start_minimized));
    let g2 = render_field("start_in_bg"@, render_bool(v.start_in_bg));
    let g3 = render_field("toggle"@, render_string(v.toggle));
    let g4 = render_field("play"@, render_string(v.play));
    let g5 = render_field("pause"@, render_string(v.pause));
    let g6 = render_field("next"@, render_string(v.next));
    let g7 = render_field("previous"@, render_string(v.previous));
    let g8 = render_field("volup"@, render_string(v.volup));
    let g9 = render_field("voldown"@, render_string(v.voldown));
    let g10 = render_field("mute"@, render_string(v.mute));
    let g11 = render_field("volstepup"@, render_u32(v.volstepup));
    let g12 = render_field("volstepdown"@, render_u32(v.volstepdown));
    let p = seq!['{'] + g0 + seq![','] + g1 + seq![','] + g2 + seq![','] + g3 + seq![','] + g4 + seq![','] + g5 + seq![','] + g6 + seq![','] + g7 + seq![','] + g8 + seq![','] + g9 + seq![','];
    let rest = g11 + seq![','] + g12 + seq!['\n', '}'];
    assert(s =~= p + g10 + seq![','] + rest);
    lemma_field_string_comma_at(p, "mute"@, v.mute, rest);
}

#[verifier::rlimit(100)]
proof fn lemma_settings_stage11(v: AppSettingsView)
    ensures
        ({
            let g0 = render_field("start_on_login"@, render_bool(v.start_on_login));
            let g1 = render_field("start_minimized"@, render_bool(v.start_minimized));
            let g2 = render_field("start_in_bg"@, render_bool(v.start_in_bg));
            let g3 = render_field("toggle"@, render_string(v.toggle));
            let g4 = render_field("play"@, render_string(v.play));
            let g5 = render_field("pause"@, render_string(v.pause));
            let g6 = render_field("next"@, render_string(v.next));
            let g7 = render_field("previous"@, render_string(v.previous));
            let g8 = render_field("volup"@, render_string(v.volup));
            let g9 = render_field("voldown"@, render_string(v.voldown));
            let g10 = render_field("mute"@, render_string(v.mute));
            let g11 = render_field("volstepup"@, render_u32(v.volstepup));
            let g12 = render_field("volstepdown"@, render_u32(v.volstepdown));
            let p = seq!['{'] + g0 + seq![','] + g1 + seq![','] + g2 + seq![','] + g3 + seq![','] + g4 + seq![','] + g5 + seq![','] + g6 + seq![','] + g7 + seq![','] + g8 + seq![','] + g9 + seq![','] + g10 + seq![','];
            parse_field_u32_comma(render_settings(v), p.len() as int, "volstepup"@) == Some(
                (v.volstepup, p.len() as int + g11.len() as int + 1),
            )
        }),
{
    let s = render_settings(v);
    let g0 = render_field("start_on_login"@, render_bool(v.start_on_login));
    let g1 = render_field("start_minimized"@, render_bool(v.start_minimized));
    let g2 = render_field("start_in_bg"@, render_bool(v.start_in_bg));
    let g3 = render_field("toggle"@, render_string(v.toggle));
    let g4 = render_field("play"@, render_string(v.play));
    let g5 = render_field("pause"@, render_string(v.pause));
    let g6 = render_field("next"@, render_string(v.next));
    let g7 = render_field("previous"@, render_string(v.previous));
    let g8 = render_field("volup"@, render_string(v.volup));
    let g9 = render_field("voldown"@, render_string(v.voldown));
    let g10 = render_field("mute"@, render_string(v.mute));
    let g11 = render_field("volstepup"@, render_u32(v.volstepup));
    let g12 = render_field("volstepdown"@, render_u32(v.volstepdown));
    let p = seq!['{'] + g0 + seq![','] + g1 + seq![','] + g2 + seq![','] + g3 + seq![','] + g4 + seq![','] + g5 + seq![','] + g6 + seq![','] + g7 + seq![','] + g8 + seq![','] + g9 + seq![','] + g10 + seq![','];
    let rest = g12 + seq!['\n', '}'];
    assert(s =~= p + g11 + seq![','] + rest);
    lemma_field_u32_comma_at(p, "volstepup"@, v.volstepup, rest);
}

#[verifier::rlimit(100)]
proof fn lemma_settings_stage12(v: AppSettingsView)
    ensures
        ({
            let g0 = render_field("start_on_login"@, render_bool(v.start_on_login));
            let g1 = render_field("start_minimized"@, render_bool(v.start_minimized));
            let g2 = render_field("start_in_bg"@, render_bool(v.start_in_bg));
            let g3 = render_field("toggle"@, render_string(v.toggle));
            let g4 = render_field("play"@, render_string(v.play));
            let g5 = render_field("pause"@, render_string(v.pause));
            let g6 = render_field("next"@, render_string(v.next));
            let g7 = render_field("previous"@, render_string(v.previous));
            let g8 = render_field("volup"@, render_string(v.volup));
            let g9 = render_field("voldown"@, render_string(v.voldown));
            let g10 = render_field("mute"@, render_string(v.mute));
            let g11 = render_field("volstepup"@, render_u32(v.volstepup));
            let g12 = render_field("volstepdown"@, render_u32(v.volstepdown));
            let p = seq!['{'] + g0 + seq![','] + g1 + seq![','] + g2 + seq![','] + g3 + seq![','] + g4 + seq![','] + g5 + seq![','] + g6 + seq![','] + g7 + seq![','] + g8 + seq![','] + g9 + seq![','] + g10 + seq![','] + g11 + seq![','];
            parse_field_u32(render_settings(v), p.len() as int, "volstepdown"@) == Some(
                (v.volstepdown, p.len() as int + g12.len() as int),
            )
        }),
{
    let s = render_settings(v);
    let g0 = render_field("start_on_login"@, render_bool(v.start_on_login));
    let g1 = render_field("start_minimized"@, render_bool(v.start_minimized));
    let g2 = render_field("start_in_bg"@, render_bool(v.start_in_bg));
    let g3 = render_field("toggle"@, render_string(v.toggle));
    let g4 = render_field("play"@, render_string(v.play));
    let g5 = render_field("pause"@, render_string(v.pause));
    let g6 = render_field("next"@, render_string(v.next));
    let g7 = render_field("previous"@, render_string(v.previous));
    let g8 = render_field("volup"@, render_string(v.volup));
    let g9 = render_field("voldown"@, render_string(v.voldown));
    let g10 = render_field("mute"@, render_string(v.mute));
    let g11 = render_field("volstepup"@, render_u32(v.volstepup));
    let g12 = render_field("volstepdown"@, render_u32(v.volstepdown));
    let p = seq!['{'] + g0 + seq![','] + g1 + seq![','] + g2 + seq![','] + g3 + seq![','] + g4 + seq![','] + g5 + seq![','] + g6 + seq![','] + g7 + seq![','] + g8 + seq![','] + g9 + seq![','] + g10 + seq![','] + g11 + seq![','];
    let rest = seq!['\n', '}'];
    assert(s =~= p + g12 + rest);
    lemma_field_u32_at(p, "volstepdown"@, v.volstepdown, rest);
}

/// Saving then loading a settings record yields it back, field for field:
/// the rendered JSON text parses to exactly the record it was written
/// from.
#[verifier::rlimit(100)]
pub proof fn lemma_settings_round_trip(v: AppSettingsView)
    ensures
        parse_settings(render_settings(v)) == Some(v),
{
    let s = render_settings(v);
    let g0 = render_field("start_on_login"@, render_bool(v.start_on_login));
    let g1 = render_field("start_minimized"@, render_bool(v.start_minimized));
    let g2 = render_field("start_in_bg"@, render_bool(v.start_in_bg));
    let g3 = render_field("toggle"@, render_string(v.toggle));
    let g4 = render_field("play"@, render_string(v.play));
    let g5 = render_field("pause"@, render_string(v.pause));
    let g6 = render_field("next"@, render_string(v.next));
    let g7 = render_field("previous"@, render_string(v.previous));
    let g8 = render_field("volup"@, render_string(v.volup));
    let g9 = render_field("voldown"@, render_string(v.voldown));
    let g10 = render_field("mute"@, render_string(v.mute));
    let g11 = render_field("volstepup"@, render_u32(v.volstepup));
    let g12 = render_field("volstepdown"@, render_u32(v.volstepdown));
    assert(s[0] == '{');
    assert(skip_ws(s, 0) == 0);
    assert(expect_char(s, 0, '{') == Some(1int));
    lemma_settings_stage0(v);
    lemma_settings_stage1(v);
    lemma_settings_stage2(v);
    lemma_settings_stage3(v);
    lemma_settings_stage4(v);
    lemma_settings_stage5(v);
    lemma_settings_stage6(v);
    lemma_settings_stage7(v);
    lemma_settings_stage8(v);
    lemma_settings_stage9(v);
    lemma_settings_stage10(v);
    lemma_settings_stage11(v);
    lemma_settings_stage12(v);
    lemma_parse_close_at(seq!['{'] + g0 + seq![','] + g1 + seq![','] + g2 + seq![','] + g3 + seq![','] + g4 + seq![','] + g5 + seq![','] + g6 + seq![','] + g7 + seq![','] + g8 + seq![','] + g9 + seq![','] + g10 + seq![','] + g11 + seq![','] + g12);
    assert(s =~= (seq!['{'] + g0 + seq![','] + g1 + seq![','] + g2 + seq![','] + g3 + seq![','] + g4 + seq![','] + g5 + seq![','] + g6 + seq![','] + g7 + seq![','] + g8 + seq![','] + g9 + seq![','] + g10 + seq![','] + g11 + seq![','] + g12) + seq!['\n', '}']);
}

impl AppSettings {
    #[verifier::rlimit(100)]
    fn push_fields_front(&self, out: &mut Vec<char>)
        ensures
            final(out)@ == old(out)@ + render_field("start_on_login"@, render_bool(self@.start_on_login)) + seq![','] + render_field("start_minimized"@, render_bool(self@.start_minimized)) + seq![','] + render_field("start_in_bg"@, render_bool(self@.start_in_bg)) + seq![','] + render_field("toggle"@, render_string(self@.toggle)) + seq![','] + render_field("play"@, render_string(self@.play)) + seq![','] + render_field("pause"@, render_string(self@.pause)) + seq![','] + render_field("next"@, render_string(self@.next)) + seq![','],
    {
        push_field_name(out, "start_on_login");
        push_bool(out, self.start_on_login);
        out.push(',');
        assert(out@ =~= old(out)@ + render_field("start_on_login"@, render_bool(self@.start_on_login)) + seq![',']);
        push_field_name(out, "start_minimized");
        push_bool(out, self.start_minimized);
        out.push(',');
        assert(out@ =~= old(out)@ + render_field("start_on_login"@, render_bool(self@.start_on_login)) + seq![','] + render_field("start_minimized"@, render_bool(self@.start_minimized)) + seq![',']);
        push_field_name(out, "start_in_bg");
        push_bool(out, self.start_in_bg);
        out.push(',');
        assert(out@ =~= old(out)@ + render_field("start_on_login"@, render_bool(self@.start_on_login)) + seq![','] + render_field("start_minimized"@, render_bool(self@.start_minimized)) + seq![','] + render_field("start_in_bg"@, render_bool(self@.start_in_bg)) + seq![',']);
        push_field_name(out, "toggle");
        push_string(out, self.toggle.as_str());
        out.push(',');
        assert(out@ =~= old(out)@ + render_field("start_on_login"@, render_bool(self@.start_on_login)) + seq![','] + render_field("start_minimized"@, render_bool(self@.start_minimized)) + seq![','] + render_field("start_in_bg"@, render_bool(self@.start_in_bg)) + seq![','] + render_field("toggle"@, render_string(self@.toggle)) + seq![',']);
        push_field_name(out, "play");
        push_string(out, self.play.as_str());
        out.push(',');
        assert(out@ =~= old(out)@ + render_field("start_on_login"@, render_bool(self@.start_on_login)) + seq![','] + render_field("start_minimized"@, render_bool(self@.start_minimized)) + seq![','] + render_field("start_in_bg"@, render_bool(self@.start_in_bg)) + seq![','] + render_field("toggle"@, render_string(self@.toggle)) + seq![','] + render_field("play"@, render_string(self@.play)) + seq![',']);
        push_field_name(out, "pause");
        push_string(out, self.pause.as_str());
        out.push(',');
        assert(out@ =~= old(out)@ + render_field("start_on_login"@, render_bool(self@.start_on_login)) + seq![','] + render_field("start_minimized"@, render_bool(self@.start_minimized)) + seq![','] + render_field("start_in_bg"@, render_bool(self@.start_in_bg)) + seq![','] + render_field("toggle"@, render_string(self@.toggle)) + seq![','] + render_field("play"@, render_string(self@.play)) + seq![','] + render_field("pause"@, render_string(self@.pause)) + seq![',']);
        push_field_name(out, "next");
        push_string(out, self.next.as_str());
        out.push(',');
        assert(out@ =~= old(out)@ + render_field("start_on_login"@, render_bool(self@.start_on_login)) + seq![','] + render_field("start_minimized"@, render_bool(self@.start_minimized)) + seq![','] + render_field("start_in_bg"@, render_bool(self@.start_in_bg)) + seq![','] + render_field("toggle"@, render_string(self@.toggle)) + seq![','] + render_field("play"@, render_string(self@.play)) + seq![','] + render_field("pause"@, render_string(self@.pause)) + seq![','] + render_field("next"@, render_string(self@.next)) + seq![',']);
    }

    #[verifier::rlimit(100)]
    fn push_fields_back(&self, out: &mut Vec<char>)
        ensures
            final(out)@ == old(out)@ + render_field("previous"@, render_string(self@.previous)) + seq![','] + render_field("volup"@, render_string(self@.volup)) + seq![','] + render_field("voldown"@, render_string(self@.voldown)) + seq![','] + render_field("mute"@, render_string(self@.mute)) + seq![','] + render_field("volstepup"@, render_u32(self@.volstepup)) + seq![','] + render_field("volstepdown"@, render_u32(self@.volstepdown)),
    {
        push_field_name(out, "previous");
        push_string(out, self.previous.as_str());
        out.push(',');
        assert(out@ =~= old(out)@ + render_field("previous"@, render_string(self@.previous)) + seq![',']);
        push_field_name(out, "volup");
        push_string(out, self.volup.as_str());
        out.push(',');
        assert(out@ =~= old(out)@ + render_field("previous"@, render_string(self@.previous)) + seq![','] + render_field("volup"@, render_string(self@.volup)) + seq![',']);
        push_field_name(out, "voldown");
        push_string(out, self.voldown.as_str());
        out.push(',');
        assert(out@ =~= old(out)@ + render_field("previous"@, render_string(self@.previous)) + seq![','] + render_field("volup"@, render_string(self@.volup)) + seq![','] + render_field("voldown"@, render_string(self@.voldown)) + seq![',']);
        push_field_name(out, "mute");
        push_string(out, self.mute.as_str());
        out.push(',');
        assert(out@ =~= old(out)@ + render_field("previous"@, render_string(self@.previous)) + seq![','] + render_field("volup"@, render_string(self@.volup)) + seq![','] + render_field("voldown"@, render_string(self@.voldown)) + seq![','] + render_field("mute"@, render_string(self@.mute)) + seq![',']);
        push_field_name(out, "volstepup");
        push_u32(out, self.volstepup);
        out.push(',');
        assert(out@ =~= old(out)@ + render_field("previous"@, render_string(self@.previous)) + seq![','] + render_field("volup"@, render_string(self@.volup)) + seq![','] + render_field("voldown"@, render_string(self@.voldown)) + seq![','] + render_field("mute"@, render_string(self@.mute)) + seq![','] + render_field("volstepup"@, render_u32(self@.volstepup)) + seq![',']);
        push_field_name(out, "volstepdown");
        push_u32(out, self.volstepdown);
        assert(out@ =~= old(out)@ + render_field("previous"@, render_string(self@.previous)) + seq![','] + render_field("volup"@, render_string(self@.volup)) + seq![','] + render_field("voldown"@, render_string(self@.voldown)) + seq![','] + render_field("mute"@, render_string(self@.mute)) + seq![','] + render_field("volstepup"@, render_u32(self@.volstepup)) + seq![','] + render_field("volstepdown"@, render_u32(self@.volstepdown)));
    }

    /// The JSON text to persist for this record.
    #[verifier::rlimit(100)]
    pub fn to_json(&self) -> (r: String)
        ensures
            r@ == render_settings(self@),
    {
        let mut out: Vec<char> = Vec::new();
        out.push('{');
        self.push_fields_front(&mut out);
        self.push_fields_back(&mut out);
        out.push('\n');
        out.push('}');
        assert(out@ =~= render_settings(self@));
        chars_to_string(&out)
    }

    /// Parse the persisted JSON text back into a settings record.
    #[verifier::rlimit(100)]
    pub fn from_json(s: &str) -> (r: Option<AppSettings>)
        ensures
            match r {
                Some(a) => parse_settings(s@) == Some(a@),
                None => parse_settings(s@) is None,
            },
    {
        let v = str_to_chars(s);
        let w = p_skip_ws(&v, 0);
        let i0 = match p_expect_char(&v, w, '{') {
            Some(x) => x,
            None => {
                return None;
            },
        };
        let (x0, i1) = match p_field_bool_comma(&v, i0, "start_on_login") {
            Some(p) => p,
            None => {
                return None;
            },
        };
        let (x1, i2) = match p_field_bool_comma(&v, i1, "start_minimized") {
            Some(p) => p,
            None => {
                return None;
            },
        };
        let (x2, i3) = match p_field_bool_comma(&v, i2, "start_in_bg") {
            Some(p) => p,
            None => {
                return None;
            },
        };
        let (x3, i4) = match p_field_string_comma(&v, i3, "toggle") {
            Some(p) => p,
            None => {
                return None;
            },
        };
        let (x4, i5) = match p_field_string_comma(&v, i4, "play") {
            Some(p) => p,
            None => {
                return None;
            },
        };
        let (x5, i6) = match p_field_string_comma(&v, i5, "pause") {
            Some(p) => p,
            None => {
                return None;
            },
        };
        let (x6, i7) = match p_field_string_comma(&v, i6, "next") {
            Some(p) => p,
            None => {
                return None;
            },
        };
        let (x7, i8) = match p_field_string_comma(&v, i7, "previous") {
            Some(p) => p,
            None => {
                return None;
            },
        };
        let (x8, i9) = match p_field_string_comma(&v, i8, "volup") {
            Some(p) => p,
            None => {
                return None;
            },
        };
        let (x9, i10) = match p_field_string_comma(&v, i9, "voldown") {
            Some(p) => p,
            None => {
                return None;
            },
        };
        let (x10, i11) = match p_field_string_comma(&v, i10, "mute") {
            Some(p) => p,
            None => {
                return None;
            },
        };
        let (x11, i12) = match p_field_u32_comma(&v, i11, "volstepup") {
            Some(p) => p,
            None => {
                return None;
            },
        };
        let (x12, i13) = match p_field_u32(&v, i12, "volstepdown") {
            Some(p) => p,
            None => {
                return None;
            },
        };
        if !p_parse_close(&v, i13) {
            return None;
        }
        Some(AppSettings {
            start_on_login: x0,
            start_minimized: x1,
            start_in_bg: x2,
            toggle: chars_to_string(&x3),
            play: chars_to_string(&x4),
            pause: chars_to_string(&x5),
            next: chars_to_string(&x6),
            previous: chars_to_string(&x7),
            volup: chars_to_string(&x8),
            voldown: chars_to_string(&x9),
            mute: chars_to_string(&x10),
            volstepup: x11,
            volstepdown: x12,
        })
    }
}

/// The mathematical content of the credential record.
pub struct MyTokenView {
    pub client_id: Seq<char>,
    pub client_secret: Seq<char>,
    pub redirect_uri: Seq<char>,
}

/// The credential record handed to the playback client: client id, client
/// secret and redirect URI, persisted separately from the settings.
#[allow(non_snake_case)]
#[derive(Clone, Debug, PartialEq, Eq)]
pub struct MyToken {
    pub RSPOTIFY_CLIENT_ID: String,
    pub RSPOTIFY_CLIENT_SECRET: String,
    pub RSPOTIFY_REDIRECT_URI: String,
}

impl View for MyToken {
    type V = MyTokenView;

    open spec fn view(&self) -> MyTokenView {
        MyTokenView {
            client_id: self.RSPOTIFY_CLIENT_ID@,
            client_secret: self.RSPOTIFY_CLIENT_SECRET@,
            redirect_uri: self.RSPOTIFY_REDIRECT_URI@,
        }
    }
}

impl Default for MyToken {
    /// The record before credentials were entered: every field empty.
    fn default() -> (r: Self)
        ensures
            r@.client_id.len() == 0,
            r@.client_secret.len() == 0,
            r@.redirect_uri.len() == 0,
    {
        MyToken {
            RSPOTIFY_CLIENT_ID: String::new(),
            RSPOTIFY_CLIENT_SECRET: String::new(),
            RSPOTIFY_REDIRECT_URI: String::new(),
        }
    }
}

/// The JSON text written for a credential record.
pub open spec fn render_token(v: MyTokenView) -> Seq<char> {
    seq!['{']
        + render_field("RSPOTIFY_CLIENT_ID"@, render_string(v.client_id)) + seq![',']
        + render_field("RSPOTIFY_CLIENT_SECRET"@, render_string(v.client_secret)) + seq![',']
        + render_field("RSPOTIFY_REDIRECT_URI"@, render_string(v.redirect_uri))
        + seq!['\n', '}']
}

/// What a JSON text parses to as a credential record.
pub open spec fn parse_token(s: Seq<char>) -> Option<MyTokenView> {
    match expect_char(s, skip_ws(s, 0), '{') {
        None => None,
        Some(i0) => match parse_field_string_comma(s, i0, "RSPOTIFY_CLIENT_ID"@) {
            None => None,
            Some((id, i1)) => match parse_field_string_comma(s, i1, "RSPOTIFY_CLIENT_SECRET"@) {
                None => None,
                Some((secret, i2)) => match parse_field_string(s, i2, "RSPOTIFY_REDIRECT_URI"@) {
                    None => None,
                    Some((uri, i3)) => if parse_close(s, i3) {
                        Some(MyTokenView { client_id: id, client_secret: secret, redirect_uri: uri })
                    } else {
                        None
                    },
                },
            },
        },
    }
}

#[verifier::rlimit(100)]
proof fn lemma_token_stage0(v: MyTokenView)
    ensures
        ({
            let h0 = render_field("RSPOTIFY_CLIENT_ID"@, render_string(v.client_id));
            let h1 = render_field("RSPOTIFY_CLIENT_SECRET"@, render_string(v.client_secret));
            let h2 = render_field("RSPOTIFY_REDIRECT_URI"@, render_string(v.redirect_uri));
            let p = seq!['{'];
            parse_field_string_comma(render_token(v), p.len() as int, "RSPOTIFY_CLIENT_ID"@) == Some(
                (v.client_id, p.len() as int + h0.len() as int + 1),
            )
        }),
{
    let s = render_token(v);
    let h0 = render_field("RSPOTIFY_CLIENT_ID"@, render_string(v.client_id));
    let h1 = render_field("RSPOTIFY_CLIENT_SECRET"@, render_string(v.client_secret));
    let h2 = render_field("RSPOTIFY_REDIRECT_URI"@, render_string(v.redirect_uri));
    let p = seq!['{'];
    let rest = h1 + seq![','] + h2 + seq!['\n', '}'];
    assert(s =~= p + h0 + seq![','] + rest);
    lemma_field_string_comma_at(p, "RSPOTIFY_CLIENT_ID"@, v.client_id, rest);
}

#[verifier::rlimit(100)]
proof fn lemma_token_stage1(v: MyTokenView)
    ensures
        ({
            let h0 = render_field("RSPOTIFY_CLIENT_ID"@, render_string(v.client_id));
            let h1 = render_field("RSPOTIFY_CLIENT_SECRET"@, render_string(v.client_secret));
            let h2 = render_field("RSPOTIFY_REDIRECT_URI"@, render_string(v.redirect_uri));
            let p = seq!['{'] + h0 + seq![','];
            parse_field_string_comma(render_token(v), p.len() as int, "RSPOTIFY_CLIENT_SECRET"@) == Some(
                (v.client_secret, p.len() as int + h1.len() as int + 1),
            )
        }),
{
    let s = render_token(v);
    let h0 = render_field("RSPOTIFY_CLIENT_ID"@, render_string(v.client_id));
    let h1 = render_field("RSPOTIFY_CLIENT_SECRET"@, render_string(v.client_secret));
    let h2 = render_field("RSPOTIFY_REDIRECT_URI"@, render_string(v.redirect_uri));
    let p = seq!['{'] + h0 + seq![','];
    let rest = h2 + seq!['\n', '}'];
    assert(s =~= p + h1 + seq![','] + rest);
    lemma_field_string_comma_at(p, "RSPOTIFY_CLIENT_SECRET"@, v.client_secret, rest);
}

#[verifier::rlimit(100)]
proof fn lemma_token_stage2(v: MyTokenView)
    ensures
        ({
            let h0 = render_field("RSPOTIFY_CLIENT_ID"@, render_string(v.client_id));
            let h1 = render_field("RSPOTIFY_CLIENT_SECRET"@, render_string(v.client_secret));
            let h2 = render_field("RSPOTIFY_REDIRECT_URI"@, render_string(v.redirect_uri));
            let p = seq!['{'] + h0 + seq![','] + h1 + seq![','];
            parse_field_string(render_token(v), p.len() as int, "RSPOTIFY_REDIRECT_URI"@) == Some(
                (v.redirect_uri, p.len() as int + h2.len() as int),
            )
        }),
{
    let s = render_token(v);
    let h0 = render_field("RSPOTIFY_CLIENT_ID"@, render_string(v.client_id));
    let h1 = render_field("RSPOTIFY_CLIENT_SECRET"@, render_string(v.client_secret));
    let h2 = render_field("RSPOTIFY_REDIRECT_URI"@, render_string(v.redirect_uri));
    let p = seq!['{'] + h0 + seq![','] + h1 + seq![','];
    let rest = seq!['\n', '}'];
    assert(s =~= p + h2 + rest);
    lemma_field_string_at(p, "RSPOTIFY_REDIRECT_URI"@, v.redirect_uri, rest);
}

/// Saving then loading a credential record yields it back, field for
/// field.
#[verifier::rlimit(100)]
pub proof fn lemma_token_round_trip(v: MyTokenView)
    ensures
        parse_token(render_token(v)) == Some(v),
{
    let s = render_token(v);
    let h0 = render_field("RSPOTIFY_CLIENT_ID"@, render_string(v.client_id));
    let h1 = render_field("RSPOTIFY_CLIENT_SECRET"@, render_string(v.client_secret));
    let h2 = render_field("RSPOTIFY_REDIRECT_URI"@, render_string(v.redirect_uri));
    assert(s[0] == '{');
    assert(skip_ws(s, 0) == 0);
    assert(expect_char(s, 0, '{') == Some(1int));
    lemma_token_stage0(v);
    lemma_token_stage1(v);
    lemma_token_stage2(v);
    lemma_parse_close_at(seq!['{'] + h0 + seq![','] + h1 + seq![','] + h2);
    assert(s =~= (seq!['{'] + h0 + seq![','] + h1 + seq![','] + h2) + seq!['\n', '}']);
}

impl MyToken {
    /// The JSON text to persist for this record.
    #[verifier::rlimit(100)]
    pub fn to_json(&self) -> (r: String)
        ensures
            r@ == render_token(self@),
    {
        let mut out: Vec<char> = Vec::new();
        out.push('{');
        push_field_name(&mut out, "RSPOTIFY_CLIENT_ID");
        push_string(&mut out, self.RSPOTIFY_CLIENT_ID.as_str());
        out.push(',');
        assert(out@ =~= seq!['{'] + render_field("RSPOTIFY_CLIENT_ID"@, render_string(self@.client_id)) + seq![',']);
        push_field_name(&mut out, "RSPOTIFY_CLIENT_SECRET");
        push_string(&mut out, self.RSPOTIFY_CLIENT_SECRET.as_str());
        out.push(',');
        assert(out@ =~= seq!['{'] + render_field("RSPOTIFY_CLIENT_ID"@, render_string(self@.client_id)) + seq![','] + render_field("RSPOTIFY_CLIENT_SECRET"@, render_string(self@.client_secret)) + seq![',']);
        push_field_name(&mut out, "RSPOTIFY_REDIRECT_URI");
        push_string(&mut out, self.RSPOTIFY_REDIRECT_URI.as_str());
        assert(out@ =~= seq!['{'] + render_field("RSPOTIFY_CLIENT_ID"@, render_string(self@.client_id)) + seq![','] + render_field("RSPOTIFY_CLIENT_SECRET"@, render_string(self@.client_secret)) + seq![','] + render_field("RSPOTIFY_REDIRECT_URI"@, render_string(self@.redirect_uri)));
        out.push('\n');
        out.push('}');
        assert(out@ =~= render_token(self@));
        chars_to_string(&out)
    }

    /// Parse the persisted JSON text back into a credential record.
    pub fn from_json(s: &str) -> (r: Option<MyToken>)
        ensures
            match r {
                Some(t) => parse_token(s@) == Some(t@),
                None => parse_token(s@) is None,
            },
    {
        let v = str_to_chars(s);
        let w = p_skip_ws(&v, 0);
        let i0 = match p_expect_char(&v, w, '{') {
            Some(x) => x,
            None => {
                return None;
            },
        };
        let (id, i1) = match p_field_string_comma(&v, i0, "RSPOTIFY_CLIENT_ID") {
            Some(p) => p,
            None => {
                return None;
            },
        };
        let (secret, i2) = match p_field_string_comma(&v, i1, "RSPOTIFY_CLIENT_SECRET") {
            Some(p) => p,
            None => {
                return None;
            },
        };
        let (uri, i3) = match p_field_string(&v, i2, "RSPOTIFY_REDIRECT_URI") {
            Some(p) => p,
            None => {
                return None;
            },
        };
        if !p_parse_close(&v, i3) {
            return None;
        }
        Some(MyToken {
            RSPOTIFY_CLIENT_ID: chars_to_string(&id),
            RSPOTIFY_CLIENT_SECRET: chars_to_string(&secret),
            RSPOTIFY_REDIRECT_URI: chars_to_string(&uri),
        })
    }

    /// Whether all three credential fields are filled in; client
    /// initialization proceeds only then.
    pub fn is_complete(&self) -> (r: bool)
        ensures
            r == (self@.client_id.len() > 0 && self@.client_secret.len() > 0
                && self@.redirect_uri.len() > 0),
    {
        !self.RSPOTIFY_CLIENT_ID.as_str().is_empty()
            && !self.RSPOTIFY_CLIENT_SECRET.as_str().is_empty()
            && !self.RSPOTIFY_REDIRECT_URI.as_str().is_empty()
    }
}

/// The placeholder shown for an unbound action: eleven spaces. It names
/// no key, so the bind stays disabled.
pub fn unbound_bind() -> (r: String)
    ensures
        r@ == "           "@,
{
    String::from_str("           ")
}

/// The startup flags a launch-on-login entry carries for these settings:
/// `--minimized` when starting minimized, then `--background` when starting
/// in the background.
pub open spec fn spec_launch_flags(start_minimized: bool, start_in_bg: bool) -> Seq<Seq<char>> {
    (if start_minimized {
        seq!["--minimized"@]
    } else {
        Seq::empty()
    }) + (if start_in_bg {
        seq!["--background"@]
    } else {
        Seq::empty()
    })
}

/// Build the startup flags for the launch-on-login entry.
pub fn launch_flags(start_minimized: bool, start_in_bg: bool) -> (r: Vec<String>)
    ensures
        r.deep_view() == spec_launch_flags(start_minimized, start_in_bg),
{
    let mut r: Vec<String> = Vec::new();
    if start_minimized {
        r.push(String::from_str("--minimized"));
    }
    if start_in_bg {
        r.push(String::from_str("--background"));
    }
    proof {
        assert(r.deep_view() =~= spec_launch_flags(start_minimized, start_in_bg));
    }
    r
}

/// The executable path as the launch-on-login entry stores it: wrapped in
/// quotes, so a path with spaces stays one argument.
pub fn quoted_path(path: &str) -> (r: String)
    ensures
        r@ == seq!['"'] + path@ + seq!['"'],
{
    let mut out: Vec<char> = Vec::new();
    out.push('"');
    push_lit(&mut out, path);
    out.push('"');
    proof {
        assert(out@ =~= seq!['"'] + path@ + seq!['"']);
    }
    chars_to_string(&out)
}

} // verus!
