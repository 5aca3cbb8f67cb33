use spotify_binds::settings::{launch_flags, quoted_path, AppSettings, MyToken};

fn sample_settings() -> AppSettings {
    AppSettings {
        start_on_login: true,
        start_minimized: false,
        start_in_bg: true,
        toggle: "Ctrl+Shift+A".to_string(),
        play: "Ctrl+P".to_string(),
        pause: "           ".to_string(),
        next: "Alt+Right".to_string(),
        previous: "Alt+Left".to_string(),
        volup: "Ctrl+Up".to_string(),
        voldown: "Ctrl+Down".to_string(),
        mute: "Ctrl+M".to_string(),
        volstepup: 10,
        volstepdown: 15,
    }
}

#[test]
fn settings_round_trip_is_field_for_field() {
    let s = sample_settings();
    let text = s.to_json();
    let back = AppSettings::from_json(&text).expect("own output must parse");
    assert_eq!(back, s);
}

#[test]
fn default_settings_round_trip() {
    let s = AppSettings::default();
    assert_eq!(s.volstepup, 0);
    assert_eq!(s.toggle, "");
    assert!(!s.start_on_login);
    let back = AppSettings::from_json(&s.to_json()).expect("own output must parse");
    assert_eq!(back, s);
}

#[test]
fn settings_with_awkward_strings_round_trip() {
    let mut s = sample_settings();
    s.toggle = "quote \" backslash \\ newline \n tab \t".to_string();
    s.play = "control char \u{1} and \u{1f} end".to_string();
    s.mute = "unicode é µ ☃".to_string();
    s.volstepup = u32::MAX;
    let back = AppSettings::from_json(&s.to_json()).expect("own output must parse");
    assert_eq!(back, s);
}

#[test]
fn settings_output_is_valid_json_for_serde() {
    let s = sample_settings();
    let text = s.to_json();
    let v: serde_json::Value = serde_json::from_str(&text).expect("serde must accept the output");
    assert_eq!(v.get("start_on_login").and_then(|x| x.as_bool()), Some(true));
    assert_eq!(
        v.get("toggle").and_then(|x| x.as_str()),
        Some("Ctrl+Shift+A")
    );
    assert_eq!(v.get("volstepdown").and_then(|x| x.as_u64()), Some(15));
}

#[test]
fn settings_parse_accepts_compact_and_spaced_text() {
    let compact = "{\"start_on_login\":false,\"start_minimized\":true,\"start_in_bg\":false,\
\"toggle\":\"A\",\"play\":\"B\",\"pause\":\"C\",\"next\":\"D\",\"previous\":\"E\",\
\"volup\":\"F\",\"voldown\":\"G\",\"mute\":\"H\",\"volstepup\":3,\"volstepdown\":4}";
    let s = AppSettings::from_json(compact).expect("compact form must parse");
    assert!(s.start_minimized);
    assert_eq!(s.toggle, "A");
    assert_eq!(s.volstepdown, 4);

    let spaced = "  {  \"start_on_login\" : true ,\n \"start_minimized\": false, \"start_in_bg\": false,\
 \"toggle\": \"X\", \"play\": \"\", \"pause\": \"\", \"next\": \"\", \"previous\": \"\",\
 \"volup\": \"\", \"voldown\": \"\", \"mute\": \"\", \"volstepup\" : 0 , \"volstepdown\": 100 }  ";
    let s2 = AppSettings::from_json(spaced).expect("spaced form must parse");
    assert!(s2.start_on_login);
    assert_eq!(s2.toggle, "X");
    assert_eq!(s2.volstepdown, 100);
}

#[test]
fn settings_parse_decodes_escapes() {
    let text = "{\"start_on_login\":false,\"start_minimized\":false,\"start_in_bg\":false,\
\"toggle\":\"a\\\"b\\\\c\\/d\\n\\t\\r\\b\\f\\u0001\",\"play\":\"\",\"pause\":\"\",\"next\":\"\",\
\"previous\":\"\",\"volup\":\"\",\"voldown\":\"\",\"mute\":\"\",\"volstepup\":1,\"volstepdown\":2}";
    let s = AppSettings::from_json(text).expect("escapes must parse");
    assert_eq!(s.toggle, "a\"b\\c/d\n\t\r\u{8}\u{c}\u{1}");
}

#[test]
fn settings_parse_rejects_malformed_text() {
    // not an object
    assert!(AppSettings::from_json("42").is_none());
    // empty input
    assert!(AppSettings::from_json("").is_none());
    // missing field
    assert!(AppSettings::from_json("{\"start_on_login\":false}").is_none());
    // fields out of order
    let reordered = "{\"start_minimized\":false,\"start_on_login\":false,\"start_in_bg\":false,\
\"toggle\":\"\",\"play\":\"\",\"pause\":\"\",\"next\":\"\",\"previous\":\"\",\
\"volup\":\"\",\"voldown\":\"\",\"mute\":\"\",\"volstepup\":0,\"volstepdown\":0}";
    assert!(AppSettings::from_json(reordered).is_none());
    // trailing garbage
    let mut good = sample_settings().to_json();
    good.push_str("x");
    assert!(AppSettings::from_json(&good).is_none());
}

#[test]
fn settings_parse_rejects_numbers_beyond_u32() {
    let text = "{\"start_on_login\":false,\"start_minimized\":false,\"start_in_bg\":false,\
\"toggle\":\"\",\"play\":\"\",\"pause\":\"\",\"next\":\"\",\"previous\":\"\",\
\"volup\":\"\",\"voldown\":\"\",\"mute\":\"\",\"volstepup\":4294967296,\"volstepdown\":0}";
    assert!(AppSettings::from_json(text).is_none());
    let max = "{\"start_on_login\":false,\"start_minimized\":false,\"start_in_bg\":false,\
\"toggle\":\"\",\"play\":\"\",\"pause\":\"\",\"next\":\"\",\"previous\":\"\",\
\"volup\":\"\",\"voldown\":\"\",\"mute\":\"\",\"volstepup\":4294967295,\"volstepdown\":0}";
    assert_eq!(
        AppSettings::from_json(max).expect("largest value must parse").volstepup,
        u32::MAX
    );
}

#[test]
fn token_round_trip_is_field_for_field() {
    let t = MyToken {
        RSPOTIFY_CLIENT_ID: "client-123".to_string(),
        RSPOTIFY_CLIENT_SECRET: "s3cr3t".to_string(),
        RSPOTIFY_REDIRECT_URI: "http://localhost:8888/callback".to_string(),
    };
    let back = MyToken::from_json(&t.to_json()).expect("own output must parse");
    assert_eq!(back, t);
}

#[test]
fn token_output_is_valid_json_for_serde() {
    let t = MyToken {
        RSPOTIFY_CLIENT_ID: "id".to_string(),
        RSPOTIFY_CLIENT_SECRET: "secret".to_string(),
        RSPOTIFY_REDIRECT_URI: "http://localhost/cb".to_string(),
    };
    let v: serde_json::Value =
        serde_json::from_str(&t.to_json()).expect("serde must accept the output");
    assert_eq!(v.get("RSPOTIFY_CLIENT_ID").and_then(|x| x.as_str()), Some("id"));
    assert_eq!(
        v.get("RSPOTIFY_REDIRECT_URI").and_then(|x| x.as_str()),
        Some("http://localhost/cb")
    );
}

#[test]
fn token_completeness_requires_every_field() {
    let full = MyToken {
        RSPOTIFY_CLIENT_ID: "id".to_string(),
        RSPOTIFY_CLIENT_SECRET: "secret".to_string(),
        RSPOTIFY_REDIRECT_URI: "uri".to_string(),
    };
    assert!(full.is_complete());

    let empty = MyToken::default();
    assert!(!empty.is_complete());

    let partial = MyToken {
        RSPOTIFY_CLIENT_ID: "id".to_string(),
        RSPOTIFY_CLIENT_SECRET: "".to_string(),
        RSPOTIFY_REDIRECT_URI: "uri".to_string(),
    };
    assert!(!partial.is_complete());
}

#[test]
fn launch_flags_follow_the_switches() {
    assert!(launch_flags(false, false).is_empty());
    assert_eq!(launch_flags(true, false), vec!["--minimized".to_string()]);
    assert_eq!(launch_flags(false, true), vec!["--background".to_string()]);
    assert_eq!(
        launch_flags(true, true),
        vec!["--minimized".to_string(), "--background".to_string()]
    );
    assert_eq!(
        quoted_path("C:\\Program Files\\app.exe"),
        "\"C:\\Program Files\\app.exe\""
    );
}
