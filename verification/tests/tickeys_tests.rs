use tickeys::accessibility::{access_step, AccessAction, AccessEvent, AccessPhase};
use tickeys::keys::{matches_open_settings_seq, open_settings_key, OPEN_SETTINGS_KEY_SEQ_LEN};
use tickeys::paths::{get_data_path, get_res_path};
use tickeys::schemes::{contains_scheme, find_scheme, load_scheme_name, selected_scheme_index};
use tickeys::settings::{
    link_for_tag, setting_control_for_tag, version_label, Link, SettingControl, SettingsWindow,
};
use tickeys::json_guard::json_text_bounded;
use tickeys::update::{check_update_response, contains_str, update_notice, version_outcome, UpdateCheck};
use tickeys::{CHECK_UPDATE_API, CURRENT_VERSION, DONATE_URL, WEBSITE};

fn names(list: &[&str]) -> Vec<String> {
    list.iter().map(|s| s.to_string()).collect()
}

#[test]
fn key_sequence_is_qaz123() {
    let seq: Vec<u8> = (0..OPEN_SETTINGS_KEY_SEQ_LEN).map(open_settings_key).collect();
    assert_eq!(seq, vec![12, 0, 6, 18, 19, 20]);
}

#[test]
fn exact_sequence_matches() {
    assert!(matches_open_settings_seq(&[12, 0, 6, 18, 19, 20]));
}

#[test]
fn sequence_after_other_keys_matches() {
    assert!(matches_open_settings_seq(&[1, 2, 3, 12, 0, 6, 18, 19, 20]));
}

#[test]
fn short_history_does_not_match() {
    assert!(!matches_open_settings_seq(&[0, 6, 18, 19, 20]));
    assert!(!matches_open_settings_seq(&[]));
}

#[test]
fn sequence_not_at_end_does_not_match() {
    assert!(!matches_open_settings_seq(&[12, 0, 6, 18, 19, 20, 1]));
    assert!(!matches_open_settings_seq(&[13, 0, 6, 18, 19, 20]));
}

#[test]
fn settings_window_opens_once() {
    let mut w = SettingsWindow::new();
    assert!(!w.is_showing());
    assert!(w.show_settings());
    assert!(w.is_showing());
    assert!(!w.show_settings());
    assert!(w.is_showing());
    w.window_will_close();
    assert!(!w.is_showing());
    assert!(w.show_settings());
}

#[test]
fn keydown_opens_settings_only_on_sequence() {
    let mut w = SettingsWindow::new();
    assert!(!w.handle_keydown(&[12, 0, 6, 18, 19]));
    assert!(!w.is_showing());
    assert!(w.handle_keydown(&[5, 12, 0, 6, 18, 19, 20]));
    assert!(w.is_showing());
    assert!(!w.handle_keydown(&[12, 0, 6, 18, 19, 20]));
    w.window_will_close();
    assert!(w.handle_keydown(&[12, 0, 6, 18, 19, 20]));
}

#[test]
fn links_by_tag() {
    assert_eq!(link_for_tag(0), Link::Website);
    assert_eq!(link_for_tag(1), Link::Donate);
    assert_eq!(link_for_tag(0).url(), "http://www.yingdev.com/projects/tickeys");
    assert_eq!(link_for_tag(1).url(), "http://www.yingdev.com/home/donate");
    assert_eq!(WEBSITE, "http://www.yingdev.com/projects/tickeys");
    assert_eq!(DONATE_URL, "http://www.yingdev.com/home/donate");
    assert_eq!(CHECK_UPDATE_API, "http://www.yingdev.com/projects/latestVersion?product=Tickeys");
}

#[test]
fn controls_by_tag() {
    assert_eq!(setting_control_for_tag(0), SettingControl::AudioScheme);
    assert_eq!(setting_control_for_tag(1), SettingControl::Volume);
    assert_eq!(setting_control_for_tag(2), SettingControl::Pitch);
}

#[test]
fn version_label_text() {
    assert_eq!(CURRENT_VERSION, "0.3.5");
    assert_eq!(version_label(), "v0.3.5");
}

#[test]
fn find_scheme_takes_first_match() {
    let list = names(&["bubble", "typewriter", "bubble", "mechanical"]);
    assert_eq!(find_scheme("bubble", &list), 0);
    assert_eq!(find_scheme("typewriter", &list), 1);
    assert_eq!(find_scheme("mechanical", &list), 3);
}

#[test]
fn contains_scheme_by_name() {
    let list = names(&["bubble", "typewriter"]);
    assert!(contains_scheme("typewriter", &list));
    assert!(!contains_scheme("drum", &list));
    assert!(!contains_scheme("Bubble", &list));
}

#[test]
fn first_run_takes_first_scheme_and_saves() {
    let list = names(&["bubble", "typewriter"]);
    assert_eq!(load_scheme_name(None, &list), ("bubble".to_string(), true));
}

#[test]
fn stored_scheme_is_kept_when_available() {
    let list = names(&["bubble", "typewriter"]);
    assert_eq!(load_scheme_name(Some("typewriter"), &list), ("typewriter".to_string(), false));
}

#[test]
fn unknown_stored_scheme_falls_back_to_first() {
    let list = names(&["bubble", "typewriter"]);
    assert_eq!(load_scheme_name(Some("drum"), &list), ("bubble".to_string(), false));
    assert_eq!(load_scheme_name(Some(""), &list), ("bubble".to_string(), false));
}

#[test]
fn loaded_scheme_is_always_selectable() {
    let list = names(&["bubble", "typewriter"]);
    for stored in [None, Some("typewriter"), Some("drum")] {
        let (name, _) = load_scheme_name(stored, &list);
        assert!(selected_scheme_index(&list, &name).is_some());
        let i = find_scheme(&name, &list);
        assert_eq!(list[i], name);
    }
}

#[test]
fn menu_selects_last_matching_entry() {
    let list = names(&["bubble", "typewriter", "bubble"]);
    assert_eq!(selected_scheme_index(&list, "bubble"), Some(2));
    assert_eq!(selected_scheme_index(&list, "typewriter"), Some(1));
    assert_eq!(selected_scheme_index(&list, "drum"), None);
    assert_eq!(selected_scheme_index(&Vec::new(), "drum"), None);
}

#[test]
fn resource_path_beside_executable() {
    assert_eq!(
        get_res_path("/Applications/Tickeys.app/Contents/MacOS/Tickeys", "data/schemes.json"),
        "/Applications/Tickeys.app/Contents/MacOS/../Resources/data/schemes.json"
    );
}

#[test]
fn data_path_is_resource_under_data() {
    let exe = "/Applications/Tickeys.app/Contents/MacOS/Tickeys";
    assert_eq!(
        get_data_path(exe, "bubble"),
        "/Applications/Tickeys.app/Contents/MacOS/../Resources/data/bubble"
    );
    assert_eq!(get_data_path(exe, "bubble"), get_res_path(exe, "data/bubble"));
}

#[test]
fn substring_search() {
    assert!(contains_str("{\"Version\":\"1\"}", "Version"));
    assert!(contains_str("abc", ""));
    assert!(contains_str("abc", "abc"));
    assert!(!contains_str("abc", "abcd"));
    assert!(!contains_str("Versio", "Version"));
    assert!(contains_str("版本 Version", "Version"));
}

#[test]
fn bad_status_is_reported() {
    assert!(matches!(check_update_response(404, "{\"Version\":\"9\"}"), UpdateCheck::BadStatus(404)));
    assert!(matches!(check_update_response(500, ""), UpdateCheck::BadStatus(500)));
}

#[test]
fn reply_without_version_is_ignored() {
    assert!(matches!(check_update_response(200, "{\"latest\":\"0.4\"}"), UpdateCheck::NoVersionInfo));
    assert!(matches!(check_update_response(200, "not json"), UpdateCheck::NoVersionInfo));
}

#[test]
fn malformed_version_reply() {
    assert!(matches!(check_update_response(200, "Version: 1.0"), UpdateCheck::Malformed));
    assert!(matches!(check_update_response(200, "{\"Version\":1}"), UpdateCheck::Malformed));
    assert!(matches!(check_update_response(200, "[\"Version\"]"), UpdateCheck::Malformed));
    assert!(matches!(check_update_response(200, "{\"OldVersion\":\"1\"}"), UpdateCheck::Malformed));
}

#[test]
fn current_version_is_up_to_date() {
    assert!(matches!(check_update_response(200, "{\"Version\":\"0.3.5\"}"), UpdateCheck::UpToDate));
    assert!(matches!(
        check_update_response(200, "{\"Product\":\"Tickeys\", \"Version\":\"0.3.5\"}"),
        UpdateCheck::UpToDate
    ));
}

#[test]
fn other_version_is_new() {
    match check_update_response(200, "{\"Version\":\"0.3.6\"}") {
        UpdateCheck::NewVersion(v) => assert_eq!(v, "0.3.6"),
        other => panic!("unexpected {:?}", other),
    }
    match check_update_response(200, " { \"Version\" : \"0.2.0\" } ") {
        UpdateCheck::NewVersion(v) => assert_eq!(v, "0.2.0"),
        other => panic!("unexpected {:?}", other),
    }
}

#[test]
fn version_outcome_cases() {
    assert!(matches!(version_outcome(None), UpdateCheck::Malformed));
    assert!(matches!(version_outcome(Some("0.3.5".to_string())), UpdateCheck::UpToDate));
    match version_outcome(Some("1.0".to_string())) {
        UpdateCheck::NewVersion(v) => assert_eq!(v, "1.0"),
        other => panic!("unexpected {:?}", other),
    }
}

#[test]
fn update_notice_text() {
    assert_eq!(update_notice("0.3.6"), "0.3.5 -> 0.3.6");
}

#[test]
fn access_granted_at_once_proceeds() {
    assert_eq!(
        access_step(AccessPhase::Start, AccessEvent::Trusted(true)),
        (AccessPhase::Done, AccessAction::Proceed)
    );
}

#[test]
fn access_dialogue_until_granted() {
    let (p, a) = access_step(AccessPhase::Start, AccessEvent::Trusted(false));
    assert_eq!((p, a), (AccessPhase::Prompting, AccessAction::CheckWithPrompt));
    let (p, a) = access_step(p, AccessEvent::Trusted(false));
    assert_eq!((p, a), (AccessPhase::Alerting, AccessAction::ShowAlert));
    let (p, a) = access_step(p, AccessEvent::Button(1001));
    assert_eq!((p, a), (AccessPhase::Prompting, AccessAction::CheckWithPrompt));
    let (p, a) = access_step(p, AccessEvent::Trusted(true));
    assert_eq!((p, a), (AccessPhase::Done, AccessAction::Relaunch));
}

#[test]
fn access_answer_1002_terminates() {
    assert_eq!(
        access_step(AccessPhase::Alerting, AccessEvent::Button(1002)),
        (AccessPhase::Prompting, AccessAction::Terminate)
    );
}

#[test]
fn oversized_reply_is_malformed() {
    let long_key = "a".repeat(40000);
    let reply = format!("{{\"Version\":\"1\",\"{}\":{{\"{}\":1}}}}", long_key, long_key);
    assert!(matches!(check_update_response(200, &reply), UpdateCheck::Malformed));
}

#[test]
fn long_reply_within_bytes_is_read() {
    let padding = "p".repeat(20000);
    let reply = format!("{{\"Version\":\"0.4.0\",\"padding\":\"{}\"}}", padding);
    match check_update_response(200, &reply) {
        UpdateCheck::NewVersion(v) => assert_eq!(v, "0.4.0"),
        other => panic!("unexpected {:?}", other),
    }
}

#[test]
fn deeply_nested_reply_is_malformed() {
    let reply = format!("{{\"Version\":\"0.4\",\"x\":{}1{}}}", "[".repeat(300), "]".repeat(300));
    assert!(matches!(check_update_response(200, &reply), UpdateCheck::Malformed));
    let nested = format!("{{\"Version\":\"0.4\",\"x\":{}1{}}}", "[".repeat(255), "]".repeat(255));
    match check_update_response(200, &nested) {
        UpdateCheck::NewVersion(v) => assert_eq!(v, "0.4"),
        other => panic!("unexpected {:?}", other),
    }
}

#[test]
fn many_shallow_brackets_are_read() {
    let items = "[1],".repeat(500);
    let reply = format!("{{\"Version\":\"0.4\",\"x\":[{}[2]]}}", items);
    match check_update_response(200, &reply) {
        UpdateCheck::NewVersion(v) => assert_eq!(v, "0.4"),
        other => panic!("unexpected {:?}", other),
    }
}

#[test]
fn overflowing_exponent_reply_is_malformed() {
    assert!(matches!(
        check_update_response(200, "{\"Version\":\"0.4\",\"x\":1e123456789012345678901}"),
        UpdateCheck::Malformed
    ));
    match check_update_response(200, "{\"Version\":\"0.4\",\"x\":1e+1234567890}") {
        UpdateCheck::NewVersion(v) => assert_eq!(v, "0.4"),
        other => panic!("unexpected {:?}", other),
    }
}

#[test]
fn string_contents_are_not_structure() {
    match check_update_response(200, "{\"Version\":\"0.4\",\"x\":\"[[[ ,} e123456789012345678901 \\\" ,}\"}") {
        UpdateCheck::NewVersion(v) => assert_eq!(v, "0.4"),
        other => panic!("unexpected {:?}", other),
    }
}

#[test]
fn comma_before_brace_reply_is_malformed() {
    assert!(matches!(
        check_update_response(200, "{\"Version\":\"0.4\",\"x\":{\"b\":1, }}"),
        UpdateCheck::Malformed
    ));
    assert!(matches!(
        check_update_response(200, "[{\"Version\":\"0.4\",\"x\":[{\"b\":1,}]}]"),
        UpdateCheck::Malformed
    ));
}

#[test]
fn json_bounds() {
    assert!(json_text_bounded("{\"Version\":\"0.3.5\"}"));
    assert!(!json_text_bounded(&"[".repeat(257)));
    assert!(json_text_bounded(&"[".repeat(256)));
    assert!(json_text_bounded(&"[]".repeat(1000)));
    assert!(!json_text_bounded(&"a".repeat(65536)));
    assert!(json_text_bounded(&"a".repeat(65535)));
    assert!(!json_text_bounded(&"é".repeat(32768)));
    assert!(json_text_bounded(&"é".repeat(32767)));
    assert!(!json_text_bounded("1E-123456789012345678901"));
    assert!(json_text_bounded("1E-1234567890123456789"));
    assert!(json_text_bounded("\"1E-123456789012345678901\""));
    assert!(json_text_bounded("[1,\n]"));
    assert!(!json_text_bounded("{\"a\":1,\t}"));
    assert!(json_text_bounded("{\"a\":\",}\"}"));
}

#[test]
fn absolute_resource_path_replaces() {
    assert_eq!(
        get_res_path("/Applications/Tickeys.app/Contents/MacOS/Tickeys", "/tmp/schemes.json"),
        "/tmp/schemes.json"
    );
}
