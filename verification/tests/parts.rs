use droppher::classify::{classify_message, is_player_chat_exec, ChatEvent};
use droppher::extract::{extract_chat_exec, strip_escapes_exec};
use droppher::locale::Locale;
use droppher::mapinfo::{handle_map, MapInfo, MapInfoTable};
use droppher::paths::{
    get_badlion_log_path, get_latest_file_path, get_lunar_client_directory_path,
    get_lunar_client_log_path, LogDirEntry,
};

#[test]
fn stripping_leaves_escape_free_text_unchanged() {
    assert_eq!(strip_escapes_exec("Hello, world!"), "Hello, world!");
    assert_eq!(strip_escapes_exec(""), "");
}

#[test]
fn stripping_removes_each_escape_and_its_follower() {
    assert_eq!(strip_escapes_exec("\u{a7}aRed\u{a7}bBlue"), "RedBlue");
    assert_eq!(strip_escapes_exec("\u{a7}\u{a7}x"), "x");
    assert_eq!(strip_escapes_exec("plain\u{a7}"), "plain\u{a7}");
}

#[test]
fn extraction_accepts_exactly_one_envelope() {
    assert_eq!(extract_chat_exec("[12:00] [Client thread/INFO]: [CHAT] hello"), Some("hello".to_string()));
    assert_eq!(extract_chat_exec("no envelope here"), None);
    assert_eq!(extract_chat_exec("[CHAT] a [CHAT] b"), None);
    assert_eq!(extract_chat_exec("[CHAT] "), None);
}

#[test]
fn extraction_strips_escapes_from_the_payload() {
    assert_eq!(extract_chat_exec("[CHAT] \u{a7}6gold\u{a7}r text"), Some("gold text".to_string()));
}

#[test]
fn a_stripped_away_envelope_discards_the_line() {
    // The escape swallows the opening bracket, so after stripping no
    // envelope is left to match.
    assert_eq!(extract_chat_exec("\u{a7}[CHAT] hello"), None);
}

#[test]
fn player_chat_shapes_are_recognised() {
    assert!(is_player_chat_exec("Notch: hello"));
    assert!(is_player_chat_exec("x_54: hi"));
    assert!(is_player_chat_exec("[VIP+] Notch: hi"));
    assert!(is_player_chat_exec("[MVP] a_b: hi"));
    assert!(!is_player_chat_exec("You finished Map X!"));
    assert!(!is_player_chat_exec(": no name"));
    assert!(!is_player_chat_exec("[VIP+] hi"));
    assert!(!is_player_chat_exec("[] Notch: hi"));
    assert!(!is_player_chat_exec("Notch:no space"));
}

#[test]
fn classification_tries_finish_first_then_selection() {
    let r = classify_message("You finished Map Castle!", Locale::English);
    assert!(matches!(r, Some(ChatEvent::MapFinished)));
    let r = classify_message("Selected Maps: Castle, Farm", Locale::English);
    match r {
        Some(ChatEvent::MapsSelected(names)) => {
            assert_eq!(names, vec!["Castle".to_string(), "Farm".to_string()]);
        },
        _ => panic!("expected a selection event"),
    }
    let r = classify_message("Welcome to the lobby!", Locale::English);
    assert!(r.is_none());
}

#[test]
fn selection_needs_at_least_one_name_character() {
    let r = classify_message("Selected Maps: ", Locale::English);
    assert!(r.is_none());
    let r = classify_message("Selected Maps: !", Locale::English);
    assert!(r.is_none());
}

#[test]
fn selection_capture_stops_at_a_foreign_character() {
    let r = classify_message("Selected Maps: O'Brien's Keep, Farm! ignored", Locale::English);
    match r {
        Some(ChatEvent::MapsSelected(names)) => {
            assert_eq!(names, vec!["O'Brien's Keep".to_string(), "Farm".to_string()]);
        },
        _ => panic!("expected a selection event"),
    }
}

fn sample_table() -> MapInfoTable {
    MapInfoTable {
        entries: vec![
            (
                "Castle".to_string(),
                MapInfo {
                    difficulty: "Hard".to_string(),
                    tip: Some("Jump early".to_string()),
                    portal_skip: true,
                    portal_skip_tip: Some("left side".to_string()),
                },
            ),
            (
                "Farm".to_string(),
                MapInfo {
                    difficulty: "Easy".to_string(),
                    tip: None,
                    portal_skip: false,
                    portal_skip_tip: None,
                },
            ),
        ],
    }
}

#[test]
fn full_map_info_renders_every_field() {
    let t = sample_table();
    assert_eq!(t.render_info("Castle"), "Hard | Jump early | SKIP (left side)");
    assert_eq!(handle_map("Castle", &t), "You are now on Castle\nHard | Jump early | SKIP (left side)");
}

#[test]
fn missing_fields_fall_back_to_defaults() {
    let t = sample_table();
    assert_eq!(t.render_info("Farm"), "Easy | no tip");
}

#[test]
fn unknown_map_renders_an_empty_info_section() {
    let t = sample_table();
    assert_eq!(t.render_info("Nowhere"), "");
    assert_eq!(handle_map("Nowhere", &t), "You are now on Nowhere\n");
}

#[test]
fn first_entry_with_a_name_wins() {
    let t = MapInfoTable {
        entries: vec![
            (
                "A".to_string(),
                MapInfo {
                    difficulty: "first".to_string(),
                    tip: None,
                    portal_skip: false,
                    portal_skip_tip: None,
                },
            ),
            (
                "A".to_string(),
                MapInfo {
                    difficulty: "second".to_string(),
                    tip: None,
                    portal_skip: false,
                    portal_skip_tip: None,
                },
            ),
        ],
    };
    assert_eq!(t.render_info("A"), "first | no tip");
}

fn entry(path: &str, modified: u64) -> LogDirEntry {
    LogDirEntry { path: path.to_string(), modified }
}

#[test]
fn latest_file_is_the_first_most_recent() {
    let entries = vec![entry("a", 5), entry("b", 9), entry("c", 9), entry("d", 3)];
    assert_eq!(get_latest_file_path(&entries), Some("b".to_string()));
    assert_eq!(get_latest_file_path(&Vec::new()), None);
}

#[test]
fn lunar_directory_is_under_the_home_directory() {
    assert_eq!(
        get_lunar_client_directory_path(Some("/home/u".to_string())),
        Some("/home/u/.lunarclient/logs/game".to_string())
    );
    assert_eq!(get_lunar_client_directory_path(None), None);
}

#[test]
fn lunar_log_path_picks_the_latest_listed_file() {
    let entries = vec![entry("old.log", 1), entry("latest.log", 7)];
    assert_eq!(
        get_lunar_client_log_path(Some("/home/u".to_string()), &entries),
        Some("latest.log".to_string())
    );
    assert_eq!(get_lunar_client_log_path(None, &entries), None);
    assert_eq!(get_lunar_client_log_path(Some("/home/u".to_string()), &Vec::new()), None);
}

#[test]
fn badlion_log_path_is_fixed_under_appdata() {
    assert_eq!(
        get_badlion_log_path(Some("C:\\Users\\u\\AppData\\Roaming".to_string())),
        Some("C:\\Users\\u\\AppData\\Roaming\\.minecraft\\logs\\blclient\\minecraft\\latest.log".to_string())
    );
    assert_eq!(get_badlion_log_path(None), None);
}
