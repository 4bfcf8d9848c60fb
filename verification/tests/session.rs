use droppher::cursor::LogCursor;
use droppher::locale::Locale;
use droppher::machine::{render_game_started, SessionState};

fn new_session(locale: Locale) -> SessionState {
    SessionState::new(locale, "latest.log".to_string(), 0)
}

#[test]
fn selection_event_starts_game_and_activates_first() {
    let mut s = new_session(Locale::English);
    let out = s.process_line("[CHAT] Selected Maps: Skyblock, Castle, Farm");
    assert_eq!(s.queue, vec!["Castle".to_string(), "Farm".to_string()]);
    assert_eq!(out.activated, Some("Skyblock".to_string()));
    assert_eq!(
        out.game_started,
        Some(vec!["Skyblock".to_string(), "Castle".to_string(), "Farm".to_string()])
    );
    assert_eq!(s.current_map, Some("Skyblock".to_string()));
}

#[test]
fn game_started_notification_lists_all_maps() {
    let maps = vec!["Skyblock".to_string(), "Castle".to_string(), "Farm".to_string()];
    assert_eq!(render_game_started(&maps), "Game started! Maps: [Skyblock, Castle, Farm]");
}

#[test]
fn game_started_notification_for_one_map() {
    let maps = vec!["Skyblock".to_string()];
    assert_eq!(render_game_started(&maps), "Game started! Maps: [Skyblock]");
}

#[test]
fn finish_event_pops_exactly_the_front() {
    let mut s = new_session(Locale::English);
    s.process_line("[CHAT] Selected Maps: Skyblock, Castle, Farm");
    let out = s.process_line("[CHAT] You finished Map Skyblock!");
    assert_eq!(s.queue, vec!["Farm".to_string()]);
    assert_eq!(out.activated, Some("Castle".to_string()));
    assert_eq!(s.current_map, Some("Castle".to_string()));
    assert!(out.game_started.is_none());
}

#[test]
fn finish_event_on_empty_queue_is_a_noop() {
    let mut s = new_session(Locale::English);
    let out = s.process_line("[CHAT] You finished Map Skyblock!");
    assert!(s.queue.is_empty());
    assert!(out.activated.is_none());
    assert!(out.game_started.is_none());
    assert!(s.current_map.is_none());
}

#[test]
fn player_chat_is_fully_dropped() {
    let mut s = new_session(Locale::English);
    s.process_line("[CHAT] Selected Maps: Skyblock, Castle");
    let before = s.queue.clone();
    let out = s.process_line("[CHAT] Notch: hello everyone");
    assert_eq!(s.queue, before);
    assert!(out.activated.is_none());
    assert!(out.game_started.is_none());
}

#[test]
fn prefixed_player_chat_is_dropped_even_when_it_quotes_an_event() {
    let mut s = new_session(Locale::English);
    s.process_line("[CHAT] Selected Maps: Skyblock, Castle");
    let before = s.queue.clone();
    let out = s.process_line("[CHAT] [VIP+] Notch: Selected Maps: Farm, Castle");
    assert_eq!(s.queue, before);
    assert!(out.activated.is_none());
    assert!(out.game_started.is_none());
}

#[test]
fn replayed_discard_line_changes_nothing() {
    let mut s = new_session(Locale::English);
    s.process_line("[CHAT] Selected Maps: Skyblock, Castle");
    let before = s.queue.clone();
    let current = s.current_map.clone();
    for _ in 0..3 {
        let out = s.process_line("[CHAT] Notch: hello everyone");
        assert!(out.activated.is_none());
        assert!(out.game_started.is_none());
        assert_eq!(s.queue, before);
        assert_eq!(s.current_map, current);
    }
}

#[test]
fn replayed_non_chat_line_changes_nothing() {
    let mut s = new_session(Locale::English);
    s.process_line("[CHAT] Selected Maps: Skyblock, Castle");
    let before = s.queue.clone();
    for _ in 0..3 {
        let out = s.process_line("[12:00] [Render thread/INFO]: Stopping!");
        assert!(out.activated.is_none());
        assert!(out.game_started.is_none());
        assert_eq!(s.queue, before);
    }
}

#[test]
fn replayed_unmatched_system_message_changes_nothing() {
    let mut s = new_session(Locale::English);
    s.process_line("[CHAT] Selected Maps: Skyblock, Castle");
    let before = s.queue.clone();
    for _ in 0..3 {
        let out = s.process_line("[CHAT] Welcome to the lobby!");
        assert!(out.activated.is_none());
        assert!(out.game_started.is_none());
        assert_eq!(s.queue, before);
    }
}

#[test]
fn duplicate_event_line_is_deduplicated() {
    let mut s = new_session(Locale::English);
    let first = s.process_line("[CHAT] Selected Maps: Skyblock, Castle");
    assert!(first.game_started.is_some());
    let replay = s.process_line("[CHAT] Selected Maps: Skyblock, Castle");
    assert!(replay.game_started.is_none());
    assert!(replay.activated.is_none());
    assert_eq!(s.queue, vec!["Castle".to_string()]);
}

#[test]
fn finish_is_checked_before_selection() {
    let mut s = new_session(Locale::English);
    s.process_line("[CHAT] Selected Maps: A, B");
    let out = s.process_line("[CHAT] You finished Map Selected Maps: C, D");
    assert_eq!(out.activated, Some("B".to_string()));
    assert!(out.game_started.is_none());
    assert!(s.queue.is_empty());
}

#[test]
fn formatting_escapes_are_stripped_before_matching() {
    let mut s = new_session(Locale::English);
    let out = s.process_line("[CHAT] \u{a7}aSelected Maps: \u{a7}bOne, Two");
    assert_eq!(out.activated, Some("One".to_string()));
    assert_eq!(s.queue, vec!["Two".to_string()]);
}

#[test]
fn spanish_locale_uses_its_own_patterns() {
    let mut s = new_session(Locale::Spanish);
    let out = s.process_line("[CHAT] Mapas Seleccionados: Uno, Dos");
    assert_eq!(s.queue, vec!["Dos".to_string()]);
    assert_eq!(out.activated, Some("Uno".to_string()));
    let out2 = s.process_line("[CHAT] \u{a1}Terminaste el Mapa Uno!");
    assert_eq!(out2.activated, Some("Dos".to_string()));
    assert!(s.queue.is_empty());
}

#[test]
fn english_patterns_mean_nothing_to_a_spanish_session() {
    let mut s = new_session(Locale::Spanish);
    let out = s.process_line("[CHAT] Selected Maps: Skyblock, Castle");
    assert!(s.queue.is_empty());
    assert!(out.activated.is_none());
    assert!(out.game_started.is_none());
}

#[test]
fn empty_captured_names_are_kept_as_captured() {
    let mut s = new_session(Locale::English);
    let out = s.process_line("[CHAT] Selected Maps: A, , B");
    assert_eq!(out.activated, Some("A".to_string()));
    assert_eq!(s.queue, vec!["".to_string(), "B".to_string()]);
}

#[test]
fn cursor_starts_at_tail_and_advances_one_per_poll() {
    let mut c = LogCursor::new("latest.log".to_string(), 3);
    assert_eq!(c.next_line_index, 2);
    let mut lines = vec!["a".to_string(), "b".to_string(), "c".to_string()];
    assert_eq!(c.poll(&lines), Some("c".to_string()));
    assert_eq!(c.next_line_index, 3);
    assert_eq!(c.poll(&lines), None);
    assert_eq!(c.next_line_index, 3);
    lines.push("d".to_string());
    assert_eq!(c.poll(&lines), Some("d".to_string()));
    assert_eq!(c.next_line_index, 4);
}

#[test]
fn cursor_on_empty_file_starts_at_zero() {
    let mut c = LogCursor::new("latest.log".to_string(), 0);
    assert_eq!(c.next_line_index, 0);
    let lines: Vec<String> = Vec::new();
    assert_eq!(c.poll(&lines), None);
    assert_eq!(c.next_line_index, 0);
}

#[test]
fn truncated_file_stalls_the_cursor() {
    let mut c = LogCursor::new("latest.log".to_string(), 3);
    let lines = vec!["a".to_string()];
    assert_eq!(c.poll(&lines), None);
    assert_eq!(c.next_line_index, 2);
}

#[test]
fn on_poll_processes_only_new_lines() {
    let mut s = SessionState::new(Locale::English, "latest.log".to_string(), 1);
    let mut lines = vec!["old noise".to_string()];
    let out = s.on_poll(&lines);
    assert!(out.activated.is_none());
    lines.push("[CHAT] Selected Maps: A, B".to_string());
    let out = s.on_poll(&lines);
    assert_eq!(out.activated, Some("A".to_string()));
    assert_eq!(s.queue, vec!["B".to_string()]);
    let out = s.on_poll(&lines);
    assert!(out.activated.is_none());
    assert!(out.game_started.is_none());
    assert_eq!(s.cursor.next_line_index, 2);
}
