use agent_core::tool_card::{
    build_title_text, header_background, loading_header_line, results_count_label, terminal_header_line,
    CollapsibleSearchResultsState, HeaderBackground, TextTone, ToolCardState,
};

#[test]
fn pending_card_appends_ellipsis() {
    let t = build_title_text(&ToolCardState::Pending { verb: "Reading file".to_string() });
    assert_eq!(t.main.text, "Reading file...");
    assert_eq!(t.main.tone, TextTone::Sub);
    assert!(t.detail.is_none());
}

#[test]
fn running_card_shimmers() {
    let state = ToolCardState::Running { title: "grep TODO".to_string() };
    assert!(state.is_running());
    let t = build_title_text(&state);
    assert!(t.main.shimmer);
    assert_eq!(t.main.text, "grep TODO");
}

#[test]
fn permission_card_has_warning_background_and_detail() {
    let state = ToolCardState::PermissionPending {
        title: "ls".to_string(),
        detail: "OK if I run this command?".to_string(),
    };
    assert!(state.is_permission_pending());
    assert_eq!(header_background(&state), HeaderBackground::Warning);
    let t = build_title_text(&state);
    assert_eq!(t.main.tone, TextTone::Main);
    let d = t.detail.expect("detail line");
    assert_eq!(d.text, "OK if I run this command?");
    assert!(d.smaller);
    assert_eq!(d.tone, TextTone::Sub);
}

#[test]
fn denied_card_is_struck_through_entirely() {
    let state = ToolCardState::Error { title: "rm -rf /tmp/x".to_string(), denied: true, detail: None };
    assert!(state.is_denied());
    assert_eq!(header_background(&state), HeaderBackground::Surface);
    let t = build_title_text(&state);
    assert_eq!(t.main.struck_chars, 13);
    assert!(t.detail.is_none());
}

#[test]
fn failed_card_shows_error_detail_without_strike() {
    let state = ToolCardState::Error {
        title: "fetch".to_string(),
        denied: false,
        detail: Some("timed out".to_string()),
    };
    assert!(!state.is_denied());
    let t = build_title_text(&state);
    assert_eq!(t.main.struck_chars, 0);
    assert_eq!(t.detail.expect("detail").tone, TextTone::Error);
}

#[test]
fn completed_card_uses_main_tone() {
    let state = ToolCardState::Completed { title: "done".to_string() };
    assert!(state.is_completed());
    let t = build_title_text(&state);
    assert_eq!(t.main.tone, TextTone::Main);
}

#[test]
fn terminal_and_loading_headers() {
    let l = terminal_header_line("Searched é".to_string());
    assert_eq!(l.struck_chars, 10);
    assert_eq!(loading_header_line("Searching".to_string(), true).tone, TextTone::Sub);
    assert_eq!(loading_header_line("Searching".to_string(), false).tone, TextTone::Main);
}

#[test]
fn collapsible_results_toggle_and_label() {
    let mut s = CollapsibleSearchResultsState::new();
    assert!(!s.shows_body(true));
    s.toggle_expanded();
    assert!(s.shows_body(true));
    assert!(!s.shows_body(false));
    s.toggle_expanded();
    assert_eq!(s, CollapsibleSearchResultsState::default());
    assert_eq!(results_count_label(12, "results"), "12 results");
    assert_eq!(results_count_label(0, "files"), "0 files");
}
