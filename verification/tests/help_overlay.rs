use wayscriber::help_overlay::{HelpOverlayCursorHint, HelpOverlayState, HELP_OVERLAY_MAX_PAGES};

#[test]
fn toggle_help_overlay_opens_and_tracks_usage() {
    let mut state = HelpOverlayState::new();
    let out = state.toggle_help_overlay();

    assert!(state.show_help);
    assert!(!state.quick_mode);
    assert!(out.opened);
    assert!(out.reset_scroll);
    assert_eq!(state.page, 0);
}

#[test]
fn toggle_quick_help_closes_when_already_in_quick_mode() {
    let mut state = HelpOverlayState::new();
    state.toggle_quick_help();
    assert!(state.show_help);
    assert!(state.quick_mode);

    let out = state.toggle_quick_help();
    assert!(!out.opened);
    assert!(!state.show_help);
    assert!(!state.quick_mode);
}

#[test]
fn help_overlay_page_navigation_resets_scroll_and_respects_bounds() {
    let mut state = HelpOverlayState::new();
    // A successful move is what resets the scroll offset.
    assert!(state.help_overlay_next_page());
    assert_eq!(state.page, 1);

    state.page = HELP_OVERLAY_MAX_PAGES - 1;
    assert!(!state.help_overlay_next_page());
    assert!(state.help_overlay_prev_page());
    assert_eq!(state.page, HELP_OVERLAY_MAX_PAGES - 2);
}

#[test]
fn help_search_insert_and_cursor_movement_handle_unicode_scalars() {
    let mut state = HelpOverlayState::new();
    state.help_search_insert("a🙂");
    assert_eq!(state.search_text(), "a🙂");
    assert_eq!(state.search_cursor, 2);

    state.help_search_cursor_left();
    assert_eq!(state.search_cursor, 1);
    state.help_search_cursor_right();
    assert_eq!(state.search_cursor, 2);
}

#[test]
fn help_search_backspace_removes_previous_unicode_character() {
    let mut state = HelpOverlayState::new();
    state.search = "a🙂b".chars().collect();
    state.search_cursor = 2;

    state.help_search_backspace();

    assert_eq!(state.search_text(), "ab");
    assert_eq!(state.search_cursor, 1);
}

#[test]
fn help_overlay_cursor_hint_uses_nav_region_and_overlay_bounds() {
    let mut state = HelpOverlayState::new();
    state.toggle_help_overlay();

    assert_eq!(
        state.help_overlay_cursor_hint_at(200, 60, 1000, 800),
        Some(HelpOverlayCursorHint::Text)
    );
    assert_eq!(
        state.help_overlay_cursor_hint_at(200, 200, 1000, 800),
        Some(HelpOverlayCursorHint::Default)
    );
    assert_eq!(state.help_overlay_cursor_hint_at(5, 5, 1000, 800), None);
}

#[test]
fn cursor_hint_is_absent_while_hidden_and_includes_box_edges() {
    let mut state = HelpOverlayState::new();
    assert_eq!(state.help_overlay_cursor_hint_at(500, 400, 1000, 800), None);
    state.toggle_help_overlay();
    // Left edge at x = 100, top edge at y = 40, right edge at x = 900, bottom at y = 760.
    assert_eq!(
        state.help_overlay_cursor_hint_at(100, 40, 1000, 800),
        Some(HelpOverlayCursorHint::Text)
    );
    assert_eq!(state.help_overlay_cursor_hint_at(99, 400, 1000, 800), None);
    assert_eq!(
        state.help_overlay_cursor_hint_at(900, 760, 1000, 800),
        Some(HelpOverlayCursorHint::Default)
    );
    assert_eq!(state.help_overlay_cursor_hint_at(901, 400, 1000, 800), None);
    // The navigation area ends 80 pixels below the top edge.
    assert_eq!(
        state.help_overlay_cursor_hint_at(500, 120, 1000, 800),
        Some(HelpOverlayCursorHint::Text)
    );
    assert_eq!(
        state.help_overlay_cursor_hint_at(500, 121, 1000, 800),
        Some(HelpOverlayCursorHint::Default)
    );
}

#[test]
fn insert_then_backspace_restores_the_search() {
    let mut state = HelpOverlayState::new();
    state.help_search_insert("abc");
    state.search_cursor = 1;
    state.help_search_insert("Z");
    assert_eq!(state.search_text(), "aZbc");
    assert_eq!(state.search_cursor, 2);
    state.help_search_backspace();
    assert_eq!(state.search_text(), "abc");
    assert_eq!(state.search_cursor, 1);
}

#[test]
fn closing_keeps_the_page_and_reopening_starts_on_page_one() {
    let mut state = HelpOverlayState::new();
    state.toggle_help_overlay();
    state.help_overlay_next_page();
    state.help_overlay_next_page();
    let out = state.toggle_help_overlay();
    assert!(!out.opened);
    assert_eq!(state.page, 2);
    state.toggle_help_overlay();
    assert_eq!(state.page, 0);
    assert!(!state.help_overlay_prev_page());
}

#[test]
fn clearing_search_resets_text_and_cursor() {
    let mut state = HelpOverlayState::new();
    state.help_search_insert("zoom");
    state.clear_help_search();
    assert_eq!(state.search_text(), "");
    assert_eq!(state.search_cursor, 0);
    assert!(!state.help_search_backspace());
}
