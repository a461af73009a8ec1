use wayscriber::command_palette::{
    command_palette_height, command_palette_visible_count, CommandPaletteState,
    COMMAND_PALETTE_MAX_HEIGHT, COMMAND_PALETTE_MAX_VISIBLE,
};
use wayscriber::keys::{should_try_toolbar_key, Key};

#[test]
fn visible_count_caps_at_max_visible() {
    assert_eq!(command_palette_visible_count(0), 0);
    assert_eq!(command_palette_visible_count(3), 3);
    assert_eq!(
        command_palette_visible_count(99),
        COMMAND_PALETTE_MAX_VISIBLE
    );
}

#[test]
fn toolbar_routing_is_blocked_when_command_palette_is_open() {
    assert!(!should_try_toolbar_key(Key::Tab, true));
    assert!(!should_try_toolbar_key(Key::Return, true));
    assert!(!should_try_toolbar_key(Key::Space, true));
}

#[test]
fn toolbar_routing_only_allows_activate_and_tab_keys() {
    assert!(should_try_toolbar_key(Key::Tab, false));
    assert!(should_try_toolbar_key(Key::Return, false));
    assert!(should_try_toolbar_key(Key::Space, false));
    assert!(!should_try_toolbar_key(Key::Down, false));
}

#[test]
fn down_key_scrolls_once_selection_moves_past_visible_window() {
    let mut state = CommandPaletteState::new();
    state.toggle();
    for _ in 0..COMMAND_PALETTE_MAX_VISIBLE {
        let out = state.handle_key(Key::Down, 20);
        assert!(out.handled);
    }
    assert_eq!(state.selected, COMMAND_PALETTE_MAX_VISIBLE);
    assert_eq!(state.scroll, 1);
    for _ in 0..COMMAND_PALETTE_MAX_VISIBLE {
        state.handle_key(Key::Up, 20);
    }
    assert_eq!(state.selected, 0);
    assert_eq!(state.scroll, 0);
}

#[test]
fn backspace_resets_selection_and_scroll_when_query_changes() {
    let mut state = CommandPaletteState::new();
    state.toggle();
    state.query = "zoom".chars().collect();
    state.selected = 4;
    state.scroll = 3;
    let out = state.handle_key(Key::Backspace, 20);
    assert!(out.handled);
    assert_eq!(state.query_text(), "zoo");
    assert_eq!(state.selected, 0);
    assert_eq!(state.scroll, 0);
}

#[test]
fn toggle_command_palette_opens_and_tracks_usage() {
    let mut state = CommandPaletteState::new();
    assert!(!state.open);
    let opened = state.toggle();
    assert!(opened);
    assert!(state.open);
    assert_eq!(state.selected, 0);
    assert_eq!(state.scroll, 0);
}

#[test]
fn char_key_appends_query_and_resets_selection_and_scroll() {
    let mut state = CommandPaletteState::new();
    state.toggle();
    state.selected = 3;
    state.scroll = 2;
    let out = state.handle_key(Key::Char('z'), 20);
    assert!(out.handled);
    assert_eq!(state.query_text(), "z");
    assert_eq!(state.selected, 0);
    assert_eq!(state.scroll, 0);
}

#[test]
fn clicking_outside_palette_closes_it() {
    let mut state = CommandPaletteState::new();
    state.toggle();
    let out = state.handle_click(false, None, 20);
    assert!(out.handled);
    assert!(!state.open);
}

#[test]
fn clicking_input_region_keeps_palette_open_without_executing() {
    let mut state = CommandPaletteState::new();
    state.toggle();
    state.query = "status".chars().collect();
    state.selected = 1;
    let out = state.handle_click(true, None, 5);
    assert!(out.handled);
    assert!(out.execute.is_none());
    assert!(state.open);
    assert_eq!(state.selected, 1);
}

#[test]
fn clicking_visible_item_executes_selected_command_and_sets_toast() {
    let mut state = CommandPaletteState::new();
    state.toggle();
    state.query = "status bar".chars().collect();
    state.selected = 0;
    let out = state.handle_click(true, Some(0), 3);
    assert!(out.handled);
    assert_eq!(out.execute, Some(0));
    assert!(!state.open);
}

#[test]
fn escape_key_closes_command_palette() {
    let mut state = CommandPaletteState::new();
    state.toggle();
    let out = state.handle_key(Key::Escape, 3);
    assert!(out.handled && out.full_damage);
    assert!(!state.open);
    assert!(!state.handle_key(Key::Escape, 3).handled);
}

#[test]
fn return_key_executes_selected_command_and_records_it() {
    let mut state = CommandPaletteState::new();
    state.toggle();
    state.handle_key(Key::Down, 3);
    let out = state.handle_key(Key::Return, 3);
    assert_eq!(out.execute, Some(1));
    assert!(!state.open);
}

#[test]
fn clicks_close_select_or_keep_the_palette() {
    let mut state = CommandPaletteState::new();
    state.toggle();
    let out = state.handle_click(true, None, 4);
    assert!(out.handled && out.execute.is_none() && state.open);
    let out = state.handle_click(true, Some(2), 4);
    assert_eq!(out.execute, Some(2));
    assert!(!state.open);
    state.toggle();
    let out = state.handle_click(false, None, 4);
    assert!(out.handled && out.execute.is_none() && !state.open);
}

#[test]
fn command_palette_height_clamps_to_maximum() {
    assert!(command_palette_height(1) < COMMAND_PALETTE_MAX_HEIGHT);
    assert_eq!(
        command_palette_height(COMMAND_PALETTE_MAX_VISIBLE),
        COMMAND_PALETTE_MAX_HEIGHT
    );
}

#[test]
fn command_palette_height_adds_one_row_height_per_item() {
    assert_eq!(command_palette_height(0), 104);
    assert_eq!(command_palette_height(1), 136);
    assert_eq!(command_palette_height(9), 392);
    assert_eq!(command_palette_height(usize::MAX), 420);
}
