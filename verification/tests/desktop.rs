use wayscriber::desktop::{
    desktop_matches, main_surface_uses_overlay_layer_with_env, startup_activation_token_from_env,
};

#[test]
fn main_surface_uses_overlay_layer_for_niri_desktop() {
    assert!(main_surface_uses_overlay_layer_with_env("niri", "", ""));
    assert!(main_surface_uses_overlay_layer_with_env(
        "Hyprland:Niri",
        "",
        ""
    ));
}

#[test]
fn main_surface_uses_overlay_layer_for_niri_session() {
    assert!(main_surface_uses_overlay_layer_with_env("", "NIRI", ""));
}

#[test]
fn main_surface_uses_overlay_layer_for_niri_desktop_session() {
    assert!(main_surface_uses_overlay_layer_with_env("", "", "niri"));
}

#[test]
fn main_surface_stays_on_top_layer_for_other_desktops() {
    assert!(!main_surface_uses_overlay_layer_with_env(
        "Hyprland", "", ""
    ));
    assert!(!main_surface_uses_overlay_layer_with_env(
        "KDE", "plasma", ""
    ));
}

#[test]
fn desktop_entries_are_trimmed_and_case_folded() {
    assert!(desktop_matches(" GNOME : niri ", "niri"));
    assert!(!desktop_matches("niri-session", "niri"));
    assert!(!desktop_matches("", "niri"));
}

#[test]
fn startup_token_is_trimmed_and_empty_is_absent() {
    assert_eq!(
        startup_activation_token_from_env(Some("  abc \n")).as_deref(),
        Some("abc")
    );
    assert_eq!(startup_activation_token_from_env(Some("   ")), None);
    assert_eq!(startup_activation_token_from_env(None), None);
}
