use std::time::Duration;

use chudtendo::frontend::{
    format_elapsed_secs, half_refresh_nanos, half_refresh_ppu_delay, FrontendEffect,
    FrontendState, DEFAULT_PPU_DELAY_NANOS, HALF_REFRESH_MATCH_TOLERANCE_NANOS,
};
use chudtendo::menu::MenuAction;

#[test]
fn half_refresh_matches_120hz_panel() {
    let delay = half_refresh_ppu_delay(120).expect("120 Hz should use exact half-refresh");
    assert_eq!(delay, Duration::from_nanos(16_666_667));
}

#[test]
fn half_refresh_rejects_non_matching_60hz_panel() {
    assert_eq!(half_refresh_ppu_delay(60), None);
}

#[test]
fn half_refresh_stays_close_to_nominal_target() {
    let delay = half_refresh_ppu_delay(120).unwrap();
    assert!(
        delay.abs_diff(Duration::from_nanos(DEFAULT_PPU_DELAY_NANOS))
            <= Duration::from_nanos(HALF_REFRESH_MATCH_TOLERANCE_NANOS)
    );
}

#[test]
fn half_refresh_rejects_non_positive_rates() {
    assert_eq!(half_refresh_nanos(0), None);
    assert_eq!(half_refresh_nanos(-120), None);
    assert_eq!(half_refresh_nanos(119), Some(16_806_723));
}

#[test]
fn elapsed_labels() {
    assert_eq!(format_elapsed_secs(0), "just now");
    assert_eq!(format_elapsed_secs(59), "just now");
    assert_eq!(format_elapsed_secs(60), "1m ago");
    assert_eq!(format_elapsed_secs(3599), "59m ago");
    assert_eq!(format_elapsed_secs(7200), "2h ago");
    assert_eq!(format_elapsed_secs(86400 * 12), "12d ago");
}

#[test]
fn menu_toggles_and_scale_limits() {
    let mut state = FrontendState::new(4);
    assert_eq!(
        state.handle_menu_action(MenuAction::ToggleFastForward),
        FrontendEffect::SetFastForward(true)
    );
    assert_eq!(
        state.handle_menu_action(MenuAction::ToggleFastForward),
        FrontendEffect::SetFastForward(false)
    );
    assert_eq!(state.handle_menu_action(MenuAction::ToggleRewind), FrontendEffect::StartRewind);
    assert_eq!(state.handle_menu_action(MenuAction::ToggleRewind), FrontendEffect::StopRewind);
    assert_eq!(state.handle_menu_action(MenuAction::SetScale(9)), FrontendEffect::Nothing);
    assert_eq!(state.current_scale, 4);
    assert_eq!(state.handle_menu_action(MenuAction::SetScale(2)), FrontendEffect::Rescale(2));
    assert_eq!(state.current_scale, 2);
    assert_eq!(
        state.handle_menu_action(MenuAction::SaveState(3)),
        FrontendEffect::SaveState(3)
    );
}

#[test]
fn rewind_captures_every_fourth_frame() {
    let mut state = FrontendState::new(1);
    assert!(!state.capture_rewind_frame(3));
    assert!(state.capture_rewind_frame(4));
    assert!(!state.capture_rewind_frame(7));
    assert!(state.capture_rewind_frame(8));
    state.rewinding = true;
    assert!(!state.capture_rewind_frame(100));
}
