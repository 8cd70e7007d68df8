use barely_game_console::controller::{AnimationController, AnimationState, Completion};
use barely_game_console::easing::{bouncy_easing, SCALE};
use barely_game_console::timeline::Animation;

fn settled_showing_x() -> AnimationController {
    let mut c = AnimationController::new(800, 600);
    assert!(c.request(Some("X".to_string()), 0));
    assert_eq!(c.advance(600), Some(Completion::Settled));
    assert_eq!(c.state, AnimationState::Settled);
    c
}

#[test]
fn fresh_controller_is_offscreen() {
    let c = AnimationController::new(800, 600);
    assert_eq!(c.state, AnimationState::Offscreen);
    assert_eq!(c.sample(0), (800, false));
    assert!(!c.is_idle());
    assert_eq!(c.pending, None);
    assert_eq!(c.active, None);
}

#[test]
fn hide_while_offscreen_does_nothing() {
    let mut c = AnimationController::new(800, 600);
    assert!(!c.request(None, 5));
    assert_eq!(c.state, AnimationState::Offscreen);
    assert_eq!(c.advance(1_000), None);
    assert_eq!(c.state, AnimationState::Offscreen);
}

#[test]
fn entry_from_offscreen_settles() {
    let mut c = AnimationController::new(800, 600);
    assert!(c.request(Some("X".to_string()), 0));
    assert_eq!(c.state, AnimationState::EnteringForward(Animation::new(600, 0)));
    assert_eq!(c.active, Some("X".to_string()));
    assert_eq!(c.sample(0), (800, true));
    assert_eq!(c.sample(600), (0, false));
    assert_eq!(c.advance(600), Some(Completion::Settled));
    assert_eq!(c.state, AnimationState::Settled);
    assert!(c.is_idle());
}

#[test]
fn entry_offset_follows_the_easing() {
    let mut c = AnimationController::new(800, 600);
    c.request(Some("X".to_string()), 0);
    let eased = bouncy_easing(SCALE / 2) as i128;
    let expected = ((SCALE as i128 - eased) * 800 / SCALE as i128) as i64;
    assert_eq!(c.sample(300), (expected, true));
    assert_eq!(c.advance(300), None);
}

#[test]
fn hide_from_settled_goes_offscreen() {
    let mut c = settled_showing_x();
    assert!(!c.request(None, 1_000));
    assert_eq!(c.state, AnimationState::ExitingForward(Animation::new(600, 1_000)));
    assert_eq!(c.pending, None);
    assert_eq!(c.sample(1_000), (0, true));
    assert_eq!(c.advance(1_599), None);
    assert_eq!(c.advance(1_600), Some(Completion::Hidden));
    assert_eq!(c.state, AnimationState::Offscreen);
    assert_eq!(c.sample(1_600).0, 800);
}

#[test]
fn new_content_from_settled_swaps_after_exit() {
    let mut c = settled_showing_x();
    assert!(!c.request(Some("Y".to_string()), 2_000));
    assert_eq!(c.state, AnimationState::ExitingForward(Animation::new(600, 2_000)));
    assert_eq!(c.pending, Some("Y".to_string()));
    assert_eq!(c.active, Some("X".to_string()));
    assert_eq!(c.advance(2_600), Some(Completion::Entering));
    assert_eq!(c.state, AnimationState::EnteringForward(Animation::new(600, 2_600)));
    assert_eq!(c.active, Some("Y".to_string()));
    assert_eq!(c.pending, None);
}

#[test]
fn sampling_twice_gives_the_same_offset() {
    let mut c = AnimationController::new(800, 600);
    c.request(Some("X".to_string()), 0);
    let first = c.sample(250);
    let second = c.sample(250);
    let third = c.sample(250);
    assert_eq!(first, second);
    assert_eq!(second, third);
}

#[test]
fn settled_card_stays_at_zero() {
    let mut c = settled_showing_x();
    for t in [600, 700, 5_000, 100_000] {
        assert_eq!(c.advance(t), None);
        assert_eq!(c.state, AnimationState::Settled);
        assert_eq!(c.sample(t), (0, false));
    }
}

#[test]
fn interrupted_entry_does_not_snap() {
    let mut c = AnimationController::new(800, 600);
    c.request(Some("X".to_string()), 0);
    let before = c.sample(200).0;
    c.request(None, 200);
    assert_eq!(c.state, AnimationState::EnteringReversed(Animation::new(200, 200)));
    assert_eq!(c.sample(200).0, before);
}

#[test]
fn reversal_mirrors_the_entry() {
    let mut c = AnimationController::new(800, 600);
    c.request(Some("X".to_string()), 0);
    let at_100 = c.sample(100).0;
    c.request(None, 200);
    assert_eq!(c.sample(300), (at_100, true));
    assert_eq!(c.advance(399), None);
    assert_eq!(c.sample(400), (800, false));
    assert_eq!(c.advance(400), Some(Completion::Hidden));
    assert_eq!(c.state, AnimationState::Offscreen);
}

#[test]
fn reversal_then_new_content_enters() {
    let mut c = AnimationController::new(800, 600);
    c.request(Some("X".to_string()), 0);
    c.request(Some("Y".to_string()), 150);
    assert_eq!(c.pending, Some("Y".to_string()));
    assert_eq!(c.active, Some("X".to_string()));
    assert_eq!(c.advance(300), Some(Completion::Entering));
    assert_eq!(c.state, AnimationState::EnteringForward(Animation::new(600, 300)));
    assert_eq!(c.active, Some("Y".to_string()));
}

#[test]
fn latest_request_wins() {
    let mut c = settled_showing_x();
    c.request(Some("A".to_string()), 1_000);
    c.request(Some("B".to_string()), 1_100);
    assert_eq!(c.active, Some("X".to_string()));
    assert_eq!(c.pending, Some("B".to_string()));
    assert_eq!(c.advance(1_600), Some(Completion::Entering));
    assert_eq!(c.active, Some("B".to_string()));
    assert_eq!(c.advance(2_200), Some(Completion::Settled));
    assert_eq!(c.active, Some("B".to_string()));
    assert!(c.is_idle());
}

#[test]
fn hide_during_exit_cancels_pending() {
    let mut c = settled_showing_x();
    c.request(Some("Y".to_string()), 1_000);
    c.request(None, 1_200);
    assert_eq!(c.pending, None);
    assert_eq!(c.advance(1_600), Some(Completion::Hidden));
    assert_eq!(c.state, AnimationState::Offscreen);
    assert_eq!(c.active, Some("X".to_string()));
}

#[test]
fn clock_before_start_counts_as_start() {
    let mut c = AnimationController::new(800, 600);
    c.request(Some("X".to_string()), 1_000);
    assert_eq!(c.sample(900), (800, true));
    assert_eq!(c.advance(900), None);
}

#[test]
fn update_samples_then_advances() {
    let mut c = AnimationController::new(800, 600);
    c.request(Some("X".to_string()), 0);
    assert_eq!(c.update(0), 800);
    assert_eq!(c.update(600), 0);
    assert_eq!(c.state, AnimationState::Settled);
    assert_eq!(c.update(700), 0);
}

#[test]
fn exit_offset_overshoots_below_zero_early() {
    let mut c = settled_showing_x();
    c.request(None, 1_000);
    assert!(c.sample(1_060).0 < 0);
}

#[test]
fn reversal_at_entry_start_waits_for_its_start() {
    let mut c = AnimationController::new(800, 600);
    c.request(Some("X".to_string()), 5_000);
    c.request(None, 5_000);
    assert_eq!(c.state, AnimationState::EnteringReversed(Animation::new(0, 5_000)));
    assert_eq!(c.sample(4_000), (800, true));
    assert_eq!(c.advance(4_000), None);
    assert_eq!(c.state, AnimationState::EnteringReversed(Animation::new(0, 5_000)));
    assert_eq!(c.advance(5_000), Some(Completion::Hidden));
    assert_eq!(c.state, AnimationState::Offscreen);
}

#[test]
fn advance_before_timeline_start_changes_nothing() {
    let mut c = settled_showing_x();
    c.request(Some("Y".to_string()), 2_000);
    assert_eq!(c.advance(1_500), None);
    assert_eq!(c.state, AnimationState::ExitingForward(Animation::new(600, 2_000)));
    assert_eq!(c.pending, Some("Y".to_string()));
}
