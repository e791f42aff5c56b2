use lottie_player::playback::playback_settings::NORMAL_SPEED;
use lottie_player::playhead::{
    advance_playhead, calculate_playhead, change_intermission, hand_over_playhead, is_complete, seek_playhead,
};
use lottie_player::{Composition, FrameRange, PlaybackDirection, PlaybackLoopBehavior, PlaybackSettings};

fn hundred() -> Composition {
    Composition::new(0, 100, 60).unwrap()
}

fn settings(direction: PlaybackDirection, intermission: u32) -> PlaybackSettings {
    PlaybackSettings { direction, intermission, ..PlaybackSettings::default() }
}

#[test]
fn composition_rejects_empty_range_and_zero_rate() {
    assert!(Composition::new(0, 0, 60).is_none());
    assert!(Composition::new(10, 5, 60).is_none());
    assert!(Composition::new(0, 100, 0).is_none());
    let composition = Composition::new(-5, 100, 24).unwrap();
    assert_eq!(composition.frame_start(), -5);
    assert_eq!(composition.frame_end(), 100);
    assert_eq!(composition.frame_rate(), 24);
}

#[test]
fn default_settings() {
    let defaults = PlaybackSettings::default();
    assert!(defaults.autoplay);
    assert_eq!(defaults.direction, PlaybackDirection::Normal);
    assert_eq!(defaults.speed, NORMAL_SPEED);
    assert_eq!(defaults.speed, 1000);
    assert_eq!(defaults.intermission, 0);
    assert_eq!(defaults.looping, PlaybackLoopBehavior::Loop);
    assert_eq!(defaults.segments, FrameRange { start: i32::MIN, end: i32::MAX });
    assert_eq!(PlaybackDirection::default(), PlaybackDirection::Normal);
    assert_eq!(PlaybackLoopBehavior::default(), PlaybackLoopBehavior::Loop);
}

#[test]
fn advance_moves_by_time_speed_and_rate() {
    assert_eq!(advance_playhead(0, 1_000_000, 1000, 60), 60);
    assert_eq!(advance_playhead(10, 500_000, 2000, 60), 70);
    assert_eq!(advance_playhead(7, 1_000_000, 500, 60), 37);
}

#[test]
fn advance_rounds_towards_zero() {
    assert_eq!(advance_playhead(0, 16_667, 1000, 60), 1);
    assert_eq!(advance_playhead(0, 16_000, 1000, 60), 0);
    assert_eq!(advance_playhead(0, 16_000, -1000, 60), 0);
    assert_eq!(advance_playhead(0, 1_500_000, -1000, 1), -1);
}

#[test]
fn advance_with_no_time_or_no_speed_stays() {
    assert_eq!(advance_playhead(42, 0, 1000, 60), 42);
    assert_eq!(advance_playhead(42, 1_000_000, 0, 60), 42);
}

#[test]
fn advance_with_negative_speed_goes_back() {
    assert_eq!(advance_playhead(100, 1_000_000, -1000, 30), 70);
}

#[test]
fn advance_saturates() {
    assert_eq!(advance_playhead(i64::MAX, 1_000_000, 1000, 60), i64::MAX);
    assert_eq!(advance_playhead(i64::MAX - 10, 1_000_000, 1000, 60), i64::MAX);
    assert_eq!(advance_playhead(i64::MIN + 10, 1_000_000, -1000, 60), i64::MIN);
    assert_eq!(advance_playhead(0, u32::MAX, i32::MAX, u32::MAX), i64::MAX);
}

#[test]
fn intermission_change_outside_intermission_shifts_by_loops() {
    assert_eq!(change_intermission(150, &hundred(), 20, 50), 180);
}

#[test]
fn intermission_change_counts_every_loop() {
    // 500 frames at a cycle of 120 are four loops; each gains 30 frames.
    assert_eq!(change_intermission(500, &hundred(), 20, 50), 620);
    // Shortening takes from each loop.
    assert_eq!(change_intermission(500, &hundred(), 20, 0), 420);
}

#[test]
fn intermission_change_inside_intermission_snaps_before_boundary() {
    assert_eq!(change_intermission(110, &hundred(), 20, 50), 149);
    assert_eq!(change_intermission(110, &hundred(), 20, 0), 99);
}

#[test]
fn intermission_change_in_first_pass_changes_nothing() {
    assert_eq!(change_intermission(50, &hundred(), 20, 50), 50);
    assert_eq!(change_intermission(100, &hundred(), 20, 50), 100);
}

#[test]
fn intermission_change_does_not_go_below_zero() {
    assert_eq!(change_intermission(-5, &hundred(), 20, 50), 0);
}

#[test]
fn intermission_change_uses_length_not_end() {
    let composition = Composition::new(50, 150, 60).unwrap();
    assert_eq!(change_intermission(150, &composition, 20, 50), 180);
}

#[test]
fn seek_preserves_loop() {
    let composition = hundred();
    let forwards = settings(PlaybackDirection::Normal, 0);
    assert_eq!(seek_playhead(250, 10, &forwards, &composition), 210);
    assert_eq!(seek_playhead(10, 10, &forwards, &composition), 10);
}

#[test]
fn seek_twice_is_seek_once() {
    let composition = hundred();
    let forwards = settings(PlaybackDirection::Normal, 15);
    let once = seek_playhead(777, 42, &forwards, &composition);
    let twice = seek_playhead(once, 42, &forwards, &composition);
    assert_eq!(once, 6 * 115 + 42);
    assert_eq!(twice, once);
}

#[test]
fn seek_past_one_cycle_is_not_idempotent() {
    // A segment that starts late makes the offset as long as a cycle.
    let composition = hundred();
    let late = PlaybackSettings { segments: FrameRange { start: 50, end: 100 }, ..PlaybackSettings::default() };
    let once = seek_playhead(0, 60, &late, &composition);
    let twice = seek_playhead(once, 60, &late, &composition);
    assert_eq!(once, 60);
    assert_eq!(twice, 110);
}

#[test]
fn seek_bounds_the_frame() {
    let composition = hundred();
    let forwards = settings(PlaybackDirection::Normal, 0);
    assert_eq!(seek_playhead(250, 500, &forwards, &composition), 299);
    assert_eq!(seek_playhead(250, -7, &forwards, &composition), 200);
    assert_eq!(seek_playhead(250, i32::MIN, &forwards, &composition), 200);
    assert_eq!(seek_playhead(250, i32::MAX, &forwards, &composition), 299);
}

#[test]
fn seek_in_reverse_mirrors_about_the_end() {
    let composition = hundred();
    let backwards = settings(PlaybackDirection::Reverse, 0);
    assert_eq!(seek_playhead(250, 10, &backwards, &composition), 290);
    assert_eq!(seek_playhead(250, 500, &backwards, &composition), 201);
}

#[test]
fn seek_within_a_segment_with_intermission() {
    let composition = hundred();
    let part = PlaybackSettings {
        segments: FrameRange { start: 20, end: 60 },
        intermission: 10,
        ..PlaybackSettings::default()
    };
    // One cycle is 40 frames and 10 idle ones: 250 frames are five cycles.
    assert_eq!(seek_playhead(250, 30, &part, &composition), 280);
    assert_eq!(seek_playhead(250, 0, &part, &composition), 270);
    assert_eq!(seek_playhead(250, 99, &part, &composition), 309);
}

#[test]
fn seek_with_an_empty_segment() {
    let composition = hundred();
    let point = PlaybackSettings { segments: FrameRange { start: 50, end: 50 }, ..PlaybackSettings::default() };
    assert_eq!(seek_playhead(250, 10, &point, &composition), 49);
    let inverted = PlaybackSettings { segments: FrameRange { start: 80, end: 20 }, ..PlaybackSettings::default() };
    assert_eq!(seek_playhead(250, 10, &inverted, &composition), 259);
}

#[test]
fn seek_saturates() {
    let composition = hundred();
    let forwards = settings(PlaybackDirection::Normal, 0);
    assert_eq!(seek_playhead(i64::MAX, 99, &forwards, &composition), i64::MAX);
}

#[test]
fn shown_frame_loops() {
    let composition = hundred();
    let looping = PlaybackSettings::default();
    assert_eq!(calculate_playhead(30, &looping, &composition), 30);
    assert_eq!(calculate_playhead(250, &looping, &composition), 52);
    let backwards = settings(PlaybackDirection::Reverse, 0);
    assert_eq!(calculate_playhead(30, &backwards, &composition), 69);
}

#[test]
fn shown_frame_without_looping_holds_at_the_end() {
    let composition = hundred();
    let once = PlaybackSettings { looping: PlaybackLoopBehavior::DoNotLoop, ..PlaybackSettings::default() };
    assert_eq!(calculate_playhead(30, &once, &composition), 30);
    assert_eq!(calculate_playhead(250, &once, &composition), 99);
    let back = PlaybackSettings { direction: PlaybackDirection::Reverse, ..once };
    assert_eq!(calculate_playhead(250, &back, &composition), 0);
}

#[test]
fn shown_frame_with_a_number_of_loops() {
    let composition = hundred();
    let twice = PlaybackSettings { looping: PlaybackLoopBehavior::Amount(2), ..PlaybackSettings::default() };
    assert_eq!(calculate_playhead(250, &twice, &composition), 0);
    assert_eq!(calculate_playhead(120, &twice, &composition), 21);
    let thrice = PlaybackSettings { looping: PlaybackLoopBehavior::Amount(3), ..PlaybackSettings::default() };
    assert_eq!(calculate_playhead(250, &thrice, &composition), 52);
}

#[test]
fn shown_frame_of_a_cycle_without_extent() {
    let composition = hundred();
    let point = PlaybackSettings { segments: FrameRange { start: 40, end: 41 }, ..PlaybackSettings::default() };
    assert_eq!(calculate_playhead(250, &point, &composition), 40);
    let back = PlaybackSettings { direction: PlaybackDirection::Reverse, ..point };
    assert_eq!(calculate_playhead(250, &back, &composition), 40);
}

#[test]
fn hand_over_from_normal_to_reverse_mirrors() {
    let composition = hundred();
    assert_eq!(
        hand_over_playhead(30, 30, &composition, PlaybackDirection::Normal, PlaybackDirection::Reverse),
        70
    );
    assert_eq!(
        hand_over_playhead(0, 0, &composition, PlaybackDirection::Normal, PlaybackDirection::Reverse),
        99
    );
}

#[test]
fn hand_over_from_reverse_to_normal_keeps_the_frame() {
    let composition = hundred();
    assert_eq!(
        hand_over_playhead(230, 69, &composition, PlaybackDirection::Reverse, PlaybackDirection::Normal),
        69
    );
}

#[test]
fn hand_over_in_the_same_direction_drops_the_loops() {
    let composition = hundred();
    assert_eq!(
        hand_over_playhead(250, 52, &composition, PlaybackDirection::Normal, PlaybackDirection::Normal),
        50
    );
    assert_eq!(
        hand_over_playhead(250, 52, &composition, PlaybackDirection::Reverse, PlaybackDirection::Reverse),
        50
    );
    let shifted = Composition::new(-50, 10, 60).unwrap();
    assert_eq!(
        hand_over_playhead(59, 0, &shifted, PlaybackDirection::Normal, PlaybackDirection::Normal),
        9
    );
}

#[test]
fn completion_needs_the_pass_and_the_intermission() {
    let composition = hundred();
    assert!(!is_complete(99, &composition, 0));
    assert!(is_complete(100, &composition, 0));
    assert!(!is_complete(100, &composition, 20));
    assert!(is_complete(120, &composition, 20));
}
