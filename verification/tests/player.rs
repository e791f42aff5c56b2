use lottie_player::asset::AssetHandle;
use lottie_player::{
    AnimationState, AnimationTransition, LottiePlayer, PlaybackDirection, PlaybackSettings, Theme, UnknownState,
};

fn two_states() -> LottiePlayer {
    LottiePlayer::new("idle")
        .with_state(AnimationState::new("idle").with_transition(AnimationTransition::OnMouseEnter { state: "hover" }))
        .with_state(AnimationState::new("hover").with_transition(AnimationTransition::OnMouseLeave { state: "idle" }))
}

#[test]
fn new_player_is_armed_with_its_initial_state() {
    let player = LottiePlayer::new("idle");
    assert_eq!(player.initial_state, "idle");
    assert_eq!(player.current_state, "idle");
    assert_eq!(player.next_state, Some("idle"));
    assert_eq!(player.pending_seek_frame, None);
    assert_eq!(player.pending_intermission, None);
    assert_eq!(player.pending_speed, None);
    assert!(!player.started);
    assert!(!player.is_playing());
    assert!(!player.is_stopped());
    assert!(player.states().is_empty());
    assert!(!player.has_state("idle"));
}

#[test]
fn new_state_is_bare() {
    let state = AnimationState::new("idle");
    assert_eq!(state.id, "idle");
    assert_eq!(state.asset, None);
    assert_eq!(state.theme, None);
    assert_eq!(state.playback_settings, None);
    assert!(state.transitions.is_empty());
    assert!(!state.reset_playhead_on_transition);
    assert!(!state.reset_playhead_on_start);
}

#[test]
fn state_builders_set_their_field() {
    let settings = PlaybackSettings { direction: PlaybackDirection::Reverse, ..PlaybackSettings::default() };
    let state = AnimationState::new("spin")
        .with_asset(AssetHandle { index: 3 })
        .with_theme(Theme { id: 9 })
        .with_playback_settings(settings)
        .with_transition(AnimationTransition::OnComplete { state: "idle" })
        .with_transition(AnimationTransition::OnAfter { state: "idle", micros: 5 })
        .reset_playhead_on_transition(true)
        .reset_playhead_on_start(true);
    assert_eq!(state.id, "spin");
    assert_eq!(state.asset, Some(AssetHandle { index: 3 }));
    assert_eq!(state.theme, Some(Theme { id: 9 }));
    assert_eq!(state.playback_settings, Some(settings));
    assert_eq!(
        state.transitions,
        vec![
            AnimationTransition::OnComplete { state: "idle" },
            AnimationTransition::OnAfter { state: "idle", micros: 5 },
        ]
    );
    assert!(state.reset_playhead_on_transition);
    assert!(state.reset_playhead_on_start);
    assert_eq!(state.transitions[1].state(), "idle");
}

#[test]
fn with_state_keeps_states_by_id() {
    let player = two_states();
    assert!(player.has_state("idle"));
    assert!(player.has_state("hover"));
    assert!(!player.has_state("gone"));
    assert_eq!(player.state().id, "idle");
    assert_eq!(player.get_state("hover").unwrap().id, "hover");
    assert_eq!(player.get_state("gone").err(), Some(UnknownState { id: "gone" }));
}

#[test]
fn with_state_replaces_a_state_of_the_same_id() {
    let player = two_states().with_state(AnimationState::new("idle").reset_playhead_on_start(true));
    assert_eq!(player.states().len(), 2);
    assert!(player.state().reset_playhead_on_start);
    assert!(player.state().transitions.is_empty());
}

#[test]
fn states_lists_each_state_once() {
    let player = two_states().with_state(AnimationState::new("spin"));
    let mut ids: Vec<&str> = player.states().iter().map(|state| state.id).collect();
    ids.sort();
    assert_eq!(ids, vec!["hover", "idle", "spin"]);
}

#[test]
fn state_mut_writes_the_current_state() {
    let mut player = two_states();
    player.state_mut().reset_playhead_on_transition = true;
    assert!(player.state().reset_playhead_on_transition);
    assert!(!player.get_state("hover").unwrap().reset_playhead_on_transition);
    assert_eq!(player.states().len(), 2);
}

#[test]
fn transition_arms_the_next_state() {
    let mut player = two_states();
    player.transition("hover");
    assert_eq!(player.next_state, Some("hover"));
    assert_eq!(player.current_state, "idle");
}

#[test]
fn reset_arms_the_initial_state_and_a_seek_to_the_lowest_frame() {
    let mut player = two_states();
    player.current_state = "hover";
    player.next_state = None;
    player.reset();
    assert_eq!(player.next_state, Some("idle"));
    assert_eq!(player.pending_seek_frame, Some(i32::MIN));
    assert_eq!(player.current_state, "hover");
}

#[test]
fn pending_inputs_are_armed() {
    let mut player = two_states();
    player.seek(12);
    player.set_intermission(30);
    player.set_speed(2000);
    assert_eq!(player.pending_seek_frame, Some(12));
    assert_eq!(player.pending_intermission, Some(30));
    assert_eq!(player.pending_speed, Some(2000));
}

#[test]
fn play_pause_stop() {
    let mut player = two_states();
    player.play();
    assert!(player.is_playing());
    assert!(!player.is_stopped());
    player.pause();
    assert!(!player.is_playing());
    assert!(!player.is_stopped());
    player.stop();
    assert!(player.is_stopped());
    player.play();
    assert!(player.is_playing());
    assert!(!player.is_stopped());
}

#[test]
fn toggle_play_plays_when_paused_or_stopped_and_pauses_when_playing() {
    let mut player = two_states();
    player.toggle_play();
    assert!(player.is_playing());
    player.toggle_play();
    assert!(!player.is_playing());
    player.play();
    player.stop();
    player.toggle_play();
    assert!(player.is_playing());
    assert!(!player.is_stopped());
}

#[test]
fn validate_accepts_a_closed_player() {
    assert_eq!(two_states().validate(), Ok(()));
}

#[test]
fn validate_names_an_unknown_initial_state() {
    let player = LottiePlayer::new("idle").with_state(AnimationState::new("hover"));
    assert_eq!(player.validate(), Err(UnknownState { id: "idle" }));
}

#[test]
fn validate_names_an_unknown_pending_state() {
    let mut player = two_states();
    player.transition("gone");
    assert_eq!(player.validate(), Err(UnknownState { id: "gone" }));
}

#[test]
fn validate_names_an_unknown_current_state() {
    let mut player = two_states();
    player.current_state = "lost";
    assert_eq!(player.validate(), Err(UnknownState { id: "lost" }));
}

#[test]
fn validate_names_an_unknown_target() {
    let player =
        two_states().with_state(AnimationState::new("spin").with_transition(AnimationTransition::OnShow { state: "nowhere" }));
    assert_eq!(player.validate(), Err(UnknownState { id: "nowhere" }));
}

#[test]
fn default_player_is_empty() {
    let player = LottiePlayer::default();
    assert_eq!(player.initial_state, "");
    assert_eq!(player.current_state, "");
    assert_eq!(player.next_state, None);
    assert!(player.states().is_empty());
    assert_eq!(player.pending_seek_frame, None);
    assert_eq!(player.pending_intermission, None);
    assert_eq!(player.pending_speed, None);
    assert!(!player.started);
    assert!(!player.is_playing());
    assert!(!player.is_stopped());
}

#[test]
fn states_mut_writes_every_state() {
    let mut player = two_states();
    {
        let states = player.states_mut();
        assert_eq!(states.len(), 2);
        for state in states {
            state.reset_playhead_on_start = true;
            state.theme = Some(Theme { id: 4 });
        }
    }
    assert!(player.get_state("idle").unwrap().reset_playhead_on_start);
    assert!(player.get_state("hover").unwrap().reset_playhead_on_start);
    assert_eq!(player.get_state("hover").unwrap().theme, Some(Theme { id: 4 }));
    assert_eq!(player.get_state("idle").unwrap().transitions.len(), 1);
    assert_eq!(player.states().len(), 2);
}
