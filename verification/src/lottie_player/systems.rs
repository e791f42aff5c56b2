//! The stages of one tick.
//!
//! Once per tick the host runs, in this order and each over all entities
//! before the next begins: [`apply_player_inputs`], [`advance_playheads`],
//! [`run_transitions`], [`set_state`]. [`tick`] does exactly that. The order
//! matters: inputs are folded into a playhead before it advances, it advances
//! before the rules are evaluated against it, and the rules decide before the
//! commit consumes their decision.

use vstd::prelude::*;
use crate::asset::{resolve, Asset, AssetHandle, Assets, Composition};
use crate::lottie_player::{AnimationState, AnimationTransition, LottiePlayer, Theme};
use crate::playback::playback_settings::{PlaybackDirection, PlaybackSettings};
use crate::playhead::{
    advance_playhead, change_intermission, effective_end, effective_start, elapsed_frames, fits,
    hand_over_playhead, handed_over, is_complete, lemma_seek_idempotent, pass_complete, reanchored, saturate,
    seek_offset, seek_playhead, seek_position, seek_result, shown_frame,
};

verus! {

/// One animation in the scene: the asset it shows, and what steers it.
#[derive(Debug)]
pub struct Entity {
    /// The asset that the entity shows.
    pub asset: AssetHandle,
    /// The controller, if the entity has one.
    pub player: Option<LottiePlayer>,
    /// The settings in force, if the entity has any.
    pub playback_settings: Option<PlaybackSettings>,
    /// The theme in force, if the entity has one.
    pub theme: Option<Theme>,
    /// Whether the pointer is inside the animation's bounds this tick. The
    /// host's hit test writes it before the rules are evaluated.
    pub pointer_inside: bool,
}

impl Entity {
    /// An entity that shows `asset` under `player`, with default settings,
    /// no theme, and the pointer outside.
    pub fn new(asset: AssetHandle, player: LottiePlayer) -> (entity: Entity)
        ensures
            entity == (Entity {
                asset,
                player: Some(player),
                playback_settings: Some(PlaybackSettings::spec_default()),
                theme: None,
                pointer_inside: false,
            }),
    {
        Entity {
            asset,
            player: Some(player),
            playback_settings: Some(PlaybackSettings::default()),
            theme: None,
            pointer_inside: false,
        }
    }
}

/// What only the commit of a state changes of an entity: the asset it shows,
/// whether it has settings and a player, and of the player its states, the
/// state it is in, the state that is pending, and whether it is stopped.
pub open spec fn same_machine(before: Entity, after: Entity) -> bool {
    &&& after.asset == before.asset
    &&& after.pointer_inside == before.pointer_inside
    &&& after.playback_settings is Some == before.playback_settings is Some
    &&& match (before.player, after.player) {
        (Some(was), Some(is)) => {
            &&& is.states == was.states
            &&& is.initial_state == was.initial_state
            &&& is.current_state == was.current_state
            &&& is.next_state == was.next_state
            &&& is.stopped == was.stopped
        },
        (None, None) => true,
        _ => false,
    }
}

/// Whether two slots hold the same kind of thing: nothing, a still image, or
/// an animation over the same composition.
pub open spec fn same_kind(before: Option<Asset>, after: Option<Asset>) -> bool {
    match (before, after) {
        (None, None) => true,
        (Some(Asset::Svg { .. }), Some(Asset::Svg { .. })) => true,
        (
            Some(Asset::Lottie { composition: was, .. }),
            Some(Asset::Lottie { composition: is, .. }),
        ) => is == was,
        _ => false,
    }
}

/// Whether `after` has the entities of `before`, each with the same machine.
pub open spec fn same_machines(before: Seq<Entity>, after: Seq<Entity>) -> bool {
    &&& after.len() == before.len()
    &&& forall|i: int| 0 <= i < before.len() ==> same_machine(before[i], #[trigger] after[i])
}

/// Whether `after` has the slots of `before`, each holding the same kind of
/// thing.
pub open spec fn same_kinds(before: Seq<Option<Asset>>, after: Seq<Option<Asset>>) -> bool {
    &&& after.len() == before.len()
    &&& forall|a: int| 0 <= a < before.len() ==> same_kind(before[a], #[trigger] after[a])
}

// ---------------------------------------------------------------------------
// Stage one: the inputs that the developer has made
// ---------------------------------------------------------------------------

/// The player once its pending inputs have been taken.
pub open spec fn inputs_taken(player: LottiePlayer) -> LottiePlayer {
    LottiePlayer { pending_seek_frame: None, pending_intermission: None, pending_speed: None, ..player }
}

/// The settings once the pending intermission has been taken over.
pub open spec fn settings_after_intermission(player: LottiePlayer, settings: PlaybackSettings) -> PlaybackSettings {
    match player.pending_intermission {
        Some(intermission) => PlaybackSettings { intermission, ..settings },
        None => settings,
    }
}

/// The settings once the pending intermission and speed have been taken over.
/// Speed is a plain assignment: it bears on later ticks only.
pub open spec fn settings_after_inputs(player: LottiePlayer, settings: PlaybackSettings) -> PlaybackSettings {
    let settings = settings_after_intermission(player, settings);
    match player.pending_speed {
        Some(speed) => PlaybackSettings { speed, ..settings },
        None => settings,
    }
}

/// The playhead once the pending inputs have been applied: first the change
/// of intermission, then the seek, which reads the intermission just set.
pub open spec fn playhead_after_inputs(
    player: LottiePlayer,
    settings: PlaybackSettings,
    composition: Composition,
    rendered_frames: i64,
) -> i64 {
    let anchored = match player.pending_intermission {
        Some(intermission) => saturate(
            reanchored(
                rendered_frames as int,
                composition.length(),
                settings.intermission as int,
                intermission as int,
            ),
        ),
        None => rendered_frames as int,
    };
    match player.pending_seek_frame {
        Some(frame) => seek_result(
            anchored,
            frame as int,
            settings_after_intermission(player, settings),
            composition,
        ) as i64,
        None => anchored as i64,
    }
}

/// Seeking is idempotent as the first stage applies it: with no change of
/// intermission pending and no time between, a second seek to the same frame
/// leaves the playhead where the first put it. This holds from a playhead
/// that is not negative, for a seek whose offset lies within one cycle.
pub proof fn lemma_seek_input_idempotent(
    player: LottiePlayer,
    settings: PlaybackSettings,
    composition: Composition,
    rendered_frames: i64,
)
    requires
        player.pending_intermission is None,
        player.pending_seek_frame is Some,
        rendered_frames >= 0,
        0 <= seek_offset(
            player.pending_seek_frame->0 as int,
            effective_start(settings, composition),
            effective_end(settings, composition),
            settings.direction,
        ) < effective_end(settings, composition) - effective_start(settings, composition) + settings.intermission,
        fits(
            seek_position(
                rendered_frames as int,
                player.pending_seek_frame->0 as int,
                effective_start(settings, composition),
                effective_end(settings, composition),
                settings.intermission as int,
                settings.direction,
            ),
        ),
    ensures
        playhead_after_inputs(
            player,
            settings,
            composition,
            playhead_after_inputs(player, settings, composition, rendered_frames),
        ) == playhead_after_inputs(player, settings, composition, rendered_frames),
{
    lemma_seek_idempotent(
        rendered_frames as int,
        player.pending_seek_frame->0 as int,
        effective_start(settings, composition),
        effective_end(settings, composition),
        settings.intermission as int,
        settings.direction,
    );
}

/// Applies a player's pending inputs to its settings and to the playhead of
/// its animation, and clears them: intermission, then seek, then speed.
pub fn apply_inputs(
    player: &mut LottiePlayer,
    settings: &mut PlaybackSettings,
    composition: &Composition,
    rendered_frames: &mut i64,
)
    ensures
        *final(player) == inputs_taken(*old(player)),
        *final(settings) == settings_after_inputs(*old(player), *old(settings)),
        *final(rendered_frames) == playhead_after_inputs(
            *old(player),
            *old(settings),
            *composition,
            *old(rendered_frames),
        ),
{
    let pending_intermission = player.pending_intermission;
    player.pending_intermission = None;
    match pending_intermission {
        Some(intermission) => {
            *rendered_frames = change_intermission(
                *rendered_frames,
                composition,
                settings.intermission,
                intermission,
            );
            settings.intermission = intermission;
        },
        None => {},
    }
    let pending_seek_frame = player.pending_seek_frame;
    player.pending_seek_frame = None;
    match pending_seek_frame {
        Some(frame) => {
            *rendered_frames = seek_playhead(*rendered_frames, frame, settings, composition);
        },
        None => {},
    }
    let pending_speed = player.pending_speed;
    player.pending_speed = None;
    match pending_speed {
        Some(speed) => {
            settings.speed = speed;
        },
        None => {},
    }
}

/// One entity's part in the first stage. An entity takes part if it has a
/// player and settings and its asset is a loaded animation; any other is
/// left as it is, pending inputs included.
pub open spec fn inputs_step(entity: Entity, slots: Seq<Option<Asset>>) -> (Entity, Seq<Option<Asset>>) {
    match (entity.player, entity.playback_settings, resolve(slots, entity.asset)) {
        (Some(player), Some(settings), Some(Asset::Lottie { composition, first_frame, rendered_frames })) => (
            Entity {
                player: Some(inputs_taken(player)),
                playback_settings: Some(settings_after_inputs(player, settings)),
                ..entity
            },
            slots.update(
                entity.asset.index as int,
                Some(
                    Asset::Lottie {
                        composition,
                        first_frame,
                        rendered_frames: playhead_after_inputs(player, settings, composition, rendered_frames),
                    },
                ),
            ),
        ),
        _ => (entity, slots),
    }
}

/// The scene once the first `n` entities have had their part in the first
/// stage, one after the other.
pub open spec fn inputs_applied(entities: Seq<Entity>, slots: Seq<Option<Asset>>, n: nat) -> (
    Seq<Entity>,
    Seq<Option<Asset>>,
)
    decreases n,
{
    if n == 0 || n > entities.len() {
        (entities, slots)
    } else {
        let (done, held) = inputs_applied(entities, slots, (n - 1) as nat);
        let (entity, held) = inputs_step(done[n - 1], held);
        (done.update(n - 1, entity), held)
    }
}

/// Applies the pending inputs of one entity.
pub fn apply_inputs_to(entity: &mut Entity, assets: &mut Assets)
    ensures
        *final(entity) == inputs_step(*old(entity), old(assets)@).0,
        final(assets)@ == inputs_step(*old(entity), old(assets)@).1,
{
    let handle = entity.asset;
    match (&mut entity.player, &mut entity.playback_settings, assets.get(handle)) {
        (Some(player), Some(settings), Some(Asset::Lottie { composition, first_frame, rendered_frames })) => {
            let mut rendered_frames: i64 = rendered_frames;
            apply_inputs(player, settings, &composition, &mut rendered_frames);
            assets.set(handle, Asset::Lottie { composition, first_frame, rendered_frames });
        },
        _ => {},
    }
}

/// Apply inputs the developer has made, e.g. `player.seek(frame)`, for every
/// entity in turn.
pub fn apply_player_inputs(entities: &mut Vec<Entity>, assets: &mut Assets)
    ensures
        final(entities)@ == inputs_applied(old(entities)@, old(assets)@, old(entities)@.len()).0,
        final(assets)@ == inputs_applied(old(entities)@, old(assets)@, old(entities)@.len()).1,
        same_machines(old(entities)@, final(entities)@),
        same_kinds(old(assets)@, final(assets)@),
{
    let count: usize = entities.len();
    let mut i: usize = 0;
    while i < count
        invariant
            i <= count,
            count == old(entities)@.len(),
            entities@.len() == count,
            entities@ == inputs_applied(old(entities)@, old(assets)@, i as nat).0,
            assets@ == inputs_applied(old(entities)@, old(assets)@, i as nat).1,
            same_machines(old(entities)@, entities@),
            same_kinds(old(assets)@, assets@),
        decreases count - i,
    {
        let ghost before = entities@;
        let ghost held = assets@;
        apply_inputs_to(&mut entities[i], assets);
        assert(entities@ =~= before.update(i as int, entities@[i as int]));
        assert(same_machine(before[i as int], entities@[i as int]));
        assert(same_kinds(held, assets@));
        i = i + 1;
    }
}

// ---------------------------------------------------------------------------
// Stage two: the playheads
// ---------------------------------------------------------------------------

/// Whether `entity` has a controller bound to the asset in slot `index`.
pub open spec fn controls(entity: Entity, index: int) -> bool {
    entity.player is Some && entity.asset.index == index
}

/// Whether entity `i` is the first with a controller bound to slot `index`.
pub open spec fn is_controller(entities: Seq<Entity>, i: int, index: int) -> bool {
    &&& 0 <= i < entities.len()
    &&& controls(entities[i], index)
    &&& forall|j: int| 0 <= j < i ==> !controls(#[trigger] entities[j], index)
}

/// The entity whose controller owns the playhead in slot `index` for this
/// tick: the first that is bound to it, if any is.
pub open spec fn controller_of(entities: Seq<Entity>, index: int) -> Option<int> {
    if exists|i: int| is_controller(entities, i, index) {
        Some(choose|i: int| is_controller(entities, i, index))
    } else {
        None
    }
}

/// The first entity with a controller bound to a slot is that slot's
/// controller, and no other is.
pub proof fn lemma_controller_is_first(entities: Seq<Entity>, i: int, index: int)
    requires
        is_controller(entities, i, index),
    ensures
        controller_of(entities, index) == Some(i),
{
    let chosen = choose|k: int| is_controller(entities, k, index);
    assert(is_controller(entities, chosen, index));
    if chosen < i {
        assert(!controls(entities[chosen], index));
    }
    if i < chosen {
        assert(!controls(entities[i], index));
    }
}

/// Finds the entity whose controller owns the playhead in slot `index`.
pub fn find_controller(entities: &Vec<Entity>, index: usize) -> (found: Option<usize>)
    ensures
        match found {
            Some(i) => controller_of(entities@, index as int) == Some(i as int),
            None => controller_of(entities@, index as int) is None,
        },
{
    let mut i: usize = 0;
    while i < entities.len()
        invariant
            i <= entities@.len(),
            forall|j: int| 0 <= j < i ==> !controls(#[trigger] entities@[j], index as int),
        decreases entities@.len() - i,
    {
        if entities[i].player.is_some() && entities[i].asset.index == index {
            proof {
                lemma_controller_is_first(entities@, i as int, index as int);
            }
            return Some(i);
        }
        i = i + 1;
    }
    None
}

/// Whether a player moves its playhead this tick: it is not stopped, and it
/// is playing or about to start by itself.
pub open spec fn plays(player: LottiePlayer, settings: PlaybackSettings) -> bool {
    !player.stopped && (player.playing || (settings.autoplay && !player.started))
}

/// A player after the second stage, where the animation it controls had
/// `first_frame` as its record of the first frame. A player that plays is
/// playing, and has started once its animation has a first frame.
pub open spec fn player_advanced(
    player: LottiePlayer,
    settings: PlaybackSettings,
    first_frame: Option<u64>,
) -> LottiePlayer {
    if plays(player, settings) {
        LottiePlayer { playing: true, started: player.started || first_frame is None, ..player }
    } else {
        player
    }
}

/// The first frame of an animation after the second stage under a player:
/// the present moment where the player plays and none was recorded.
pub open spec fn first_frame_advanced(
    player: LottiePlayer,
    settings: PlaybackSettings,
    first_frame: Option<u64>,
    now: u64,
) -> Option<u64> {
    if plays(player, settings) && first_frame is None {
        Some(now)
    } else {
        first_frame
    }
}

/// The playhead of an animation after the second stage under a player: moved
/// on by the time of the tick, at the settings' speed, where the player
/// plays.
pub open spec fn playhead_advanced(
    player: LottiePlayer,
    settings: PlaybackSettings,
    composition: Composition,
    rendered_frames: i64,
    dt_micros: u32,
) -> i64 {
    if plays(player, settings) {
        saturate(
            rendered_frames + elapsed_frames(dt_micros as int, settings.speed as int, composition.rate()),
        ) as i64
    } else {
        rendered_frames
    }
}

/// Advances the animation that `player` controls by the time of one tick.
///
/// A stopped player does nothing. A player that has not started starts
/// playing by itself where the settings say so. A player that plays records
/// the first frame, if none is recorded, and moves the playhead on.
pub fn advance_under(
    player: &mut LottiePlayer,
    settings: &PlaybackSettings,
    composition: &Composition,
    first_frame: &mut Option<u64>,
    rendered_frames: &mut i64,
    dt_micros: u32,
    now: u64,
)
    ensures
        *final(player) == player_advanced(*old(player), *settings, *old(first_frame)),
        *final(first_frame) == first_frame_advanced(*old(player), *settings, *old(first_frame), now),
        *final(rendered_frames) == playhead_advanced(
            *old(player),
            *settings,
            *composition,
            *old(rendered_frames),
            dt_micros,
        ),
{
    if player.stopped {
        return ;
    }
    if settings.autoplay && !player.started {
        player.playing = true;
    }
    if !player.playing {
        return ;
    }
    if first_frame.is_none() {
        *first_frame = Some(now);
        player.started = true;
    }
    *rendered_frames = advance_playhead(*rendered_frames, dt_micros, settings.speed, composition.frame_rate());
}

/// The settings that an entity plays with: its own, or the defaults.
pub open spec fn settings_in_force(entity: Entity) -> PlaybackSettings {
    match entity.playback_settings {
        Some(settings) => settings,
        None => PlaybackSettings::spec_default(),
    }
}

/// What slot `index` holds after the second stage. A loaded animation is
/// advanced once: under its controller where it has one, and else
/// unconditionally, at the speed of the default settings. Anything else
/// stays as it is.
pub open spec fn slot_advanced(
    entities: Seq<Entity>,
    slots: Seq<Option<Asset>>,
    index: int,
    dt_micros: u32,
    now: u64,
) -> Option<Asset> {
    match slots[index] {
        Some(Asset::Lottie { composition, first_frame, rendered_frames }) => match controller_of(entities, index) {
            Some(i) => Some(
                Asset::Lottie {
                    composition,
                    first_frame: first_frame_advanced(
                        entities[i].player->0,
                        settings_in_force(entities[i]),
                        first_frame,
                        now,
                    ),
                    rendered_frames: playhead_advanced(
                        entities[i].player->0,
                        settings_in_force(entities[i]),
                        composition,
                        rendered_frames,
                        dt_micros,
                    ),
                },
            ),
            None => Some(
                Asset::Lottie {
                    composition,
                    first_frame,
                    rendered_frames: saturate(
                        rendered_frames + elapsed_frames(
                            dt_micros as int,
                            PlaybackSettings::spec_default().speed as int,
                            composition.rate(),
                        ),
                    ) as i64,
                },
            ),
        },
        other => other,
    }
}

/// Entity `i` after the second stage: its player updated where it controls a
/// loaded animation, and else as it was.
pub open spec fn entity_advanced(entities: Seq<Entity>, slots: Seq<Option<Asset>>, i: int) -> Entity {
    let entity = entities[i];
    match (entity.player, resolve(slots, entity.asset)) {
        (Some(player), Some(Asset::Lottie { first_frame, .. })) => if controller_of(
            entities,
            entity.asset.index as int,
        ) == Some(i) {
            Entity { player: Some(player_advanced(player, settings_in_force(entity), first_frame)), ..entity }
        } else {
            entity
        },
        _ => entity,
    }
}

/// The scene after the second stage.
pub open spec fn advanced(entities: Seq<Entity>, slots: Seq<Option<Asset>>, dt_micros: u32, now: u64) -> (
    Seq<Entity>,
    Seq<Option<Asset>>,
) {
    (
        Seq::new(entities.len(), |i: int| entity_advanced(entities, slots, i)),
        Seq::new(slots.len(), |index: int| slot_advanced(entities, slots, index, dt_micros, now)),
    )
}

/// Advance all the playheads in the scene, each exactly once, however many
/// entities show it.
pub fn advance_playheads(entities: &mut Vec<Entity>, assets: &mut Assets, dt_micros: u32, now: u64)
    ensures
        final(entities)@ == advanced(old(entities)@, old(assets)@, dt_micros, now).0,
        final(assets)@ == advanced(old(entities)@, old(assets)@, dt_micros, now).1,
        same_machines(old(entities)@, final(entities)@),
        same_kinds(old(assets)@, final(assets)@),
{
    let count: usize = assets.slots.len();
    let mut index: usize = 0;
    while index < count
        invariant
            index <= count,
            count == old(assets)@.len(),
            assets@.len() == count,
            entities@.len() == old(entities)@.len(),
            forall|a: int|
                0 <= a < index ==> #[trigger] assets@[a] == slot_advanced(
                    old(entities)@,
                    old(assets)@,
                    a,
                    dt_micros,
                    now,
                ),
            forall|a: int| index <= a < count ==> #[trigger] assets@[a] == old(assets)@[a],
            forall|i: int|
                0 <= i < entities@.len() ==> #[trigger] entities@[i] == if old(entities)@[i].asset.index < index {
                    entity_advanced(old(entities)@, old(assets)@, i)
                } else {
                    old(entities)@[i]
                },
        decreases count - index,
    {
        let handle = AssetHandle { index };
        let ghost before = entities@;
        assert forall|i: int| 0 <= i < before.len() implies controls(#[trigger] before[i], index as int) == controls(
            old(entities)@[i],
            index as int,
        ) by {}
        match assets.get(handle) {
            Some(Asset::Lottie { composition, first_frame, rendered_frames }) => {
                let mut first_frame: Option<u64> = first_frame;
                let mut rendered_frames: i64 = rendered_frames;
                match find_controller(entities, index) {
                    Some(i) => {
                        proof {
                            assert(is_controller(before, i as int, index as int));
                            assert(is_controller(old(entities)@, i as int, index as int)) by {
                                assert forall|j: int| 0 <= j < i implies !controls(
                                    #[trigger] old(entities)@[j],
                                    index as int,
                                ) by {
                                    assert(!controls(before[j], index as int));
                                }
                            }
                            lemma_controller_is_first(old(entities)@, i as int, index as int);
                        }
                        let entity = &mut entities[i];
                        let settings: PlaybackSettings = match entity.playback_settings {
                            Some(settings) => settings,
                            None => PlaybackSettings::default(),
                        };
                        match &mut entity.player {
                            Some(player) => {
                                advance_under(
                                    player,
                                    &settings,
                                    &composition,
                                    &mut first_frame,
                                    &mut rendered_frames,
                                    dt_micros,
                                    now,
                                );
                            },
                            None => {},
                        }
                    },
                    None => {
                        proof {
                            if exists|k: int| is_controller(old(entities)@, k, index as int) {
                                let k = choose|k: int| is_controller(old(entities)@, k, index as int);
                                assert(is_controller(before, k, index as int)) by {
                                    assert forall|j: int| 0 <= j < k implies !controls(
                                        #[trigger] before[j],
                                        index as int,
                                    ) by {
                                        assert(!controls(old(entities)@[j], index as int));
                                    }
                                }
                                lemma_controller_is_first(before, k, index as int);
                            }
                        }
                        rendered_frames = advance_playhead(
                            rendered_frames,
                            dt_micros,
                            PlaybackSettings::default().speed,
                            composition.frame_rate(),
                        );
                    },
                }
                assets.set(handle, Asset::Lottie { composition, first_frame, rendered_frames });
            },
            _ => {},
        }
        proof {
            assert forall|i: int| 0 <= i < entities@.len() implies #[trigger] entities@[i] == if old(
                entities,
            )@[i].asset.index < index + 1 {
                entity_advanced(old(entities)@, old(assets)@, i)
            } else {
                old(entities)@[i]
            } by {
                if old(entities)@[i].asset.index == index {
                    if controller_of(old(entities)@, index as int) == Some(i) {
                        assert(is_controller(old(entities)@, i, index as int));
                    }
                }
            }
        }
        index = index + 1;
    }
    proof {
        assert(entities@ =~= advanced(old(entities)@, old(assets)@, dt_micros, now).0);
        assert(assets@ =~= advanced(old(entities)@, old(assets)@, dt_micros, now).1);
        assert forall|i: int| 0 <= i < entities@.len() implies same_machine(
            old(entities)@[i],
            #[trigger] entities@[i],
        ) by {
            assert(entities@[i] == entity_advanced(old(entities)@, old(assets)@, i));
        }
        assert forall|a: int| 0 <= a < assets@.len() implies same_kind(old(assets)@[a], #[trigger] assets@[a]) by {
            assert(assets@[a] == slot_advanced(old(entities)@, old(assets)@, a, dt_micros, now));
        }
    }
}

// ---------------------------------------------------------------------------
// Stage three: the rules
// ---------------------------------------------------------------------------

/// What the rules of a state are evaluated against in one tick.
#[derive(Clone, Copy, Debug, PartialEq, Eq)]
pub struct Triggers {
    /// Whether the pointer is inside the animation's bounds.
    pub pointer_inside: bool,
    /// Whether the left button went down this tick.
    pub left_just_pressed: bool,
    /// Whether the pointer was inside on an earlier tick and has not been
    /// seen to leave since.
    pub hovered: bool,
    /// When the asset was first rendered in this state, if it has been.
    pub first_frame: Option<u64>,
    /// The present moment, in microseconds of the host's clock.
    pub now: u64,
    /// Whether the playhead has reached the end of a pass and of its
    /// intermission.
    pub complete: bool,
}

/// The microseconds from `at` to `now`; none where `now` is the earlier.
pub open spec fn micros_since(at: u64, now: u64) -> int {
    if now >= at {
        now - at
    } else {
        0
    }
}

/// Whether the trigger of `rule` holds.
pub open spec fn fires(rule: AnimationTransition, triggers: Triggers) -> bool {
    match rule {
        AnimationTransition::OnAfter { micros, .. } => triggers.first_frame matches Some(at) && micros_since(
            at,
            triggers.now,
        ) >= micros,
        AnimationTransition::OnComplete { .. } => triggers.complete,
        AnimationTransition::OnMouseEnter { .. } => triggers.pointer_inside,
        AnimationTransition::OnMouseClick { .. } => triggers.pointer_inside && triggers.left_just_pressed,
        AnimationTransition::OnMouseLeave { .. } => triggers.hovered && !triggers.pointer_inside,
        AnimationTransition::OnShow { .. } => triggers.first_frame is Some,
    }
}

/// Tells whether the trigger of `rule` holds.
pub fn rule_fires(rule: &AnimationTransition, triggers: &Triggers) -> (fired: bool)
    ensures
        fired == fires(*rule, *triggers),
{
    match rule {
        AnimationTransition::OnAfter { micros, .. } => match triggers.first_frame {
            Some(at) => {
                let since: u64 = if triggers.now >= at {
                    triggers.now - at
                } else {
                    0
                };
                since >= *micros
            },
            None => false,
        },
        AnimationTransition::OnComplete { .. } => triggers.complete,
        AnimationTransition::OnMouseEnter { .. } => triggers.pointer_inside,
        AnimationTransition::OnMouseClick { .. } => triggers.pointer_inside && triggers.left_just_pressed,
        AnimationTransition::OnMouseLeave { .. } => triggers.hovered && !triggers.pointer_inside,
        AnimationTransition::OnShow { .. } => triggers.first_frame.is_some(),
    }
}

/// Whether rule `k` fires and none before it does.
pub open spec fn is_first_firing(rules: Seq<AnimationTransition>, triggers: Triggers, k: int) -> bool {
    &&& 0 <= k < rules.len()
    &&& fires(rules[k], triggers)
    &&& forall|j: int| 0 <= j < k ==> !fires(#[trigger] rules[j], triggers)
}

/// The rule that decides the tick: the first in declared order whose trigger
/// holds, if any does.
pub open spec fn first_firing(rules: Seq<AnimationTransition>, triggers: Triggers) -> Option<int> {
    if exists|k: int| is_first_firing(rules, triggers, k) {
        Some(choose|k: int| is_first_firing(rules, triggers, k))
    } else {
        None
    }
}

/// Declaration order wins: a rule that fires with none before it firing is
/// the one that decides, whatever fires after it.
pub proof fn lemma_first_firing_decides(rules: Seq<AnimationTransition>, triggers: Triggers, k: int)
    requires
        is_first_firing(rules, triggers, k),
    ensures
        first_firing(rules, triggers) == Some(k),
{
    let chosen = choose|c: int| is_first_firing(rules, triggers, c);
    assert(is_first_firing(rules, triggers, chosen));
    if chosen < k {
        assert(!fires(rules[chosen], triggers));
    }
    if k < chosen {
        assert(!fires(rules[k], triggers));
    }
}

/// Where no rule fires, none decides.
pub proof fn lemma_none_fires(rules: Seq<AnimationTransition>, triggers: Triggers)
    requires
        forall|j: int| 0 <= j < rules.len() ==> !fires(#[trigger] rules[j], triggers),
    ensures
        first_firing(rules, triggers) is None,
{
    if exists|k: int| is_first_firing(rules, triggers, k) {
        let k = choose|k: int| is_first_firing(rules, triggers, k);
        assert(!fires(rules[k], triggers));
    }
}

/// Finds the rule that decides the tick.
pub fn evaluate(rules: &Vec<AnimationTransition>, triggers: &Triggers) -> (decided: Option<usize>)
    ensures
        match decided {
            Some(k) => first_firing(rules@, *triggers) == Some(k as int),
            None => first_firing(rules@, *triggers) is None,
        },
{
    let mut k: usize = 0;
    while k < rules.len()
        invariant
            k <= rules@.len(),
            forall|j: int| 0 <= j < k ==> !fires(#[trigger] rules@[j], *triggers),
        decreases rules@.len() - k,
    {
        if rule_fires(&rules[k], triggers) {
            proof {
                lemma_first_firing_decides(rules@, *triggers, k as int);
            }
            return Some(k);
        }
        k = k + 1;
    }
    proof {
        lemma_none_fires(rules@, *triggers);
    }
    None
}

/// The state that a player is asked to move to after its rules have been
/// evaluated: the target of the rule that decides, and else what was pending.
pub open spec fn next_after(
    rules: Seq<AnimationTransition>,
    triggers: Triggers,
    pending: Option<&'static str>,
) -> Option<&'static str> {
    match first_firing(rules, triggers) {
        Some(k) => Some(rules[k].target()),
        None => pending,
    }
}

/// The hover latch after the rules have been evaluated. A leave rule that
/// decides releases it; otherwise a pointer inside sets it, whichever rule
/// decides, and a pointer outside leaves it as it was.
pub open spec fn hovered_after(rules: Seq<AnimationTransition>, triggers: Triggers) -> bool {
    match first_firing(rules, triggers) {
        Some(k) => if rules[k] is OnMouseLeave {
            false
        } else {
            triggers.pointer_inside || triggers.hovered
        },
        None => triggers.pointer_inside || triggers.hovered,
    }
}

/// Evaluates the rules of the player's current state and arms the target of
/// the first that fires. Returns the hover latch for the next tick.
///
/// A stopped player evaluates nothing: it and the latch stay as they are.
pub fn decide(player: &mut LottiePlayer, triggers: &Triggers) -> (hovered: bool)
    requires
        !old(player).stopped ==> old(player).knows(old(player).current_state),
    ensures
        old(player).stopped ==> *final(player) == *old(player) && hovered == triggers.hovered,
        !old(player).stopped ==> *final(player) == (LottiePlayer {
            next_state: next_after(old(player).current().transitions@, *triggers, old(player).next_state),
            ..*old(player)
        }),
        !old(player).stopped ==> hovered == hovered_after(old(player).current().transitions@, *triggers),
{
    if player.stopped {
        return triggers.hovered;
    }
    let state = player.state();
    match evaluate(&state.transitions, triggers) {
        Some(k) => {
            let rule: AnimationTransition = state.transitions[k];
            let released: bool = match rule {
                AnimationTransition::OnMouseLeave { .. } => true,
                _ => false,
            };
            player.next_state = Some(rule.state());
            if released {
                false
            } else {
                triggers.pointer_inside || triggers.hovered
            }
        },
        None => triggers.pointer_inside || triggers.hovered,
    }
}

/// What the rules of an entity are evaluated against.
pub open spec fn triggers_for(
    entity: Entity,
    asset: Asset,
    settings: PlaybackSettings,
    left_just_pressed: bool,
    now: u64,
    hovered: bool,
) -> Triggers {
    Triggers {
        pointer_inside: entity.pointer_inside,
        left_just_pressed,
        hovered,
        first_frame: asset.shown_at(),
        now,
        complete: match asset {
            Asset::Lottie { composition, rendered_frames, .. } => pass_complete(
                rendered_frames as int,
                composition,
                settings.intermission as int,
            ),
            Asset::Svg { .. } => false,
        },
    }
}

/// Whether `rules` hold no rule on completion.
pub open spec fn no_completion_rule(rules: Seq<AnimationTransition>) -> bool {
    forall|k: int| 0 <= k < rules.len() ==> !((#[trigger] rules[k]) is OnComplete)
}

/// What the third stage asks of an entity that takes part in it: its player
/// holds its current state, and that state waits for no completion where the
/// asset is a still image, which has no frames to complete.
pub open spec fn transitions_ready(entity: Entity, slots: Seq<Option<Asset>>) -> bool {
    match (entity.player, entity.playback_settings, resolve(slots, entity.asset)) {
        (Some(player), Some(_), Some(asset)) => !player.stopped ==> {
            &&& player.knows(player.current_state)
            &&& asset is Svg ==> no_completion_rule(player.current().transitions@)
        },
        _ => true,
    }
}

/// One entity's part in the third stage, with the latch as it comes out. An
/// entity takes part if it has a player that is not stopped, settings, and
/// an asset that is loaded; any other is passed over.
pub open spec fn transitions_step(
    entity: Entity,
    slots: Seq<Option<Asset>>,
    left_just_pressed: bool,
    now: u64,
    hovered: bool,
) -> (Entity, bool) {
    match (entity.player, entity.playback_settings, resolve(slots, entity.asset)) {
        (Some(player), Some(settings), Some(asset)) => if player.stopped {
            (entity, hovered)
        } else {
            let triggers = triggers_for(entity, asset, settings, left_just_pressed, now, hovered);
            let rules = player.current().transitions@;
            (
                Entity {
                    player: Some(
                        LottiePlayer { next_state: next_after(rules, triggers, player.next_state), ..player },
                    ),
                    ..entity
                },
                hovered_after(rules, triggers),
            )
        },
        _ => (entity, hovered),
    }
}

/// The entities and the latch once the first `n` entities have had their
/// rules evaluated, one after the other.
pub open spec fn transitions_run(
    entities: Seq<Entity>,
    slots: Seq<Option<Asset>>,
    left_just_pressed: bool,
    now: u64,
    hovered: bool,
    n: nat,
) -> (Seq<Entity>, bool)
    decreases n,
{
    if n == 0 || n > entities.len() {
        (entities, hovered)
    } else {
        let (done, latch) = transitions_run(entities, slots, left_just_pressed, now, hovered, (n - 1) as nat);
        let (entity, latch) = transitions_step(done[n - 1], slots, left_just_pressed, now, latch);
        (done.update(n - 1, entity), latch)
    }
}

/// Evaluates the rules of one entity.
pub fn run_transitions_of(
    entity: &mut Entity,
    assets: &Assets,
    left_just_pressed: bool,
    now: u64,
    hovered: &mut bool,
)
    requires
        transitions_ready(*old(entity), assets@),
    ensures
        *final(entity) == transitions_step(*old(entity), assets@, left_just_pressed, now, *old(hovered)).0,
        *final(hovered) == transitions_step(*old(entity), assets@, left_just_pressed, now, *old(hovered)).1,
{
    let pointer_inside: bool = entity.pointer_inside;
    match (&mut entity.player, entity.playback_settings, assets.get(entity.asset)) {
        (Some(player), Some(settings), Some(asset)) => {
            if player.stopped {
                return ;
            }
            let complete: bool = match asset {
                Asset::Lottie { composition, rendered_frames, .. } => is_complete(
                    rendered_frames,
                    &composition,
                    settings.intermission,
                ),
                Asset::Svg { .. } => false,
            };
            let triggers = Triggers {
                pointer_inside,
                left_just_pressed,
                hovered: *hovered,
                first_frame: asset.first_frame(),
                now,
                complete,
            };
            *hovered = decide(player, &triggers);
        },
        _ => {},
    }
}

/// Whether the entity has a player that is stopped.
pub open spec fn halted(entity: Entity) -> bool {
    match entity.player {
        Some(player) => player.stopped,
        None => false,
    }
}

/// Whether every entity meets what the third stage asks of it.
pub open spec fn all_transitions_ready(entities: Seq<Entity>, slots: Seq<Option<Asset>>) -> bool {
    forall|i: int| 0 <= i < entities.len() ==> transitions_ready(#[trigger] entities[i], slots)
}

/// Whether the player of `after`, if `before` has one that is valid, is valid
/// too, and holds the same states.
pub open spec fn still_valid(before: Entity, after: Entity) -> bool {
    match before.player {
        Some(was) => after.player matches Some(is) && is.states == was.states && is.initial_state
            == was.initial_state && (was.valid() ==> is.valid()),
        None => after.player is None,
    }
}

/// Whether `after` has the entities of `before`, each with a player that is
/// still valid where it was.
pub open spec fn all_still_valid(before: Seq<Entity>, after: Seq<Entity>) -> bool {
    &&& after.len() == before.len()
    &&& forall|i: int| 0 <= i < before.len() ==> still_valid(before[i], #[trigger] after[i])
}

/// Evaluates the rules of every entity in turn. For the state each is in,
/// the first rule in declared order whose trigger holds arms its target; the
/// rules after it are not looked at this tick.
///
/// A stopped player runs no rules: whatever the time and the pointer, its
/// pending state is not touched.
pub fn run_transitions(
    entities: &mut Vec<Entity>,
    assets: &Assets,
    left_just_pressed: bool,
    now: u64,
    hovered: &mut bool,
)
    requires
        all_transitions_ready(old(entities)@, assets@),
    ensures
        final(entities)@ == transitions_run(
            old(entities)@,
            assets@,
            left_just_pressed,
            now,
            *old(hovered),
            old(entities)@.len(),
        ).0,
        *final(hovered) == transitions_run(
            old(entities)@,
            assets@,
            left_just_pressed,
            now,
            *old(hovered),
            old(entities)@.len(),
        ).1,
        forall|i: int|
            0 <= i < old(entities)@.len() && halted(#[trigger] old(entities)@[i]) ==> final(entities)@[i] == old(
                entities,
            )@[i],
        all_still_valid(old(entities)@, final(entities)@),
        forall|i: int|
            0 <= i < old(entities)@.len() ==> (#[trigger] final(entities)@[i]).asset == old(entities)@[i].asset,
{
    let count: usize = entities.len();
    let mut i: usize = 0;
    while i < count
        invariant
            i <= count,
            count == old(entities)@.len(),
            entities@.len() == count,
            entities@ == transitions_run(old(entities)@, assets@, left_just_pressed, now, *old(hovered), i as nat).0,
            *hovered == transitions_run(old(entities)@, assets@, left_just_pressed, now, *old(hovered), i as nat).1,
            forall|j: int| i <= j < count ==> #[trigger] entities@[j] == old(entities)@[j],
            all_transitions_ready(old(entities)@, assets@),
            forall|j: int|
                0 <= j < count && halted(#[trigger] old(entities)@[j]) ==> entities@[j] == old(entities)@[j],
            all_still_valid(old(entities)@, entities@),
            forall|j: int| 0 <= j < count ==> (#[trigger] entities@[j]).asset == old(entities)@[j].asset,
        decreases count - i,
    {
        let ghost before = entities@;
        let ghost latch = *hovered;
        assert(transitions_ready(old(entities)@[i as int], assets@));
        run_transitions_of(&mut entities[i], assets, left_just_pressed, now, hovered);
        proof {
            assert(entities@ =~= before.update(i as int, entities@[i as int]));
            lemma_step_keeps_valid(before[i as int], assets@, left_just_pressed, now, latch);
        }
        i = i + 1;
    }
}

/// Evaluating its rules leaves an entity with the states it had; a valid
/// player stays valid, since what a rule arms is a state that the player
/// holds; and a stopped player stays as it is.
pub proof fn lemma_step_keeps_valid(
    entity: Entity,
    slots: Seq<Option<Asset>>,
    left_just_pressed: bool,
    now: u64,
    hovered: bool,
)
    ensures
        still_valid(entity, transitions_step(entity, slots, left_just_pressed, now, hovered).0),
        transitions_step(entity, slots, left_just_pressed, now, hovered).0.asset == entity.asset,
        halted(entity) ==> transitions_step(entity, slots, left_just_pressed, now, hovered) == (entity, hovered),
{
    match (entity.player, entity.playback_settings, resolve(slots, entity.asset)) {
        (Some(player), Some(settings), Some(asset)) => {
            if !player.stopped && player.valid() {
                let triggers = triggers_for(entity, asset, settings, left_just_pressed, now, hovered);
                let rules = player.current().transitions@;
                assert(player.entries().contains_key(player.current_state@));
                assert(player.current().targets_known(player.entries()));
                match first_firing(rules, triggers) {
                    Some(k) => {
                        assert(is_first_firing(rules, triggers, k));
                        assert(player.entries().contains_key(rules[k].target()@));
                    },
                    None => {},
                }
            }
        },
        _ => {},
    }
}

// ---------------------------------------------------------------------------
// Stage four: the commit
// ---------------------------------------------------------------------------

/// The direction that a state plays in: that of its own settings, and
/// forwards where it has none.
pub open spec fn direction_of(state: AnimationState) -> PlaybackDirection {
    match state.playback_settings {
        Some(settings) => settings.direction,
        None => PlaybackDirection::Normal,
    }
}

/// An asset as a state is entered on it. The record of the first frame is
/// cleared. The playhead of an animation goes to zero on a reset; otherwise
/// it is handed over from the frame that was showing under `settings`, the
/// settings in force until now, to a state that plays in direction `target`.
pub open spec fn entered(asset: Asset, settings: PlaybackSettings, target: PlaybackDirection, reset: bool) -> Asset {
    match asset {
        Asset::Svg { .. } => Asset::Svg { first_frame: None },
        Asset::Lottie { composition, rendered_frames, .. } => Asset::Lottie {
            composition,
            first_frame: None,
            rendered_frames: if reset {
                0
            } else {
                saturate(
                    handed_over(
                        rendered_frames as int,
                        saturate(shown_frame(rendered_frames as int, settings, composition)),
                        composition,
                        settings.direction,
                        target,
                    ),
                ) as i64
            },
        },
    }
}

/// Prepares an asset for the state that is entered on it.
pub fn enter_asset(asset: Asset, settings: &PlaybackSettings, target: PlaybackDirection, reset: bool) -> (ready: Asset)
    ensures
        ready == entered(asset, *settings, target, reset),
{
    match asset {
        Asset::Svg { .. } => Asset::Svg { first_frame: None },
        Asset::Lottie { composition, rendered_frames, .. } => {
            let playhead: i64 = crate::playhead::calculate_playhead(rendered_frames, settings, &composition);
            let rendered_frames: i64 = if reset {
                0
            } else {
                hand_over_playhead(rendered_frames, playhead, &composition, settings.direction, target)
            };
            Asset::Lottie { composition, first_frame: None, rendered_frames }
        },
    }
}

/// What the commit asks of an entity: a player with a pending state holds
/// that state and the one it is in.
pub open spec fn commit_ready(entity: Entity) -> bool {
    match entity.player {
        Some(player) => player.next_state matches Some(next) ==> player.knows(next) && player.knows(
            player.current_state,
        ),
        None => true,
    }
}

/// Whether every entity meets what the commit asks of it.
pub open spec fn all_commit_ready(entities: Seq<Entity>) -> bool {
    forall|i: int| 0 <= i < entities.len() ==> commit_ready(#[trigger] entities[i])
}

/// The asset that a pending state is entered on: its own, or the one that
/// the entity shows.
pub open spec fn target_handle(entity: Entity, target: AnimationState) -> AssetHandle {
    match target.asset {
        Some(handle) => handle,
        None => entity.asset,
    }
}

/// One entity's part in the commit.
///
/// Without a player or a pending state nothing happens. Otherwise the player
/// is no longer started nor playing. Where the asset of the pending state is
/// not loaded yet, that is all: the state stays pending for the next tick.
/// Where it is, the entity shows that asset, prepared by [`entered`] with a
/// reset if the state left or the state entered asks for one or the asset is
/// another than before; the entity takes the theme of the new state, if it
/// has one, and its settings, or the defaults; and the player is in the new
/// state with nothing pending.
pub open spec fn commit_step(entity: Entity, slots: Seq<Option<Asset>>) -> (Entity, Seq<Option<Asset>>) {
    match entity.player {
        Some(player) => match player.next_state {
            Some(next) => {
                let target = player.entries()[next@];
                let handle = target_handle(entity, target);
                match resolve(slots, handle) {
                    Some(asset) => {
                        let reset = player.current().reset_playhead_on_transition || target.reset_playhead_on_start
                            || handle != entity.asset;
                        (
                            Entity {
                                asset: handle,
                                player: Some(
                                    LottiePlayer {
                                        started: false,
                                        playing: false,
                                        current_state: next,
                                        next_state: None,
                                        ..player
                                    },
                                ),
                                playback_settings: Some(
                                    match target.playback_settings {
                                        Some(settings) => settings,
                                        None => PlaybackSettings::spec_default(),
                                    },
                                ),
                                theme: match target.theme {
                                    Some(theme) => Some(theme),
                                    None => entity.theme,
                                },
                                pointer_inside: entity.pointer_inside,
                            },
                            slots.update(
                                handle.index as int,
                                Some(entered(asset, settings_in_force(entity), direction_of(target), reset)),
                            ),
                        )
                    },
                    None => (
                        Entity {
                            player: Some(LottiePlayer { started: false, playing: false, ..player }),
                            ..entity
                        },
                        slots,
                    ),
                }
            },
            None => (entity, slots),
        },
        None => (entity, slots),
    }
}

/// Whether the commit of an entity's pending state has to wait: there is a
/// state pending, and its asset is not loaded.
pub open spec fn commit_waits(entity: Entity, slots: Seq<Option<Asset>>) -> bool {
    match entity.player {
        Some(player) => match player.next_state {
            Some(next) => resolve(slots, target_handle(entity, player.entries()[next@])) is None,
            None => false,
        },
        None => false,
    }
}

/// A commit that has to wait leaves the state pending and the assets alone,
/// and trying again changes nothing more.
pub proof fn lemma_waiting_commit_repeats(entity: Entity, slots: Seq<Option<Asset>>)
    requires
        commit_waits(entity, slots),
    ensures
        commit_step(entity, slots).1 == slots,
        commit_step(entity, slots).0.player->0.next_state == entity.player->0.next_state,
        commit_step(entity, slots).0.player->0.current_state == entity.player->0.current_state,
        commit_step(entity, slots).0.asset == entity.asset,
        commit_step(commit_step(entity, slots).0, slots) == commit_step(entity, slots),
{
}

/// The scene once the first `n` entities have had their pending state
/// committed, one after the other.
pub open spec fn committed(entities: Seq<Entity>, slots: Seq<Option<Asset>>, n: nat) -> (
    Seq<Entity>,
    Seq<Option<Asset>>,
)
    decreases n,
{
    if n == 0 || n > entities.len() {
        (entities, slots)
    } else {
        let (done, held) = committed(entities, slots, (n - 1) as nat);
        let (entity, held) = commit_step(done[n - 1], held);
        (done.update(n - 1, entity), held)
    }
}

/// Commits the pending state of one entity.
pub fn set_state_of(entity: &mut Entity, assets: &mut Assets)
    requires
        commit_ready(*old(entity)),
    ensures
        *final(entity) == commit_step(*old(entity), old(assets)@).0,
        final(assets)@ == commit_step(*old(entity), old(assets)@).1,
        still_valid(*old(entity), *final(entity)),
{
    let shown: AssetHandle = entity.asset;
    let settings: PlaybackSettings = match entity.playback_settings {
        Some(settings) => settings,
        None => PlaybackSettings::default(),
    };
    let mut theme: Option<Theme> = entity.theme;
    let mut committed: Option<(AssetHandle, PlaybackSettings)> = None;
    match &mut entity.player {
        Some(player) => match player.next_state {
            Some(next) => {
                player.started = false;
                player.playing = false;
                let leaving: bool = player.state().reset_playhead_on_transition;
                let target = match player.get_state(next) {
                    Ok(target) => target,
                    Err(_) => vstd::pervasive::unreached(),
                };
                let handle: AssetHandle = match target.asset {
                    Some(handle) => handle,
                    None => shown,
                };
                let direction: PlaybackDirection = match target.playback_settings {
                    Some(settings) => settings.direction,
                    None => PlaybackDirection::Normal,
                };
                let entering: bool = target.reset_playhead_on_start;
                let target_settings: PlaybackSettings = match target.playback_settings {
                    Some(settings) => settings,
                    None => PlaybackSettings::default(),
                };
                let target_theme: Option<Theme> = target.theme;
                match assets.get(handle) {
                    Some(asset) => {
                        let reset: bool = leaving || entering || handle.index != shown.index;
                        assets.set(handle, enter_asset(asset, &settings, direction, reset));
                        match target_theme {
                            Some(target_theme) => {
                                theme = Some(target_theme);
                            },
                            None => {},
                        }
                        committed = Some((handle, target_settings));
                        player.current_state = next;
                        player.next_state = None;
                    },
                    None => {},
                }
            },
            None => {},
        },
        None => {},
    }
    match committed {
        Some((handle, target_settings)) => {
            entity.asset = handle;
            entity.playback_settings = Some(target_settings);
            entity.theme = theme;
        },
        None => {},
    }
}

/// Commits the pending state of every entity in turn. A state whose asset is
/// not loaded yet stays pending and is tried again on the next tick.
pub fn set_state(entities: &mut Vec<Entity>, assets: &mut Assets)
    requires
        all_commit_ready(old(entities)@),
    ensures
        final(entities)@ == committed(old(entities)@, old(assets)@, old(entities)@.len()).0,
        final(assets)@ == committed(old(entities)@, old(assets)@, old(entities)@.len()).1,
        all_still_valid(old(entities)@, final(entities)@),
{
    let count: usize = entities.len();
    let mut i: usize = 0;
    while i < count
        invariant
            i <= count,
            count == old(entities)@.len(),
            entities@.len() == count,
            entities@ == committed(old(entities)@, old(assets)@, i as nat).0,
            assets@ == committed(old(entities)@, old(assets)@, i as nat).1,
            forall|j: int| i <= j < count ==> #[trigger] entities@[j] == old(entities)@[j],
            all_commit_ready(old(entities)@),
            all_still_valid(old(entities)@, entities@),
        decreases count - i,
    {
        let ghost before = entities@;
        assert(commit_ready(old(entities)@[i as int]));
        set_state_of(&mut entities[i], assets);
        assert(entities@ =~= before.update(i as int, entities@[i as int]));
        i = i + 1;
    }
}

// ---------------------------------------------------------------------------
// The tick
// ---------------------------------------------------------------------------

/// What a tick asks of an entity: its player, if it has one, is valid, and
/// the entity meets what the third stage asks.
pub open spec fn tick_ready(entity: Entity, slots: Seq<Option<Asset>>) -> bool {
    &&& entity.player matches Some(player) ==> player.valid()
    &&& transitions_ready(entity, slots)
}

/// Whether every entity meets what a tick asks of it.
pub open spec fn all_tick_ready(entities: Seq<Entity>, slots: Seq<Option<Asset>>) -> bool {
    forall|i: int| 0 <= i < entities.len() ==> tick_ready(#[trigger] entities[i], slots)
}

/// The scene and the hover latch after one tick: the four stages in order,
/// each over all entities before the next begins.
pub open spec fn ticked(
    entities: Seq<Entity>,
    slots: Seq<Option<Asset>>,
    dt_micros: u32,
    now: u64,
    left_just_pressed: bool,
    hovered: bool,
) -> (Seq<Entity>, Seq<Option<Asset>>, bool) {
    let (entities, slots) = inputs_applied(entities, slots, entities.len());
    let (entities, slots) = advanced(entities, slots, dt_micros, now);
    let (entities, hovered) = transitions_run(entities, slots, left_just_pressed, now, hovered, entities.len());
    let (entities, slots) = committed(entities, slots, entities.len());
    (entities, slots, hovered)
}

/// What the third stage asks of an entity goes on holding while only
/// playheads, settings and play status change.
pub proof fn lemma_ready_carries(
    before: Entity,
    after: Entity,
    slots_before: Seq<Option<Asset>>,
    slots_after: Seq<Option<Asset>>,
)
    requires
        tick_ready(before, slots_before),
        same_machine(before, after),
        same_kinds(slots_before, slots_after),
    ensures
        tick_ready(after, slots_after),
{
    if after.asset.index < slots_after.len() {
        assert(same_kind(slots_before[after.asset.index as int], slots_after[after.asset.index as int]));
    }
}

/// Runs one tick over the scene: pending inputs, playheads, rules, commit.
///
/// `dt_micros` is the time since the last tick and `now` the present moment,
/// both in microseconds; a tick of no duration moves no playhead. `hovered`
/// is the hover latch, which the host keeps from tick to tick.
pub fn tick(
    entities: &mut Vec<Entity>,
    assets: &mut Assets,
    dt_micros: u32,
    now: u64,
    left_just_pressed: bool,
    hovered: &mut bool,
)
    requires
        all_tick_ready(old(entities)@, old(assets)@),
    ensures
        final(entities)@ == ticked(
            old(entities)@,
            old(assets)@,
            dt_micros,
            now,
            left_just_pressed,
            *old(hovered),
        ).0,
        final(assets)@ == ticked(old(entities)@, old(assets)@, dt_micros, now, left_just_pressed, *old(hovered)).1,
        *final(hovered) == ticked(old(entities)@, old(assets)@, dt_micros, now, left_just_pressed, *old(hovered)).2,
        all_still_valid(old(entities)@, final(entities)@),
{
    apply_player_inputs(entities, assets);
    let ghost entities_1 = entities@;
    let ghost slots_1 = assets@;
    advance_playheads(entities, assets, dt_micros, now);
    let ghost entities_2 = entities@;
    proof {
        assert forall|i: int| 0 <= i < entities_2.len() implies tick_ready(#[trigger] entities_2[i], assets@) by {
            lemma_ready_carries(old(entities)@[i], entities_1[i], old(assets)@, slots_1);
            lemma_ready_carries(entities_1[i], entities_2[i], slots_1, assets@);
        }
    }
    run_transitions(entities, assets, left_just_pressed, now, hovered);
    let ghost entities_3 = entities@;
    proof {
        assert forall|i: int| 0 <= i < entities_3.len() implies commit_ready(#[trigger] entities_3[i]) by {
            assert(tick_ready(entities_2[i], assets@));
            assert(still_valid(entities_2[i], entities_3[i]));
        }
    }
    set_state(entities, assets);
    proof {
        assert forall|i: int| 0 <= i < old(entities)@.len() implies still_valid(
            old(entities)@[i],
            #[trigger] entities@[i],
        ) by {
            assert(same_machine(old(entities)@[i], entities_1[i]));
            assert(same_machine(entities_1[i], entities_2[i]));
            assert(still_valid(entities_2[i], entities_3[i]));
            assert(still_valid(entities_3[i], entities@[i]));
        }
    }
}

// ---------------------------------------------------------------------------
// What the stages ask, tested
// ---------------------------------------------------------------------------

/// Tells whether `rules` hold no rule on completion.
pub fn has_no_completion_rule(rules: &Vec<AnimationTransition>) -> (none: bool)
    ensures
        none == no_completion_rule(rules@),
{
    let mut k: usize = 0;
    while k < rules.len()
        invariant
            k <= rules@.len(),
            forall|j: int| 0 <= j < k ==> !((#[trigger] rules@[j]) is OnComplete),
        decreases rules@.len() - k,
    {
        match rules[k] {
            AnimationTransition::OnComplete { .. } => {
                return false;
            },
            _ => {},
        }
        k = k + 1;
    }
    true
}

/// Tells whether an entity meets what the third stage asks of it.
pub fn is_transitions_ready(entity: &Entity, assets: &Assets) -> (ready: bool)
    ensures
        ready == transitions_ready(*entity, assets@),
{
    match (&entity.player, entity.playback_settings, assets.get(entity.asset)) {
        (Some(player), Some(_), Some(asset)) => {
            if player.stopped {
                true
            } else if !player.has_state(player.current_state) {
                false
            } else {
                match asset {
                    Asset::Svg { .. } => has_no_completion_rule(&player.state().transitions),
                    Asset::Lottie { .. } => true,
                }
            }
        },
        _ => true,
    }
}

/// Tells whether an entity meets what the commit asks of it.
pub fn is_commit_ready(entity: &Entity) -> (ready: bool)
    ensures
        ready == commit_ready(*entity),
{
    match &entity.player {
        Some(player) => match player.next_state {
            Some(next) => player.has_state(next) && player.has_state(player.current_state),
            None => true,
        },
        None => true,
    }
}

/// Tells whether an entity meets what a tick asks of it.
pub fn is_tick_ready(entity: &Entity, assets: &Assets) -> (ready: bool)
    ensures
        ready == tick_ready(*entity, assets@),
{
    let valid: bool = match &entity.player {
        Some(player) => player.validate().is_ok(),
        None => true,
    };
    valid && is_transitions_ready(entity, assets)
}

/// Tells whether [`run_transitions`] can be run on the scene.
pub fn can_run_transitions(entities: &Vec<Entity>, assets: &Assets) -> (ready: bool)
    ensures
        ready == all_transitions_ready(entities@, assets@),
{
    let mut i: usize = 0;
    while i < entities.len()
        invariant
            i <= entities@.len(),
            forall|j: int| 0 <= j < i ==> transitions_ready(#[trigger] entities@[j], assets@),
        decreases entities@.len() - i,
    {
        if !is_transitions_ready(&entities[i], assets) {
            return false;
        }
        i = i + 1;
    }
    true
}

/// Tells whether [`set_state`] can be run on the entities.
pub fn can_set_state(entities: &Vec<Entity>) -> (ready: bool)
    ensures
        ready == all_commit_ready(entities@),
{
    let mut i: usize = 0;
    while i < entities.len()
        invariant
            i <= entities@.len(),
            forall|j: int| 0 <= j < i ==> commit_ready(#[trigger] entities@[j]),
        decreases entities@.len() - i,
    {
        if !is_commit_ready(&entities[i]) {
            return false;
        }
        i = i + 1;
    }
    true
}

/// Tells whether [`tick`] can be run on the scene.
pub fn can_tick(entities: &Vec<Entity>, assets: &Assets) -> (ready: bool)
    ensures
        ready == all_tick_ready(entities@, assets@),
{
    let mut i: usize = 0;
    while i < entities.len()
        invariant
            i <= entities@.len(),
            forall|j: int| 0 <= j < i ==> tick_ready(#[trigger] entities@[j], assets@),
        decreases entities@.len() - i,
    {
        if !is_tick_ready(&entities[i], assets) {
            return false;
        }
        i = i + 1;
    }
    true
}

} // verus!
