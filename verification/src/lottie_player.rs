//! The player: a state machine over named animation states.

use vstd::prelude::*;
use bevy::utils::hashbrown::HashMap;
use crate::asset::AssetHandle;
use crate::playback::playback_settings::PlaybackSettings;

pub mod systems;

verus! {

/// A handle to a theme that the host keeps.
#[derive(Clone, Copy, Debug, PartialEq, Eq, Structural)]
pub struct Theme {
    /// The host's name for the theme.
    pub id: u64,
}

/// A rule that moves a player to another state when its trigger holds.
#[derive(Clone, Copy, Debug, PartialEq, Eq)]
pub enum AnimationTransition {
    /// Transitions once `micros` microseconds have passed since the asset was
    /// first rendered in this state.
    OnAfter { state: &'static str, micros: u64 },
    /// Transitions once the playhead has reached the end of a pass and of its
    /// intermission. Only valid for frame-based assets; use `OnAfter` for
    /// still images.
    OnComplete { state: &'static str },
    /// Transitions while the pointer is inside the animation.
    OnMouseEnter { state: &'static str },
    /// Transitions when the left button is pressed with the pointer inside
    /// the animation.
    OnMouseClick { state: &'static str },
    /// Transitions when the pointer, having been inside, is no longer.
    OnMouseLeave { state: &'static str },
    /// Transitions once the asset has been rendered.
    OnShow { state: &'static str },
}

impl AnimationTransition {
    /// The state that the rule leads to.
    pub open spec fn target(self) -> &'static str {
        match self {
            AnimationTransition::OnAfter { state, .. } => state,
            AnimationTransition::OnComplete { state } => state,
            AnimationTransition::OnMouseEnter { state } => state,
            AnimationTransition::OnMouseClick { state } => state,
            AnimationTransition::OnMouseLeave { state } => state,
            AnimationTransition::OnShow { state } => state,
        }
    }

    /// The state that the rule leads to.
    pub fn state(&self) -> (state: &'static str)
        ensures
            state == self.target(),
    {
        match self {
            AnimationTransition::OnAfter { state, .. } => state,
            AnimationTransition::OnComplete { state } => state,
            AnimationTransition::OnMouseEnter { state } => state,
            AnimationTransition::OnMouseClick { state } => state,
            AnimationTransition::OnMouseLeave { state } => state,
            AnimationTransition::OnShow { state } => state,
        }
    }
}

/// A named state of a player: what to show, how to play it, and the rules
/// that lead out of it.
#[derive(Debug, Clone)]
pub struct AnimationState {
    /// The name under which the player keeps the state.
    pub id: &'static str,
    /// The asset to show. Without one the state shows whatever is bound.
    pub asset: Option<AssetHandle>,
    /// The theme to apply on entry, if any.
    pub theme: Option<Theme>,
    /// The settings to play with. Without them the defaults apply.
    pub playback_settings: Option<PlaybackSettings>,
    /// The rules out of this state, in order of priority.
    pub transitions: Vec<AnimationTransition>,
    /// Whether to reset the playhead when transitioning away from this state.
    pub reset_playhead_on_transition: bool,
    /// Whether to reset the playhead when a transition moves to this state.
    pub reset_playhead_on_start: bool,
}

impl AnimationState {
    /// A state named `id` with no asset, theme or settings of its own, no
    /// rules, and no playhead resets.
    pub fn new(id: &'static str) -> (state: Self)
        ensures
            state.id == id,
            state.asset is None,
            state.theme is None,
            state.playback_settings is None,
            state.transitions@ == Seq::<AnimationTransition>::empty(),
            !state.reset_playhead_on_transition,
            !state.reset_playhead_on_start,
    {
        AnimationState {
            id,
            asset: None,
            theme: None,
            playback_settings: None,
            transitions: Vec::new(),
            reset_playhead_on_transition: false,
            reset_playhead_on_start: false,
        }
    }

    /// Binds the state to `asset`.
    pub fn with_asset(self, asset: AssetHandle) -> (state: Self)
        ensures
            state == (AnimationState { asset: Some(asset), ..self }),
    {
        let mut state = self;
        state.asset = Some(asset);
        state
    }

    /// Gives the state a theme.
    pub fn with_theme(self, theme: Theme) -> (state: Self)
        ensures
            state == (AnimationState { theme: Some(theme), ..self }),
    {
        let mut state = self;
        state.theme = Some(theme);
        state
    }

    /// Gives the state playback settings of its own.
    pub fn with_playback_settings(self, playback_settings: PlaybackSettings) -> (state: Self)
        ensures
            state == (AnimationState { playback_settings: Some(playback_settings), ..self }),
    {
        let mut state = self;
        state.playback_settings = Some(playback_settings);
        state
    }

    /// Adds a rule after those the state has: earlier rules take priority.
    pub fn with_transition(self, transition: AnimationTransition) -> (state: Self)
        ensures
            state.transitions@ == self.transitions@.push(transition),
            state.id == self.id,
            state.asset == self.asset,
            state.theme == self.theme,
            state.playback_settings == self.playback_settings,
            state.reset_playhead_on_transition == self.reset_playhead_on_transition,
            state.reset_playhead_on_start == self.reset_playhead_on_start,
    {
        let mut state = self;
        state.transitions.push(transition);
        state
    }

    /// Sets whether the playhead is reset when the player leaves this state.
    pub fn reset_playhead_on_transition(self, reset: bool) -> (state: Self)
        ensures
            state == (AnimationState { reset_playhead_on_transition: reset, ..self }),
    {
        let mut state = self;
        state.reset_playhead_on_transition = reset;
        state
    }

    /// Sets whether the playhead is reset when the player enters this state.
    pub fn reset_playhead_on_start(self, reset: bool) -> (state: Self)
        ensures
            state == (AnimationState { reset_playhead_on_start: reset, ..self }),
    {
        let mut state = self;
        state.reset_playhead_on_start = reset;
        state
    }

    /// Every rule of the state leads to a state that `table` holds.
    pub open spec fn targets_known(self, table: Map<Seq<char>, AnimationState>) -> bool {
        forall|i: int|
            0 <= i < self.transitions@.len() ==> table.contains_key(
                (#[trigger] self.transitions@[i]).target()@,
            )
    }
}

/// The states of a player by name, kept in a `hashbrown::HashMap` as bevy's
/// utilities hand it on. What it holds is read through [`table_entries`].
#[verifier::external_body]
#[derive(Debug)]
pub struct StateTable {
    inner: HashMap<&'static str, AnimationState>,
}

/// The states that a table holds, each under the characters of its key.
pub uninterp spec fn table_entries(table: StateTable) -> Map<Seq<char>, AnimationState>;

/// The table of a player without states.
pub open spec fn no_states() -> Map<Seq<char>, AnimationState> {
    Map::empty()
}

/// `hashbrown::HashMap::new`: a map that holds nothing.
#[verifier::external_body]
fn table_new() -> (created: StateTable)
    ensures
        table_entries(created) == no_states(),
{
    StateTable { inner: HashMap::new() }
}

/// `hashbrown::HashMap::insert` under the state's own id: afterwards the map holds the
/// state under that key and is otherwise as before. The value that the key
/// held before, if any, is returned.
#[verifier::external_body]
fn table_insert(table: &mut StateTable, state: AnimationState) -> (displaced: Option<AnimationState>)
    ensures
        table_entries(*final(table)) == table_entries(*old(table)).insert(state.id@, state),
        displaced == if table_entries(*old(table)).contains_key(state.id@) {
            Some(table_entries(*old(table))[state.id@])
        } else {
            None
        },
{
    table.inner.insert(state.id, state)
}

/// `hashbrown::HashMap::get`: the value held under a key equal to `id`, if there is one.
#[verifier::external_body]
fn table_get<'a>(table: &'a StateTable, id: &str) -> (found: Option<&'a AnimationState>)
    ensures
        found == if table_entries(*table).contains_key(id@) {
            Some(&table_entries(*table)[id@])
        } else {
            None
        },
{
    table.inner.get(id)
}

/// `hashbrown::HashMap::get_mut`: a mutable reference to the value held under a key
/// equal to `id`, if there is one. What is written through it is what the map
/// holds under that key afterwards; nothing else changes.
#[verifier::external_body]
fn table_get_mut<'a>(table: &'a mut StateTable, id: &str) -> (found: Option<&'a mut AnimationState>)
    ensures
        match found {
            Some(state) => {
                &&& table_entries(*old(table)).contains_key(id@)
                &&& *state == table_entries(*old(table))[id@]
                &&& table_entries(*final(table)) == table_entries(*old(table)).insert(id@, *final(state))
            },
            None => !table_entries(*old(table)).contains_key(id@) && *final(table) == *old(table),
        },
{
    table.inner.get_mut(id)
}

/// `hashbrown::HashMap::keys`, collected: every key of the map once, in no stated order.
#[verifier::external_body]
fn table_keys(table: &StateTable) -> (keys: Vec<&'static str>)
    ensures
        forall|id: Seq<char>|
            table_entries(*table).contains_key(id) <==> exists|i: int|
                0 <= i < keys@.len() && (#[trigger] keys@[i])@ == id,
        forall|i: int, j: int|
            0 <= i < j < keys@.len() ==> (#[trigger] keys@[i])@ != (#[trigger] keys@[j])@,
{
    table.inner.keys().copied().collect()
}

/// Whether `ids` names every key of `entries` once.
pub open spec fn lists_keys(entries: Map<Seq<char>, AnimationState>, ids: Seq<Seq<char>>) -> bool {
    ids.no_duplicates() && ids.to_set() == entries.dom()
}

/// Whether `was` are the values of `before`, each once in some order, and
/// `after` holds under the same keys the values `is`, in that order.
pub open spec fn handed_out(
    before: Map<Seq<char>, AnimationState>,
    after: Map<Seq<char>, AnimationState>,
    was: Seq<AnimationState>,
    is: Seq<AnimationState>,
) -> bool {
    &&& after.dom() == before.dom()
    &&& is.len() == was.len()
    &&& exists|ids: Seq<Seq<char>>| #[trigger]
        lists_keys(before, ids) && ids.len() == was.len() && forall|i: int|
            0 <= i < ids.len() ==> (#[trigger] was[i]) == before[ids[i]] && after[ids[i]] == is[i]
}

/// `hashbrown::HashMap::values_mut`, collected: a mutable reference to every value of
/// the map, each once, in no stated order. The keys stay as they are, and
/// what is written through a reference is what the map holds under that
/// value's key afterwards.
#[verifier::external_body]
fn table_values_mut<'a>(table: &'a mut StateTable) -> (values: Vec<&'a mut AnimationState>)
    ensures
        handed_out(
            table_entries(*old(table)),
            table_entries(*final(table)),
            Seq::new(values@.len(), |i: int| *values@[i]),
            Seq::new(values@.len(), |i: int| *final(values@[i])),
        ),
{
    table.inner.values_mut().collect()
}

/// A state id that a player was asked for and does not hold.
#[derive(Clone, Copy, Debug, PartialEq, Eq)]
pub struct UnknownState {
    /// The id that was asked for.
    pub id: &'static str,
}

/// A player that moves an animation through named states.
///
/// A stopped player runs neither its playhead nor its rules. A paused one
/// holds the playhead and goes on evaluating its rules.
#[derive(Debug)]
pub struct LottiePlayer {
    /// The state that `reset` goes back to.
    pub initial_state: &'static str,
    /// The state the player is in.
    pub current_state: &'static str,
    /// The state to move to at the next commit, if a move is pending.
    pub next_state: Option<&'static str>,
    /// The states by name.
    pub states: StateTable,
    /// A pending frame to seek to.
    pub pending_seek_frame: Option<i32>,
    /// A pending intermission to change to.
    pub pending_intermission: Option<u32>,
    /// A pending speed to change to.
    pub pending_speed: Option<i32>,
    /// Whether the player has started.
    pub started: bool,
    /// Whether the player is playing. Rules go on being evaluated unless stopped.
    pub playing: bool,
    /// Stopped: neither the playhead nor the rules run.
    pub stopped: bool,
}

impl Default for LottiePlayer {
    /// A player whose state names are empty and that holds no states, with
    /// nothing pending.
    fn default() -> (player: LottiePlayer)
        ensures
            player.initial_state@.len() == 0,
            player.current_state@.len() == 0,
            player.next_state is None,
            player.entries() == no_states(),
            player.pending_seek_frame is None,
            player.pending_intermission is None,
            player.pending_speed is None,
            !player.started,
            !player.playing,
            !player.stopped,
    {
        proof {
            reveal_strlit("");
        }
        LottiePlayer {
            initial_state: "",
            current_state: "",
            next_state: None,
            states: table_new(),
            pending_seek_frame: None,
            pending_intermission: None,
            pending_speed: None,
            started: false,
            playing: false,
            stopped: false,
        }
    }
}

impl LottiePlayer {
    /// The states of the player by the characters of their names.
    pub open spec fn entries(self) -> Map<Seq<char>, AnimationState> {
        table_entries(self.states)
    }

    /// Whether the player holds a state named `id`.
    pub open spec fn knows(self, id: &str) -> bool {
        self.entries().contains_key(id@)
    }

    /// The state the player is in.
    pub open spec fn current(self) -> AnimationState
        recommends
            self.knows(self.current_state),
    {
        self.entries()[self.current_state@]
    }

    /// Whether `id` is a name that the player can come to: that of the initial
    /// state, of the current one, of the pending one, or of the target of a
    /// rule of one of its states.
    pub open spec fn reaches(self, id: Seq<char>) -> bool {
        ||| self.initial_state@ == id
        ||| self.current_state@ == id
        ||| match self.next_state {
            Some(next) => next@ == id,
            None => false,
        }
        ||| exists|key: Seq<char>, k: int|
            self.entries().contains_key(key) && 0 <= k < self.entries()[key].transitions@.len() && (
            #[trigger] self.entries()[key].transitions@[k]).target()@ == id
    }

    /// Every name that the player can come to is the name of a state it
    /// holds: the initial state, the current one, the pending one, and the
    /// target of every rule of every state.
    pub open spec fn valid(self) -> bool {
        &&& self.knows(self.initial_state)
        &&& self.knows(self.current_state)
        &&& self.next_state matches Some(next) ==> self.knows(next)
        &&& forall|id: Seq<char>| #[trigger]
            self.entries().contains_key(id) ==> self.entries()[id].targets_known(self.entries())
    }

    /// A player that starts in `initial_state`. It holds no states yet, and
    /// its first commit enters the initial state.
    pub fn new(initial_state: &'static str) -> (player: LottiePlayer)
        ensures
            player.initial_state == initial_state,
            player.current_state == initial_state,
            player.next_state == Some(initial_state),
            player.entries() == no_states(),
            player.pending_seek_frame is None,
            player.pending_intermission is None,
            player.pending_speed is None,
            !player.started,
            !player.playing,
            !player.stopped,
    {
        LottiePlayer {
            initial_state,
            current_state: initial_state,
            next_state: Some(initial_state),
            states: table_new(),
            pending_seek_frame: None,
            pending_intermission: None,
            pending_speed: None,
            started: false,
            playing: false,
            stopped: false,
        }
    }

    /// Adds `state` under its id, in place of any state of that name.
    pub fn with_state(self, state: AnimationState) -> (player: LottiePlayer)
        ensures
            player.entries() == self.entries().insert(state.id@, state),
            player.initial_state == self.initial_state,
            player.current_state == self.current_state,
            player.next_state == self.next_state,
            player.pending_seek_frame == self.pending_seek_frame,
            player.pending_intermission == self.pending_intermission,
            player.pending_speed == self.pending_speed,
            player.started == self.started,
            player.playing == self.playing,
            player.stopped == self.stopped,
    {
        let mut player = self;
        let _ = table_insert(&mut player.states, state);
        player
    }

    /// Whether the player holds a state named `id`.
    pub fn has_state(&self, id: &str) -> (known: bool)
        ensures
            known == self.knows(id),
    {
        table_get(&self.states, id).is_some()
    }

    /// The state named `id`, if the player holds one.
    pub fn get_state(&self, id: &'static str) -> (found: Result<&AnimationState, UnknownState>)
        ensures
            match found {
                Ok(state) => self.knows(id) && *state == self.entries()[id@],
                Err(unknown) => !self.knows(id) && unknown.id == id,
            },
    {
        match table_get(&self.states, id) {
            Some(state) => Ok(state),
            None => Err(UnknownState { id }),
        }
    }

    /// Retrieve an immutable reference to the current state.
    pub fn state(&self) -> (state: &AnimationState)
        requires
            self.knows(self.current_state),
        ensures
            *state == self.current(),
    {
        match table_get(&self.states, self.current_state) {
            Some(state) => state,
            None => vstd::pervasive::unreached(),
        }
    }

    /// Retrieve a mutable reference to the current state. What is written
    /// through it is the current state afterwards; nothing else changes.
    pub fn state_mut(&mut self) -> (state: &mut AnimationState)
        requires
            old(self).knows(old(self).current_state),
        ensures
            *state == old(self).current(),
            final(self).entries() == old(self).entries().insert(old(self).current_state@, *final(state)),
            final(self).initial_state == old(self).initial_state,
            final(self).current_state == old(self).current_state,
            final(self).next_state == old(self).next_state,
            final(self).pending_seek_frame == old(self).pending_seek_frame,
            final(self).pending_intermission == old(self).pending_intermission,
            final(self).pending_speed == old(self).pending_speed,
            final(self).started == old(self).started,
            final(self).playing == old(self).playing,
            final(self).stopped == old(self).stopped,
    {
        match table_get_mut(&mut self.states, self.current_state) {
            Some(state) => state,
            None => vstd::pervasive::unreached(),
        }
    }

    /// The states of the player, each once, in no particular order.
    pub fn states(&self) -> (states: Vec<&AnimationState>)
        ensures
            exists|ids: Seq<Seq<char>>| #[trigger]
                lists_keys(self.entries(), ids) && ids.len() == states@.len() && forall|i: int|
                    0 <= i < ids.len() ==> *(#[trigger] states@[i]) == self.entries()[ids[i]],
    {
        let keys = table_keys(&self.states);
        let ghost ids = keys@.map_values(|key: &'static str| key@);
        let mut states: Vec<&AnimationState> = Vec::new();
        let mut k: usize = 0;
        while k < keys.len()
            invariant
                k <= keys@.len(),
                states@.len() == k,
                forall|i: int| 0 <= i < keys@.len() ==> self.entries().contains_key((#[trigger] keys@[i])@),
                forall|i: int| 0 <= i < k ==> *(#[trigger] states@[i]) == self.entries()[keys@[i]@],
            decreases keys@.len() - k,
        {
            match table_get(&self.states, keys[k]) {
                Some(state) => {
                    states.push(state);
                },
                None => {
                    assert(false);
                },
            }
            k = k + 1;
        }
        proof {
            assert(ids.to_set() =~= self.entries().dom()) by {
                assert forall|id: Seq<char>| ids.to_set().contains(id) implies self.entries().dom().contains(id) by {
                    let i = choose|i: int| 0 <= i < ids.len() && ids[i] == id;
                    assert(keys@[i]@ == id);
                }
                assert forall|id: Seq<char>| self.entries().dom().contains(id) implies ids.to_set().contains(id) by {
                    let i = choose|i: int| 0 <= i < keys@.len() && (#[trigger] keys@[i])@ == id;
                    assert(ids[i] == id);
                }
            }
            assert(lists_keys(self.entries(), ids));
        }
        states
    }

    /// Mutable references to the states of the player, each once, in no
    /// particular order. What is written through one is that state
    /// afterwards; nothing else changes.
    pub fn states_mut(&mut self) -> (states: Vec<&mut AnimationState>)
        ensures
            handed_out(
                old(self).entries(),
                final(self).entries(),
                Seq::new(states@.len(), |i: int| *states@[i]),
                Seq::new(states@.len(), |i: int| *final(states@[i])),
            ),
            final(self).initial_state == old(self).initial_state,
            final(self).current_state == old(self).current_state,
            final(self).next_state == old(self).next_state,
            final(self).pending_seek_frame == old(self).pending_seek_frame,
            final(self).pending_intermission == old(self).pending_intermission,
            final(self).pending_speed == old(self).pending_speed,
            final(self).started == old(self).started,
            final(self).playing == old(self).playing,
            final(self).stopped == old(self).stopped,
    {
        table_values_mut(&mut self.states)
    }

    /// Checks that every name the player can come to is the name of a state
    /// it holds. Where one is not, it is returned as the error.
    pub fn validate(&self) -> (checked: Result<(), UnknownState>)
        ensures
            checked is Ok <==> self.valid(),
            checked matches Err(unknown) ==> !self.knows(unknown.id) && self.reaches(unknown.id@),
    {
        if !self.has_state(self.initial_state) {
            return Err(UnknownState { id: self.initial_state });
        }
        if !self.has_state(self.current_state) {
            return Err(UnknownState { id: self.current_state });
        }
        match self.next_state {
            Some(next) => {
                if !self.has_state(next) {
                    return Err(UnknownState { id: next });
                }
            },
            None => {},
        }
        let keys = table_keys(&self.states);
        let mut k: usize = 0;
        while k < keys.len()
            invariant
                k <= keys@.len(),
                forall|id: Seq<char>|
                    self.entries().contains_key(id) <==> exists|i: int|
                        0 <= i < keys@.len() && (#[trigger] keys@[i])@ == id,
                forall|i: int|
                    0 <= i < k ==> self.entries()[(#[trigger] keys@[i])@].targets_known(self.entries()),
            decreases keys@.len() - k,
        {
            match table_get(&self.states, keys[k]) {
                Some(state) => {
                    let mut t: usize = 0;
                    while t < state.transitions.len()
                        invariant
                            k < keys@.len(),
                            self.entries().contains_key(keys@[k as int]@),
                            *state == self.entries()[keys@[k as int]@],
                            t <= state.transitions@.len(),
                            forall|i: int|
                                0 <= i < t ==> self.entries().contains_key(
                                    (#[trigger] state.transitions@[i]).target()@,
                                ),
                        decreases state.transitions@.len() - t,
                    {
                        let target = state.transitions[t].state();
                        if !self.has_state(target) {
                            proof {
                                assert(self.entries().contains_key(keys@[k as int]@));
                                assert(!self.entries()[keys@[k as int]@].targets_known(self.entries()));
                                assert(self.entries()[keys@[k as int]@].transitions@[t as int].target()@ == target@);
                            }
                            return Err(UnknownState { id: target });
                        }
                        t = t + 1;
                    }
                },
                None => {
                    assert(false);
                },
            }
            k = k + 1;
        }
        proof {
            assert forall|id: Seq<char>| #[trigger] self.entries().contains_key(id) implies self.entries()[id].targets_known(self.entries()) by {
                let i = choose|i: int| 0 <= i < keys@.len() && (#[trigger] keys@[i])@ == id;
                assert(self.entries()[keys@[i]@].targets_known(self.entries()));
            }
        }
        Ok(())
    }

    /// Transition to the next state.
    pub fn transition(&mut self, state: &'static str)
        ensures
            *final(self) == (LottiePlayer { next_state: Some(state), ..*old(self) }),
    {
        self.next_state = Some(state);
    }

    /// Resets or goes back to the initial animation: the initial state is
    /// armed, and a seek to the lowest frame there is.
    pub fn reset(&mut self)
        ensures
            *final(self) == (LottiePlayer {
                next_state: Some(old(self).initial_state),
                pending_seek_frame: Some(i32::MIN),
                ..*old(self)
            }),
    {
        self.next_state = Some(self.initial_state);
        self.seek(i32::MIN);
    }

    /// Seeks to a specific frame at the start of the next tick.
    pub fn seek(&mut self, frame: i32)
        ensures
            *final(self) == (LottiePlayer { pending_seek_frame: Some(frame), ..*old(self) }),
    {
        self.pending_seek_frame = Some(frame);
    }

    /// Sets the pause between loops. Applies only to the current playback,
    /// not to any underlying state.
    pub fn set_intermission(&mut self, intermission: u32)
        ensures
            *final(self) == (LottiePlayer { pending_intermission: Some(intermission), ..*old(self) }),
    {
        self.pending_intermission = Some(intermission);
    }

    /// Sets the animation speed. Applies only to the current playback, not
    /// to any underlying state.
    pub fn set_speed(&mut self, speed: i32)
        ensures
            *final(self) == (LottiePlayer { pending_speed: Some(speed), ..*old(self) }),
    {
        self.pending_speed = Some(speed);
    }

    /// Toggle the play state: play if stopped or paused, else pause.
    pub fn toggle_play(&mut self)
        ensures
            *final(self) == if old(self).stopped || !old(self).playing {
                LottiePlayer { playing: true, stopped: false, ..*old(self) }
            } else {
                LottiePlayer { playing: false, ..*old(self) }
            },
    {
        if self.stopped || !self.playing {
            self.play();
        } else {
            self.pause();
        }
    }

    /// Play the animation.
    pub fn play(&mut self)
        ensures
            *final(self) == (LottiePlayer { playing: true, stopped: false, ..*old(self) }),
    {
        self.playing = true;
        self.stopped = false;
    }

    /// Pauses the animation. Rules go on being evaluated.
    pub fn pause(&mut self)
        ensures
            *final(self) == (LottiePlayer { playing: false, ..*old(self) }),
    {
        self.playing = false;
    }

    /// Stops the animation. Neither the playhead nor the rules run.
    pub fn stop(&mut self)
        ensures
            *final(self) == (LottiePlayer { stopped: true, ..*old(self) }),
    {
        self.stopped = true;
    }

    /// Whether the player is playing.
    pub fn is_playing(&self) -> (playing: bool)
        ensures
            playing == self.playing,
    {
        self.playing
    }

    /// Whether the player is stopped.
    pub fn is_stopped(&self) -> (stopped: bool)
        ensures
            stopped == self.stopped,
    {
        self.stopped
    }
}

} // verus!
