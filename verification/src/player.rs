//! Playback state machine: the one piece of mutable domain state.
//!
//! On every detection tick the identifier that was read is looked up in the
//! registry; the machine then decides whether a command is sent. A card that
//! is already playing is suppressed, a newly seen registered card starts its
//! track, and an unregistered card attenuates playback and returns the
//! machine to `Idle`.

use crate::commands::Command;
use crate::registry::CardRegistry;
use vstd::prelude::*;

verus! {

/// What the player is currently believed to be doing.
#[derive(Clone, Copy, PartialEq, Eq, Structural, Debug)]
pub enum PlaybackState {
    /// Nothing is believed to be playing.
    Idle,
    /// The track with this index is believed to be playing.
    Playing(u16),
}

/// The transition relation of the state machine: from the registry contents,
/// the current state and the identifier that was read, to the next state and
/// the command to emit, if any.
pub open spec fn spec_on_card_seen(
    registry: Map<Seq<u8>, u16>,
    state: PlaybackState,
    uid: Seq<u8>,
) -> (PlaybackState, Option<Command>) {
    if registry.dom().contains(uid) {
        let track = registry[uid];
        if state == PlaybackState::Playing(track) {
            (state, None)
        } else {
            (PlaybackState::Playing(track), Some(Command::PlayWithIndex(track)))
        }
    } else {
        (PlaybackState::Idle, Some(Command::VolumeDown))
    }
}

/// Decides, on each detection tick, which command (if any) the device sends.
pub struct PlaybackStateMachine {
    registry: CardRegistry,
    state: PlaybackState,
}

impl PlaybackStateMachine {
    /// The registry contents the machine consults.
    pub closed spec fn registry_view(&self) -> Map<Seq<u8>, u16> {
        self.registry@
    }

    /// The current playback state.
    pub closed spec fn state_view(&self) -> PlaybackState {
        self.state
    }

    /// The machine carries a well-formed registry.
    pub closed spec fn wf(&self) -> bool {
        self.registry.wf()
    }

    /// A machine over a startup-populated registry; playback starts `Idle`.
    pub fn new(registry: CardRegistry) -> (r: PlaybackStateMachine)
        requires
            registry.wf(),
        ensures
            r.wf(),
            r.registry_view() == registry@,
            r.state_view() == PlaybackState::Idle,
    {
        PlaybackStateMachine { registry, state: PlaybackState::Idle }
    }

    /// Handle one card detection: look the identifier up, move to the next
    /// state and return the command to send, exactly as the transition
    /// relation prescribes. The registry is never changed.
    pub fn on_card_seen(&mut self, uid: &[u8; 4]) -> (r: Option<Command>)
        requires
            old(self).wf(),
        ensures
            final(self).wf(),
            final(self).registry_view() == old(self).registry_view(),
            (final(self).state_view(), r) == spec_on_card_seen(
                old(self).registry_view(),
                old(self).state_view(),
                uid@,
            ),
    {
        match self.registry.lookup(uid) {
            Some(id) => {
                if self.state == PlaybackState::Playing(id) {
                    None
                } else {
                    self.state = PlaybackState::Playing(id);
                    Some(Command::PlayWithIndex(id))
                }
            },
            None => {
                self.state = PlaybackState::Idle;
                Some(Command::VolumeDown)
            },
        }
    }
}

/// Repeated detections of a registered card are idempotent: the first tick
/// moves the machine to `Playing` of the registered track (emitting
/// `PlayWithIndex` unless that track was already playing), and a second tick
/// with the same identifier emits nothing and changes nothing.
pub proof fn lemma_on_card_seen_idempotent(
    registry: Map<Seq<u8>, u16>,
    state: PlaybackState,
    uid: Seq<u8>,
)
    requires
        registry.dom().contains(uid),
    ensures
        spec_on_card_seen(registry, state, uid).0 == PlaybackState::Playing(registry[uid]),
        state != PlaybackState::Playing(registry[uid]) ==> spec_on_card_seen(registry, state, uid).1
            == Some(Command::PlayWithIndex(registry[uid])),
        spec_on_card_seen(registry, spec_on_card_seen(registry, state, uid).0, uid).0
            == spec_on_card_seen(registry, state, uid).0,
        spec_on_card_seen(registry, spec_on_card_seen(registry, state, uid).0, uid).1 is None,
{
}

/// Switching cards: seeing one registered card and then another, registered
/// for a different track, emits `PlayWithIndex` of the first track and then
/// of the second — the second tick is not suppressed by the state change the
/// first one made.
pub proof fn lemma_switching_cards(
    registry: Map<Seq<u8>, u16>,
    state: PlaybackState,
    uid1: Seq<u8>,
    uid2: Seq<u8>,
)
    requires
        uid1 != uid2,
        registry.dom().contains(uid1),
        registry.dom().contains(uid2),
        registry[uid1] != registry[uid2],
        state != PlaybackState::Playing(registry[uid1]),
    ensures
        spec_on_card_seen(registry, state, uid1).1 == Some(Command::PlayWithIndex(registry[uid1])),
        spec_on_card_seen(registry, spec_on_card_seen(registry, state, uid1).0, uid2).1 == Some(
            Command::PlayWithIndex(registry[uid2]),
        ),
{
}

/// An unregistered card always attenuates: from any state the machine moves
/// to `Idle` and emits `VolumeDown`, and a repeated unknown read from `Idle`
/// emits `VolumeDown` again — only the already-playing case is suppressed.
pub proof fn lemma_unregistered_card(registry: Map<Seq<u8>, u16>, state: PlaybackState, uid: Seq<u8>)
    requires
        !registry.dom().contains(uid),
    ensures
        spec_on_card_seen(registry, state, uid) == (
            PlaybackState::Idle,
            Some(Command::VolumeDown),
        ),
        spec_on_card_seen(registry, spec_on_card_seen(registry, state, uid).0, uid) == (
            PlaybackState::Idle,
            Some(Command::VolumeDown),
        ),
{
}

} // verus!
