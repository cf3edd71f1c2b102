//! What the player is doing with its track.
use vstd::prelude::*;

use crate::effect::{emit, trace, Effect, EffectView};

verus! {

/// The player's state. A loaded track has a decoder `D`, a factor by which its samples are to be
/// multiplied (the bits of a single-precision number), and something `S` to signal at its end.
pub enum PlayerState<D, S> {
    Stopped,
    Paused { decoder: D, normalization_factor: u32, end_of_track: S },
    Playing { decoder: D, normalization_factor: u32, end_of_track: S },
    /// A state that is being replaced. No other code sees it.
    Invalid,
}

impl<D, S> PlayerState<D, S> {
    /// The state with a paused track playing.
    pub open spec fn resumed(self) -> PlayerState<D, S> {
        match self {
            PlayerState::Paused { decoder, normalization_factor, end_of_track } =>
                PlayerState::Playing { decoder, normalization_factor, end_of_track },
            state => state,
        }
    }

    /// The state with a playing track paused.
    pub open spec fn suspended(self) -> PlayerState<D, S> {
        match self {
            PlayerState::Playing { decoder, normalization_factor, end_of_track } =>
                PlayerState::Paused { decoder, normalization_factor, end_of_track },
            state => state,
        }
    }

    /// What is to be signalled at the end of the loaded track, if there is one.
    pub open spec fn signal(self) -> Option<S> {
        match self {
            PlayerState::Paused { end_of_track, .. } => Some(end_of_track),
            PlayerState::Playing { end_of_track, .. } => Some(end_of_track),
            _ => None,
        }
    }

    /// The decoder of the loaded track, if there is one.
    pub open spec fn source(self) -> Option<D> {
        match self {
            PlayerState::Paused { decoder, .. } => Some(decoder),
            PlayerState::Playing { decoder, .. } => Some(decoder),
            _ => None,
        }
    }

    /// Effects, then those that end the loaded track: its end is signalled, and its decoder is
    /// let go of.
    pub open spec fn ended(self, effects: Seq<EffectView<D, S>>) -> Seq<EffectView<D, S>> {
        match (self.signal(), self.source()) {
            (Some(signal), Some(decoder)) => effects.push(EffectView::Signal(signal)).push(
                EffectView::Release(decoder),
            ),
            _ => effects,
        }
    }

    /// Effects, then those that let go of the loaded track: of its decoder, and of its signal,
    /// which is not given.
    pub open spec fn discarded(self, effects: Seq<EffectView<D, S>>) -> Seq<EffectView<D, S>> {
        match (self.signal(), self.source()) {
            (Some(signal), Some(decoder)) => effects.push(EffectView::Release(decoder)).push(
                EffectView::Cancel(signal),
            ),
            _ => effects,
        }
    }

    /// Whether a track is playing.
    pub fn is_playing(&self) -> (playing: bool)
        requires
            !(*self is Invalid),
        ensures
            playing == (*self is Playing),
    {
        match self {
            PlayerState::Playing { .. } => true,
            _ => false,
        }
    }

    /// The decoder of the loaded track, if there is one. Nothing else of the state can change
    /// through it.
    pub fn decoder(&mut self) -> (found: Option<&mut D>)
        requires
            !(*old(self) is Invalid),
        ensures
            match *old(self) {
                PlayerState::Paused { decoder, normalization_factor, end_of_track } => {
                    &&& found matches Some(place)
                    &&& *place == decoder
                    &&& *final(self) == PlayerState::Paused {
                        decoder: *final(place),
                        normalization_factor,
                        end_of_track,
                    }
                },
                PlayerState::Playing { decoder, normalization_factor, end_of_track } => {
                    &&& found matches Some(place)
                    &&& *place == decoder
                    &&& *final(self) == PlayerState::Playing {
                        decoder: *final(place),
                        normalization_factor,
                        end_of_track,
                    }
                },
                _ => found is None && *final(self) == *old(self),
            },
    {
        match self {
            PlayerState::Paused { decoder, .. } => Some(decoder),
            PlayerState::Playing { decoder, .. } => Some(decoder),
            _ => None,
        }
    }

    /// Gives up the state of a track that is at its end.
    pub fn signal_end_of_track(self, effects: &mut Vec<Effect<D, S>>)
        requires
            !(self is Invalid),
        ensures
            trace(final(effects)@) == self.ended(trace(old(effects)@)),
            match self {
                PlayerState::Paused { decoder, end_of_track, .. }
                | PlayerState::Playing { decoder, end_of_track, .. } => final(effects)@ == old(
                    effects,
                )@ + seq![Effect::Signal(end_of_track), Effect::Release(decoder)],
                _ => final(effects)@ == old(effects)@,
            },
    {
        match self {
            PlayerState::Paused { decoder, end_of_track, .. } => {
                emit(effects, Effect::Signal(end_of_track));
                emit(effects, Effect::Release(decoder));
            },
            PlayerState::Playing { decoder, end_of_track, .. } => {
                emit(effects, Effect::Signal(end_of_track));
                emit(effects, Effect::Release(decoder));
            },
            _ => {},
        }
    }

    /// Gives up the state of a track that is not wanted any more.
    pub fn discard(self, effects: &mut Vec<Effect<D, S>>)
        requires
            !(self is Invalid),
        ensures
            trace(final(effects)@) == self.discarded(trace(old(effects)@)),
            match self {
                PlayerState::Paused { decoder, end_of_track, .. }
                | PlayerState::Playing { decoder, end_of_track, .. } => final(effects)@ == old(
                    effects,
                )@ + seq![Effect::Release(decoder), Effect::Cancel(end_of_track)],
                _ => final(effects)@ == old(effects)@,
            },
    {
        match self {
            PlayerState::Paused { decoder, end_of_track, .. } => {
                emit(effects, Effect::Release(decoder));
                emit(effects, Effect::Cancel(end_of_track));
            },
            PlayerState::Playing { decoder, end_of_track, .. } => {
                emit(effects, Effect::Release(decoder));
                emit(effects, Effect::Cancel(end_of_track));
            },
            _ => {},
        }
    }

    /// Lets the paused track play.
    pub fn paused_to_playing(&mut self)
        requires
            *old(self) is Paused,
        ensures
            *final(self) == old(self).resumed(),
            *old(self) matches PlayerState::Paused { decoder, normalization_factor, end_of_track }
                ==> *final(self) == (PlayerState::Playing {
                decoder,
                normalization_factor,
                end_of_track,
            }),
    {
        let mut state = PlayerState::Invalid;
        std::mem::swap(&mut state, self);
        match state {
            PlayerState::Paused { decoder, normalization_factor, end_of_track } => {
                *self = PlayerState::Playing { decoder, normalization_factor, end_of_track };
            },
            _ => {},
        }
    }

    /// Pauses the playing track.
    pub fn playing_to_paused(&mut self)
        requires
            *old(self) is Playing,
        ensures
            *final(self) == old(self).suspended(),
            *old(self) matches PlayerState::Playing { decoder, normalization_factor, end_of_track }
                ==> *final(self) == (PlayerState::Paused {
                decoder,
                normalization_factor,
                end_of_track,
            }),
    {
        let mut state = PlayerState::Invalid;
        std::mem::swap(&mut state, self);
        match state {
            PlayerState::Playing { decoder, normalization_factor, end_of_track } => {
                *self = PlayerState::Paused { decoder, normalization_factor, end_of_track };
            },
            _ => {},
        }
    }
}

/// A track stays as it was loaded while it is paused and played: its decoder, its factor and its
/// signal are the same. To end it gives the signal and then lets go of the decoder; to discard it
/// lets go of the decoder and then of the signal. Without a track there is nothing to give.
pub proof fn tracks_are_kept_and_given_up_whole<D, S>(
    decoder: D,
    normalization_factor: u32,
    end_of_track: S,
    effects: Seq<EffectView<D, S>>,
)
    ensures
        ({
            let paused = PlayerState::Paused { decoder, normalization_factor, end_of_track };
            let playing = PlayerState::Playing { decoder, normalization_factor, end_of_track };
            let stopped = PlayerState::<D, S>::Stopped;
            let ended = effects + seq![
                EffectView::Signal(end_of_track),
                EffectView::Release(decoder),
            ];
            let discarded = effects + seq![
                EffectView::Release(decoder),
                EffectView::Cancel(end_of_track),
            ];
            &&& paused.resumed() == playing
            &&& playing.resumed() == playing
            &&& stopped.resumed() == stopped
            &&& playing.suspended() == paused
            &&& paused.suspended() == paused
            &&& stopped.suspended() == stopped
            &&& paused.signal() == Some(end_of_track)
            &&& playing.signal() == Some(end_of_track)
            &&& stopped.signal() is None
            &&& paused.source() == Some(decoder)
            &&& playing.source() == Some(decoder)
            &&& stopped.source() is None
            &&& paused.ended(effects) == ended
            &&& playing.ended(effects) == ended
            &&& stopped.ended(effects) == effects
            &&& paused.discarded(effects) == discarded
            &&& playing.discarded(effects) == discarded
            &&& stopped.discarded(effects) == effects
        }),
{
    let paused = PlayerState::Paused { decoder, normalization_factor, end_of_track };
    assert(paused.ended(effects) =~= effects + seq![
        EffectView::Signal(end_of_track),
        EffectView::Release(decoder),
    ]);
    assert(paused.discarded(effects) =~= effects + seq![
        EffectView::Release(decoder),
        EffectView::Cancel(end_of_track),
    ]);
}

/// Letting a paused track play and pausing it again gives back the state, and so does pausing a
/// playing track and letting it play again.
pub proof fn pausing_undoes_playing<D, S>(state: PlayerState<D, S>)
    ensures
        state is Paused ==> state.resumed() is Playing && state.resumed().suspended() == state,
        state is Playing ==> state.suspended() is Paused && state.suspended().resumed() == state,
        state.resumed().signal() == state.signal(),
        state.suspended().signal() == state.signal(),
{
}

} // verus!
