//! What the player can ask to be done.
use vstd::prelude::*;

use crate::load::LoadRequest;
use crate::metadata::MetadataRequest;

verus! {

/// How to wait for the next command.
#[derive(Clone, Copy, Debug, PartialEq, Eq, Structural)]
pub enum CommandWait {
    /// Take one that is there, do not wait.
    Poll,
    /// Wait for some seconds.
    Timeout(u64),
    /// Wait until there is one.
    Block,
}

/// Something that is to be done.
pub enum Effect<D, S> {
    /// Get the next command, which is the answer.
    Wait(CommandWait),
    /// Ask the service for a token with the given scopes.
    FetchToken(String),
    /// Send a message to whoever listens.
    SendMeta(String),
    /// Run a program.
    RunProgram(String),
    /// Start the sink, and answer whether it did.
    StartSink,
    /// Stop the sink.
    StopSink,
    /// Get what a load needs.
    Load(LoadRequest),
    /// Get an entry of the catalogue.
    Metadata(MetadataRequest),
    /// Move the decoder to a position in milliseconds. That it cannot be moved is no failure.
    Seek(i64),
    /// Decode the next packet of the track that is playing.
    NextPacket,
    /// Put a packet through the filter, and answer with what comes out.
    Filter(Vec<i16>),
    /// Multiply the samples of a packet by a factor, and answer with the products. The factor is
    /// the bits of a single-precision number.
    Scale { packet: Vec<i16>, factor: u32 },
    /// Write a packet to the sink, and answer whether the sink took it.
    Write(Vec<i16>),
    /// Signal the end of a track.
    Signal(S),
    /// Let go of a signal that will not be given.
    Cancel(S),
    /// Let go of a decoder.
    Release(D),
    /// End the player.
    Exit,
}

/// What an effect comes to: as above, with texts as the characters they hold.
pub ghost enum EffectView<D, S> {
    Wait(CommandWait),
    FetchToken(Seq<char>),
    SendMeta(Seq<char>),
    RunProgram(Seq<char>),
    StartSink,
    StopSink,
    Load(LoadRequest),
    Metadata(MetadataRequest),
    Seek(i64),
    NextPacket,
    Filter(Vec<i16>),
    Scale { packet: Vec<i16>, factor: u32 },
    Write(Vec<i16>),
    Signal(S),
    Cancel(S),
    Release(D),
    Exit,
}

impl<D, S> View for Effect<D, S> {
    type V = EffectView<D, S>;

    open spec fn view(&self) -> EffectView<D, S> {
        match *self {
            Effect::Wait(wait) => EffectView::Wait(wait),
            Effect::FetchToken(scopes) => EffectView::FetchToken(scopes@),
            Effect::SendMeta(text) => EffectView::SendMeta(text@),
            Effect::RunProgram(program) => EffectView::RunProgram(program@),
            Effect::StartSink => EffectView::StartSink,
            Effect::StopSink => EffectView::StopSink,
            Effect::Load(request) => EffectView::Load(request),
            Effect::Metadata(request) => EffectView::Metadata(request),
            Effect::Seek(position) => EffectView::Seek(position),
            Effect::NextPacket => EffectView::NextPacket,
            Effect::Filter(packet) => EffectView::Filter(packet),
            Effect::Scale { packet, factor } => EffectView::Scale { packet, factor },
            Effect::Write(packet) => EffectView::Write(packet),
            Effect::Signal(signal) => EffectView::Signal(signal),
            Effect::Cancel(signal) => EffectView::Cancel(signal),
            Effect::Release(decoder) => EffectView::Release(decoder),
            Effect::Exit => EffectView::Exit,
        }
    }
}

/// What a list of effects comes to.
pub open spec fn trace<D, S>(effects: Seq<Effect<D, S>>) -> Seq<EffectView<D, S>> {
    effects.map_values(|effect: Effect<D, S>| effect@)
}

/// An effect comes to one of the same kind with the same contents.
pub proof fn effects_come_to_what_they_hold<D, S>(effect: Effect<D, S>)
    ensures
        match (effect, effect@) {
            (Effect::Wait(a), EffectView::Wait(b)) => a == b,
            (Effect::FetchToken(a), EffectView::FetchToken(b)) => a@ == b,
            (Effect::SendMeta(a), EffectView::SendMeta(b)) => a@ == b,
            (Effect::RunProgram(a), EffectView::RunProgram(b)) => a@ == b,
            (Effect::StartSink, EffectView::StartSink) => true,
            (Effect::StopSink, EffectView::StopSink) => true,
            (Effect::Load(a), EffectView::Load(b)) => a == b,
            (Effect::Metadata(a), EffectView::Metadata(b)) => a == b,
            (Effect::Seek(a), EffectView::Seek(b)) => a == b,
            (Effect::NextPacket, EffectView::NextPacket) => true,
            (Effect::Filter(a), EffectView::Filter(b)) => a == b,
            (Effect::Scale { packet: a, factor: m }, EffectView::Scale { packet: b, factor: n }) =>
                a == b && m == n,
            (Effect::Write(a), EffectView::Write(b)) => a == b,
            (Effect::Signal(a), EffectView::Signal(b)) => a == b,
            (Effect::Cancel(a), EffectView::Cancel(b)) => a == b,
            (Effect::Release(a), EffectView::Release(b)) => a == b,
            (Effect::Exit, EffectView::Exit) => true,
            _ => false,
        },
{
}

/// A list of effects comes to as many, each in its place.
pub proof fn traces_keep_their_order<D, S>(effects: Seq<Effect<D, S>>)
    ensures
        trace(effects).len() == effects.len(),
        forall|i: int| 0 <= i < effects.len() ==> trace(effects)[i] == (#[trigger] effects[i])@,
{
}

/// Adds an effect to a list.
pub(crate) fn emit<D, S>(effects: &mut Vec<Effect<D, S>>, effect: Effect<D, S>)
    ensures
        trace(final(effects)@) == trace(old(effects)@).push(effect@),
        final(effects)@ == old(effects)@.push(effect),
{
    let ghost before = effects@;
    effects.push(effect);
    assert(trace(before.push(effect)) =~= trace(before).push(effect@));
}

} // verus!
