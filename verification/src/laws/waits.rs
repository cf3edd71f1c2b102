//! What the player waits for, and what it takes.
use vstd::prelude::*;

use crate::effect::{CommandWait, EffectView};
use crate::laws::{
    lemma_command_turn, turn_of, turns_end_with_their_one_question, turns_keep_players_sound,
};
use crate::load_laws::load_answers;
use crate::metadata::{MetadataReply, MetadataRequest};
use crate::player::{AfterStart, Event, Phase, PlayerInternal, Turn};

verus! {

/// How the player waits for a command depends on its state and on its sink alone: it does not
/// wait at all where a track plays on a running sink, it waits for five seconds where one is to
/// play but the sink is not running, and in every other case until a command comes.
pub proof fn waits_follow_state_and_sink<D, S>(player: PlayerInternal<D, S>, event: Event<D, S>)
    requires
        player.wf(),
        player.answered_by(event),
    ensures
        ({
            let turn = turn_of(player, event);
            &&& turn.effects.len() > 0
            &&& turn.effects.last() is Wait <==> turn.player.phase is Command
            &&& turn.effects.last() matches EffectView::Wait(wait) ==> {
                &&& turn.player.state is Playing && turn.player.sink_running ==> wait
                    == CommandWait::Poll
                &&& turn.player.state is Playing && !turn.player.sink_running ==> wait
                    == CommandWait::Timeout(5)
                &&& !(turn.player.state is Playing) ==> wait == CommandWait::Block
            }
        }),
{
    turns_end_with_their_one_question(player, event);
}

/// How a player waits that does nothing yet, or is asked at any other time.
pub proof fn a_wait_is_told_by_state_and_sink<D, S>(player: PlayerInternal<D, S>)
    ensures
        player.wait_for_command() == CommandWait::Poll <==> player.state is Playing
            && player.sink_running,
        player.wait_for_command() == CommandWait::Timeout(5) <==> player.state is Playing
            && !player.sink_running,
        player.wait_for_command() == CommandWait::Block <==> !(player.state is Playing),
{
}

/// Where no command comes while a track plays, its next packet is decoded at once if the sink
/// runs, and the sink is asked to start if it does not. Nothing else changes.
pub proof fn playing_goes_on_without_commands<D, S>(player: PlayerInternal<D, S>)
    requires
        player.phase is Command,
        player.state is Playing,
    ensures
        player.answered_by(Event::NoCommand),
        turn_of(player, Event::NoCommand) == if player.sink_running {
            Turn {
                player: PlayerInternal { phase: Phase::Packet, ..player },
                effects: seq![EffectView::NextPacket],
            }
        } else {
            Turn {
                player: PlayerInternal { phase: Phase::Sink(AfterStart::Resume), ..player },
                effects: seq![EffectView::StartSink],
            }
        },
{
    lemma_command_turn(player, Event::NoCommand);
    let effects = turn_of(player, Event::<D, S>::NoCommand).effects;
    assert(effects =~= seq![effects[0]]);
}

/// Whether an event is an answer to what an effect asks for. A wait that has no end brings a
/// command or none ever; the others may also bring none for now. A track that is to be announced
/// needs an artist, and its album three covers.
pub open spec fn answers<D, S>(effect: EffectView<D, S>, event: Event<D, S>) -> bool {
    match (effect, event) {
        (EffectView::Wait(_), Event::Command(_)) => true,
        (EffectView::Wait(_), Event::Disconnected) => true,
        (EffectView::Wait(wait), Event::NoCommand) => wait != CommandWait::Block,
        (EffectView::FetchToken(_), Event::Token(_)) => true,
        (EffectView::StartSink, Event::SinkStarted(_)) => true,
        (EffectView::Load(request), Event::Load(reply)) => load_answers(request, reply),
        (
            EffectView::Metadata(MetadataRequest::Track(_)),
            Event::Metadata(MetadataReply::Track(track)),
        ) => track.artists@.len() > 0,
        (
            EffectView::Metadata(MetadataRequest::Artist(_)),
            Event::Metadata(MetadataReply::Artist(_)),
        ) => true,
        (
            EffectView::Metadata(MetadataRequest::Album(_)),
            Event::Metadata(MetadataReply::Album(album)),
        ) => album.covers@.len() >= 3,
        (EffectView::NextPacket, Event::Packet(_)) => true,
        (EffectView::Filter(_), Event::Filtered(_)) => true,
        (EffectView::Scale { .. }, Event::Scaled(_)) => true,
        (EffectView::Write(_), Event::Written(_)) => true,
        _ => false,
    }
}

/// A player takes every answer to what it asked for, and nothing else.
pub proof fn players_take_their_answers<D, S>(
    player: PlayerInternal<D, S>,
    event: Event<D, S>,
    answer: Event<D, S>,
)
    requires
        player.wf(),
        player.answered_by(event),
    ensures
        turn_of(player, event).player.answered_by(answer) <==> answers(
            turn_of(player, event).effects.last(),
            answer,
        ),
{
    turns_end_with_their_one_question(player, event);
    turns_keep_players_sound(player, event);
}

/// A player that does nothing yet takes any command, and that no more can come.
pub proof fn new_players_take_commands<D, S>(player: PlayerInternal<D, S>, answer: Event<D, S>)
    requires
        player.phase is Command,
    ensures
        player.answered_by(answer) <==> answer is Command || answer is Disconnected || (
        answer is NoCommand && player.state is Playing),
{
}

} // verus!
