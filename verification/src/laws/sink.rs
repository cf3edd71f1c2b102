//! How the sink is used.
use vstd::prelude::*;

use crate::effect::{CommandWait, EffectView};
use crate::laws::{
    all_answered, goes_on, lemma_packet_turn, lemma_sink_turn, lemma_write_turn, program_run,
    sink_start, turn_of, turns_keep_players_sound,
};
use crate::player::{Event, Phase, PlayerInternal, Turn};
use crate::state::PlayerState;

verus! {

/// What an effect does to a sink that is running or not. Nothing stands for a misuse: to start a
/// running sink, or to stop or to write to one that is not running. Whether a sink that is asked
/// to start does so shows only later.
pub open spec fn sink_step<D, S>(running: Option<bool>, effect: EffectView<D, S>) -> Option<bool> {
    match (running, effect) {
        (Some(running), EffectView::StartSink) => if running {
            None
        } else {
            Some(false)
        },
        (Some(running), EffectView::StopSink) => if running {
            Some(false)
        } else {
            None
        },
        (Some(running), EffectView::Write(_)) => if running {
            Some(true)
        } else {
            None
        },
        _ => running,
    }
}

/// What effects, one after the other, do to a sink.
pub open spec fn sink_after<D, S>(running: bool, effects: Seq<EffectView<D, S>>) -> Option<bool>
    decreases effects.len(),
{
    if effects.len() == 0 {
        Some(running)
    } else {
        sink_step(sink_after(running, effects.drop_last()), effects.last())
    }
}

broadcast proof fn lemma_sink_after_push<D, S>(
    running: bool,
    effects: Seq<EffectView<D, S>>,
    effect: EffectView<D, S>,
)
    ensures
        #[trigger] sink_after(running, effects.push(effect)) == sink_step(
            sink_after(running, effects),
            effect,
        ),
{
    assert(effects.push(effect).drop_last() =~= effects);
}

/// Whether the sink is running once an event happened: it is where it was, or just started.
pub open spec fn runs_after<D, S>(running: bool, event: Event<D, S>) -> bool {
    running || (event matches Event::SinkStarted(started) && started)
}

/// Within a turn the sink is never misused, and after it the player knows whether it is running.
pub proof fn turns_respect_the_sink<D, S>(player: PlayerInternal<D, S>, event: Event<D, S>)
    requires
        player.wf(),
        player.answered_by(event),
    ensures
        sink_after(runs_after(player.sink_running, event), turn_of(player, event).effects) == Some(
            turn_of(player, event).player.sink_running,
        ),
{
    broadcast use lemma_sink_after_push;

    reveal(turn_of);
}

/// Whether the sink is never misused while a row of events is taken.
pub open spec fn sink_respected<D, S>(
    player: PlayerInternal<D, S>,
    running: bool,
    events: Seq<Event<D, S>>,
) -> bool
    decreases events.len(),
{
    events.len() == 0 || {
        let turn = turn_of(player, events[0]);
        match sink_after(runs_after(running, events[0]), turn.effects) {
            None => false,
            Some(running) => sink_respected(turn.player, running, events.drop_first()),
        }
    }
}

/// Whatever happens to a player, its sink is never misused: it is started only when it is not
/// running, and stopped and written to only when it is.
pub proof fn the_sink_is_never_misused<D, S>(
    player: PlayerInternal<D, S>,
    events: Seq<Event<D, S>>,
)
    requires
        player.wf(),
        all_answered(player, events),
    ensures
        sink_respected(player, player.sink_running, events),
    decreases events.len(),
{
    if events.len() > 0 {
        turns_respect_the_sink(player, events[0]);
        turns_keep_players_sound(player, events[0]);
        the_sink_is_never_misused(turn_of(player, events[0]).player, events.drop_first());
    }
}

/// Others are told at once when the sink starts and when it stops.
pub proof fn others_follow_the_sink<D, S>(player: PlayerInternal<D, S>, event: Event<D, S>)
    requires
        player.wf(),
        player.answered_by(event),
    ensures
        event matches Event::SinkStarted(started) && started ==> turn_of(player, event).effects[0]
            == EffectView::<D, S>::SendMeta("kSpDeviveActive"@),
        forall|i: int|
            0 <= i < turn_of(player, event).effects.len() && (#[trigger] turn_of(
                player,
                event,
            ).effects[i]) is StopSink ==> {
                &&& i + 1 < turn_of(player, event).effects.len()
                &&& turn_of(player, event).effects[i + 1] == EffectView::<D, S>::SendMeta(
                    "kSpDeviveInactive"@,
                )
            },
{
    reveal(turn_of);
}

/// Once the sink was asked to start for a command to play, others are told if it did, and the
/// player goes on: with the next packet, or by asking the sink once more.
pub proof fn a_resumed_track_goes_on<D, S>(player: PlayerInternal<D, S>, started: bool)
    requires
        player.wf(),
        player.phase matches Phase::Sink(next) && next is Play,
    ensures
        ({
            let turn = turn_of(player, Event::SinkStarted(started));
            &&& turn.player == PlayerInternal {
                sink_running: started,
                phase: turn.player.phase,
                ..player
            }
            &&& goes_on(turn, sink_start(started))
        }),
{
    lemma_sink_turn(player, Event::SinkStarted(started));
    let turn = turn_of(player, Event::<D, S>::SinkStarted(started));
    assert(turn.effects =~= sink_start(started) + seq![turn.effects.last()]);
}

/// Once the sink was asked to start for a track that goes on, its next packet is decoded if the
/// sink did start; if not, a command is waited for during five seconds.
pub proof fn a_track_goes_on_where_the_sink_starts<D, S>(
    player: PlayerInternal<D, S>,
    started: bool,
)
    requires
        player.wf(),
        player.phase matches Phase::Sink(next) && next is Resume,
    ensures
        turn_of(player, Event::SinkStarted(started)) == if started {
            Turn {
                player: PlayerInternal { sink_running: true, phase: Phase::Packet, ..player },
                effects: seq![
                    EffectView::SendMeta("kSpDeviveActive"@),
                    EffectView::NextPacket,
                ],
            }
        } else {
            Turn {
                player: PlayerInternal { phase: Phase::Command, ..player },
                effects: seq![EffectView::Wait(CommandWait::Timeout(5))],
            }
        },
{
    lemma_sink_turn(player, Event::SinkStarted(started));
    let effects = turn_of(player, Event::<D, S>::SinkStarted(started)).effects;
    if started {
        assert(effects =~= seq![
            EffectView::SendMeta("kSpDeviveActive"@),
            EffectView::NextPacket,
        ]);
    } else {
        assert(effects =~= seq![EffectView::Wait(CommandWait::Timeout(5))]);
    }
}

/// After a packet a command is looked for without waiting if the sink took it. A sink that did
/// not is stopped, and a command is waited for during five seconds.
pub proof fn commands_are_looked_for_between_packets<D, S>(
    player: PlayerInternal<D, S>,
    written: bool,
)
    requires
        player.wf(),
        player.phase is Write,
    ensures
        turn_of(player, Event::Written(written)) == if written {
            Turn {
                player: PlayerInternal { phase: Phase::Command, ..player },
                effects: seq![EffectView::Wait(CommandWait::Poll)],
            }
        } else {
            Turn {
                player: PlayerInternal { sink_running: false, phase: Phase::Command, ..player },
                effects: seq![
                    EffectView::StopSink,
                    EffectView::SendMeta("kSpDeviveInactive"@),
                    EffectView::Wait(CommandWait::Timeout(5)),
                ],
            }
        },
{
    lemma_write_turn(player, Event::Written(written));
    let effects = turn_of(player, Event::<D, S>::Written(written)).effects;
    if written {
        assert(effects =~= seq![EffectView::Wait(CommandWait::Poll)]);
    } else {
        assert(effects =~= seq![
            EffectView::StopSink,
            EffectView::SendMeta("kSpDeviveInactive"@),
            EffectView::Wait(CommandWait::Timeout(5)),
        ]);
    }
}

/// At the end of a track the sink stops, the program for the end runs, the end is signalled and
/// then the decoder let go of; nothing is loaded any more, and a command is waited for without
/// end.
pub proof fn the_end_of_a_track_leaves_nothing<D, S>(player: PlayerInternal<D, S>)
    requires
        player.wf(),
        player.phase is Packet,
    ensures
        turn_of(player, Event::Packet(None)) == (Turn {
            player: PlayerInternal {
                state: PlayerState::Stopped,
                sink_running: false,
                phase: Phase::Command,
                ..player
            },
            effects: seq![EffectView::StopSink, EffectView::SendMeta("kSpDeviveInactive"@)]
                + program_run(player.config.onstop) + seq![
                EffectView::Signal(player.state->Playing_end_of_track),
                EffectView::Release(player.state->Playing_decoder),
                EffectView::Wait(CommandWait::Block),
            ],
        }),
{
    lemma_packet_turn(player, Event::Packet(None));
    assert(turn_of(player, Event::<D, S>::Packet(None)).effects =~= seq![
        EffectView::StopSink,
        EffectView::SendMeta("kSpDeviveInactive"@),
    ] + program_run(player.config.onstop) + seq![
        EffectView::Signal(player.state->Playing_end_of_track),
        EffectView::Release(player.state->Playing_decoder),
        EffectView::Wait(CommandWait::Block),
    ]);
}

} // verus!
