//! What becomes of the signals that come with commands to load.
use vstd::prelude::*;

use crate::command::PlayerCommand;
use crate::effect::{CommandWait, EffectView};
use crate::laws::{
    all_answered, lemma_load_turn, lemma_packet_turn, lemma_token_turn, turn_of,
    turns_keep_players_sound,
};
use crate::player::{AfterStart, Event, Phase, PlayerInternal};

verus! {

/// The signal for the end of a track that was asked for but is not the loaded one yet.
pub open spec fn pending_signal<D, S>(phase: Phase<D, S>) -> Option<S> {
    match phase {
        Phase::Token(PlayerCommand::Load(_, _, _, end_of_track)) => Some(end_of_track),
        Phase::Load { end_of_track, .. } => Some(end_of_track),
        Phase::Sink(AfterStart::Load { end_of_track, .. }) => Some(end_of_track),
        Phase::Announce { end_of_track, .. } => Some(end_of_track),
        _ => None,
    }
}

/// One if there is such a signal, else none.
pub open spec fn one_if<S>(found: Option<S>, signal: S) -> nat {
    if found == Some(signal) {
        1
    } else {
        0
    }
}

/// How often the player holds a signal that it has not given yet.
pub open spec fn held<D, S>(player: PlayerInternal<D, S>, signal: S) -> nat {
    one_if(player.state.signal(), signal) + one_if(pending_signal(player.phase), signal)
}

/// How often an event brings a signal to the player.
pub open spec fn brought<D, S>(event: Event<D, S>, signal: S) -> nat {
    match event {
        Event::Command(PlayerCommand::Load(_, _, _, end_of_track)) => one_if(
            Some(end_of_track),
            signal,
        ),
        _ => 0,
    }
}

/// How often an effect gives a signal.
pub open spec fn gives<D, S>(effect: EffectView<D, S>, signal: S) -> nat {
    match effect {
        EffectView::Signal(last) => one_if(Some(last), signal),
        _ => 0,
    }
}

/// How often an effect lets go of a signal without giving it.
pub open spec fn cancels<D, S>(effect: EffectView<D, S>, signal: S) -> nat {
    match effect {
        EffectView::Cancel(last) => one_if(Some(last), signal),
        _ => 0,
    }
}

/// How often effects give a signal.
pub open spec fn given<D, S>(effects: Seq<EffectView<D, S>>, signal: S) -> nat
    decreases effects.len(),
{
    if effects.len() == 0 {
        0
    } else {
        given(effects.drop_last(), signal) + gives(effects.last(), signal)
    }
}

/// How often effects let go of a signal without giving it.
pub open spec fn cancelled<D, S>(effects: Seq<EffectView<D, S>>, signal: S) -> nat
    decreases effects.len(),
{
    if effects.len() == 0 {
        0
    } else {
        cancelled(effects.drop_last(), signal) + cancels(effects.last(), signal)
    }
}

/// How often effects part with a signal in either way.
spec fn parted<D, S>(effects: Seq<EffectView<D, S>>, signal: S) -> nat
    decreases effects.len(),
{
    if effects.len() == 0 {
        0
    } else {
        parted(effects.drop_last(), signal) + gives(effects.last(), signal) + cancels(
            effects.last(),
            signal,
        )
    }
}

proof fn lemma_parted<D, S>(effects: Seq<EffectView<D, S>>, signal: S)
    ensures
        parted(effects, signal) == given(effects, signal) + cancelled(effects, signal),
    decreases effects.len(),
{
    if effects.len() > 0 {
        lemma_parted(effects.drop_last(), signal);
    }
}

broadcast proof fn lemma_parted_push<D, S>(
    effects: Seq<EffectView<D, S>>,
    effect: EffectView<D, S>,
    signal: S,
)
    ensures
        #[trigger] parted(effects.push(effect), signal) == parted(effects, signal) + gives(
            effect,
            signal,
        ) + cancels(effect, signal),
{
    assert(effects.push(effect).drop_last() =~= effects);
}

/// Whether a turn keeps account of a signal.
spec fn accounted<D, S>(player: PlayerInternal<D, S>, event: Event<D, S>, signal: S) -> bool {
    held(player, signal) + brought(event, signal) == parted(turn_of(player, event).effects, signal)
        + held(turn_of(player, event).player, signal)
}

/// A command to load keeps account of signals.
proof fn lemma_load_command_accounts<D, S>(
    player: PlayerInternal<D, S>,
    event: Event<D, S>,
    signal: S,
)
    requires
        player.wf(),
        player.answered_by(event),
        player.phase matches Phase::Token(command) && command is Load,
    ensures
        accounted(player, event, signal),
{
    broadcast use lemma_parted_push;

    lemma_token_turn(player, event);
}

/// A command to play does.
proof fn lemma_play_accounts<D, S>(
    player: PlayerInternal<D, S>,
    event: Event<D, S>,
    signal: S,
)
    requires
        player.wf(),
        player.answered_by(event),
        player.phase matches Phase::Token(command) && command is Play,
    ensures
        accounted(player, event, signal),
{
    broadcast use lemma_parted_push;

    lemma_token_turn(player, event);
}

/// A command to pause does.
proof fn lemma_pause_accounts<D, S>(
    player: PlayerInternal<D, S>,
    event: Event<D, S>,
    signal: S,
)
    requires
        player.wf(),
        player.answered_by(event),
        player.phase matches Phase::Token(command) && command is Pause,
    ensures
        accounted(player, event, signal),
{
    broadcast use lemma_parted_push;

    lemma_token_turn(player, event);
}

/// A command to stop does.
proof fn lemma_stop_accounts<D, S>(
    player: PlayerInternal<D, S>,
    event: Event<D, S>,
    signal: S,
)
    requires
        player.wf(),
        player.answered_by(event),
        player.phase matches Phase::Token(command) && command is Stop,
    ensures
        accounted(player, event, signal),
{
    broadcast use lemma_parted_push;

    lemma_token_turn(player, event);
}

/// A command to seek does.
proof fn lemma_seek_accounts<D, S>(
    player: PlayerInternal<D, S>,
    event: Event<D, S>,
    signal: S,
)
    requires
        player.wf(),
        player.answered_by(event),
        player.phase matches Phase::Token(command) && command is Seek,
    ensures
        accounted(player, event, signal),
{
    broadcast use lemma_parted_push;

    lemma_token_turn(player, event);
}

/// A load in progress does.
proof fn lemma_load_accounts<D, S>(
    player: PlayerInternal<D, S>,
    event: Event<D, S>,
    signal: S,
)
    requires
        player.wf(),
        player.answered_by(event),
        player.phase is Load,
    ensures
        accounted(player, event, signal),
{
    broadcast use lemma_parted_push;

    lemma_load_turn(player, event);
}

/// So does all the rest.
proof fn lemma_rest_accounts<D, S>(
    player: PlayerInternal<D, S>,
    event: Event<D, S>,
    signal: S,
)
    requires
        player.wf(),
        player.answered_by(event),
        !(player.phase is Token || player.phase is Load),
    ensures
        accounted(player, event, signal),
{
    broadcast use lemma_parted_push;

    reveal(turn_of);
}

/// In a turn no signal is lost and none is made up: what the player held and what the event
/// brought is given, let go of, or still held.
pub proof fn turns_account_for_every_signal<D, S>(
    player: PlayerInternal<D, S>,
    event: Event<D, S>,
    signal: S,
)
    requires
        player.wf(),
        player.answered_by(event),
    ensures
        held(player, signal) + brought(event, signal) == given(
            turn_of(player, event).effects,
            signal,
        ) + cancelled(turn_of(player, event).effects, signal) + held(
            turn_of(player, event).player,
            signal,
        ),
{
    lemma_parted(turn_of(player, event).effects, signal);
    match player.phase {
        Phase::Token(PlayerCommand::Load(_, _, _, _)) => {
            lemma_load_command_accounts(player, event, signal);
        },
        Phase::Token(PlayerCommand::Play) => {
            lemma_play_accounts(player, event, signal);
        },
        Phase::Token(PlayerCommand::Pause) => {
            lemma_pause_accounts(player, event, signal);
        },
        Phase::Token(PlayerCommand::Stop) => {
            lemma_stop_accounts(player, event, signal);
        },
        Phase::Token(PlayerCommand::Seek(_)) => {
            lemma_seek_accounts(player, event, signal);
        },
        Phase::Load { .. } => {
            lemma_load_accounts(player, event, signal);
        },
        _ => {
            lemma_rest_accounts(player, event, signal);
        },
    }
}

/// How often a signal is given while a row of events is taken.
pub open spec fn given_in_all<D, S>(
    player: PlayerInternal<D, S>,
    events: Seq<Event<D, S>>,
    signal: S,
) -> nat
    decreases events.len(),
{
    if events.len() == 0 {
        0
    } else {
        given(turn_of(player, events[0]).effects, signal) + given_in_all(
            turn_of(player, events[0]).player,
            events.drop_first(),
            signal,
        )
    }
}

/// How often a row of events brings a signal.
pub open spec fn brought_in_all<D, S>(events: Seq<Event<D, S>>, signal: S) -> nat
    decreases events.len(),
{
    if events.len() == 0 {
        0
    } else {
        brought(events[0], signal) + brought_in_all(events.drop_first(), signal)
    }
}

/// Whatever happens to a player, the end of a track is signalled at most once for each command
/// to load it.
pub proof fn ends_are_signalled_at_most_once<D, S>(
    player: PlayerInternal<D, S>,
    events: Seq<Event<D, S>>,
    signal: S,
)
    requires
        player.wf(),
        all_answered(player, events),
    ensures
        given_in_all(player, events, signal) <= held(player, signal) + brought_in_all(
            events,
            signal,
        ),
    decreases events.len(),
{
    if events.len() > 0 {
        turns_account_for_every_signal(player, events[0], signal);
        turns_keep_players_sound(player, events[0]);
        ends_are_signalled_at_most_once(
            turn_of(player, events[0]).player,
            events.drop_first(),
            signal,
        );
    }
}

/// A track that ends while it plays stops the sink, leaves nothing loaded, and is the one whose
/// end is signalled; then the player waits until a command comes.
pub proof fn a_track_that_ends_is_signalled<D, S>(player: PlayerInternal<D, S>)
    requires
        player.wf(),
        player.phase is Packet,
    ensures
        ({
            let turn = turn_of(player, Event::Packet(None));
            let count = turn.effects.len();
            &&& turn.player.state is Stopped
            &&& !turn.player.sink_running
            &&& count >= 5
            &&& turn.effects[0] is StopSink
            &&& turn.effects[count - 3] == EffectView::<D, S>::Signal(player.state.signal()->0)
            &&& turn.effects[count - 2] == EffectView::<D, S>::Release(player.state.source()->0)
            &&& turn.effects[count - 1] == EffectView::<D, S>::Wait(CommandWait::Block)
        }),
{
    lemma_packet_turn(player, Event::Packet(None));
}

/// The effects by which a turn gives up the loaded track come after all the others: the sink has
/// stopped, programs have run and messages are sent before its decoder and its signal go. Only
/// the question of the turn comes later.
pub proof fn a_track_is_given_up_last<D, S>(player: PlayerInternal<D, S>, event: Event<D, S>)
    requires
        player.wf(),
        player.answered_by(event),
    ensures
        forall|i: int|
            0 <= i < turn_of(player, event).effects.len() && (#[trigger] turn_of(
                player,
                event,
            ).effects[i]) is Release ==> {
                let effects = turn_of(player, event).effects;
                ||| i == effects.len() - 3 && effects[i + 1] is Cancel
                ||| i == effects.len() - 2 && effects[i - 1] is Signal
            },
{
    reveal(turn_of);
}

} // verus!
