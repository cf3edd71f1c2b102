//! What becomes of commands.
use vstd::prelude::*;

use crate::command::PlayerCommand;
use crate::effect::{CommandWait, EffectView};
use crate::laws::{
    all_answered, goes_on, lemma_token_turn, player_after, program_run, sink_stop, token_after,
    turn_of,
};
use crate::load::{LoadRequest, LoadStage, TrackLoader};
use crate::metadata::{Lookup, MetadataRequest, SpotifyId};
use crate::player::{AfterStart, Event, Phase, PlayerInternal, Turn};
use crate::state::PlayerState;
use crate::token::{token_text, Token};

verus! {

/// Every command has the token passed on before anything else is done: the new one where the
/// service granted one, else the old one. Nothing else changes the token.
pub proof fn commands_pass_on_the_token<D, S>(player: PlayerInternal<D, S>, event: Event<D, S>)
    requires
        player.wf(),
        player.answered_by(event),
    ensures
        turn_of(player, event).player.token == (match event {
            Event::Token(Some(token)) => token,
            _ => player.token,
        }),
        player.phase is Token ==> turn_of(player, event).effects[0] == EffectView::<D, S>::SendMeta(
            token_text(turn_of(player, event).player.token),
        ),
{
    reveal(turn_of);
}

/// Whether a state has no use for a command: to play needs a paused track, to pause needs one
/// that plays, to stop and to seek need one of either kind.
pub open spec fn useless<D, S>(command: PlayerCommand<S>, state: PlayerState<D, S>) -> bool {
    match command {
        PlayerCommand::Load(_, _, _, _) => false,
        PlayerCommand::Play => !(state is Paused),
        PlayerCommand::Pause => !(state is Playing),
        PlayerCommand::Stop => state is Stopped,
        PlayerCommand::Seek(_) => state is Stopped,
    }
}

/// A command that the state has no use for changes neither the state nor the sink: the token is
/// passed on, and the player goes on with what it did.
pub proof fn useless_commands_change_nothing<D, S>(
    player: PlayerInternal<D, S>,
    event: Event<D, S>,
)
    requires
        player.wf(),
        player.answered_by(event),
        player.phase matches Phase::Token(command) && useless(command, player.state),
    ensures
        turn_of(player, event).player.state == player.state,
        turn_of(player, event).player.sink_running == player.sink_running,
        turn_of(player, event).effects.len() == 2,
{
    lemma_token_turn(player, event);
}

/// The command that was received and is carried out as soon as its token is there, if any.
pub open spec fn pending_command<D, S>(player: PlayerInternal<D, S>) -> Seq<PlayerCommand<S>> {
    match player.phase {
        Phase::Token(command) => seq![command],
        _ => seq![],
    }
}

/// The command that an event brings, if any.
pub open spec fn received<D, S>(event: Event<D, S>) -> Seq<PlayerCommand<S>> {
    match event {
        Event::Command(command) => seq![command],
        _ => seq![],
    }
}

/// The command that is carried out in the turn that an event brings about, if any: the pending
/// one, once there is an answer for the token.
pub open spec fn carried_out<D, S>(
    player: PlayerInternal<D, S>,
    event: Event<D, S>,
) -> Seq<PlayerCommand<S>> {
    if event is Token {
        pending_command(player)
    } else {
        seq![]
    }
}

/// The commands that a row of events brings, in order.
pub open spec fn all_received<D, S>(events: Seq<Event<D, S>>) -> Seq<PlayerCommand<S>>
    decreases events.len(),
{
    if events.len() == 0 {
        seq![]
    } else {
        received(events[0]) + all_received(events.drop_first())
    }
}

/// The commands that are carried out while a row of events is taken, in order.
pub open spec fn all_carried_out<D, S>(
    player: PlayerInternal<D, S>,
    events: Seq<Event<D, S>>,
) -> Seq<PlayerCommand<S>>
    decreases events.len(),
{
    if events.len() == 0 {
        seq![]
    } else {
        carried_out(player, events[0]) + all_carried_out(
            turn_of(player, events[0]).player,
            events.drop_first(),
        )
    }
}

/// A turn that carries out a command does what the command asks for, and a turn loses no command
/// and makes none up: what was pending and what came is carried out or pending after it.
pub proof fn turns_account_for_every_command<D, S>(
    player: PlayerInternal<D, S>,
    event: Event<D, S>,
)
    requires
        player.answered_by(event),
    ensures
        player.phase matches Phase::Token(command) ==> {
            &&& carried_out(player, event) == seq![command]
            &&& turn_of(player, event) == (Turn {
                player: PlayerInternal { phase: Phase::Done, ..player },
                effects: seq![],
            }).handle_command(command, event->Token_0)
        },
        pending_command(player) + received(event) == carried_out(player, event) + pending_command(
            turn_of(player, event).player,
        ),
{
    reveal(turn_of);
}

/// Whatever happens to a player, every command that comes is carried out exactly once, and in
/// the order in which they came; only the last one may still be pending. Once no more can come,
/// nothing is pending.
pub proof fn commands_are_carried_out_once_and_in_order<D, S>(
    player: PlayerInternal<D, S>,
    events: Seq<Event<D, S>>,
)
    requires
        all_answered(player, events),
    ensures
        pending_command(player) + all_received(events) == all_carried_out(player, events)
            + pending_command(player_after(player, events)),
        player_after(player, events).phase is Done ==> pending_command(player) + all_received(
            events,
        ) == all_carried_out(player, events),
    decreases events.len(),
{
    if events.len() > 0 {
        let next = turn_of(player, events[0]).player;
        let rest = events.drop_first();
        turns_account_for_every_command(player, events[0]);
        commands_are_carried_out_once_and_in_order(next, rest);
        assert(pending_command(player) + all_received(events) =~= (pending_command(player)
            + received(events[0])) + all_received(rest));
        assert((carried_out(player, events[0]) + pending_command(next)) + all_received(rest)
            =~= carried_out(player, events[0]) + (pending_command(next) + all_received(rest)));
        assert(carried_out(player, events[0]) + (all_carried_out(next, rest) + pending_command(
            player_after(next, rest),
        )) =~= all_carried_out(player, events) + pending_command(player_after(player, events)));
    }
}

/// A command that comes has a token asked for, with five scopes, and changes nothing else.
pub proof fn a_command_has_a_token_fetched<D, S>(
    player: PlayerInternal<D, S>,
    command: PlayerCommand<S>,
)
    requires
        player.phase is Command,
    ensures
        turn_of(player, Event::Command(command)) == (Turn {
            player: PlayerInternal { phase: Phase::Token(command), ..player },
            effects: seq![
                EffectView::FetchToken(
                    "streaming,user-read-playback-state,user-modify-playback-state,user-read-currently-playing,user-read-private"@,
                ),
            ],
        }),
{
    reveal(turn_of);
    assert(turn_of(player, Event::Command(command)).effects =~= seq![
        turn_of(player, Event::Command(command)).effects[0],
    ]);
}

/// When no more commands can come the player ends, and does nothing else.
pub proof fn a_player_without_commands_ends<D, S>(player: PlayerInternal<D, S>)
    requires
        player.phase is Command,
    ensures
        turn_of(player, Event::Disconnected) == (Turn {
            player: PlayerInternal { phase: Phase::Done, ..player },
            effects: seq![EffectView::Exit],
        }),
{
    reveal(turn_of);
    assert(turn_of(player, Event::<D, S>::Disconnected).effects =~= seq![EffectView::Exit]);
}

/// A command to seek moves the decoder of a loaded track to the position that the command names,
/// whether the track plays or is paused, and changes nothing but the token; then the player goes
/// on.
pub proof fn a_seek_moves_the_decoder<D, S>(
    player: PlayerInternal<D, S>,
    position: u32,
    granted: Option<Token>,
)
    requires
        player.wf(),
        player.phase == Phase::<D, S>::Token(PlayerCommand::Seek(position)),
        player.state is Paused || player.state is Playing,
    ensures
        ({
            let turn = turn_of(player, Event::Token(granted));
            let token = token_after(player, granted);
            &&& turn.player == PlayerInternal { token, phase: turn.player.phase, ..player }
            &&& turn.effects.len() == 3
            &&& turn.effects[1] matches EffectView::Seek(target) && target == position
            &&& goes_on(
                turn,
                seq![EffectView::SendMeta(token_text(token)), EffectView::Seek(position as i64)],
            )
        }),
{
    lemma_token_turn(player, Event::Token(granted));
    let turn = turn_of(player, Event::<D, S>::Token(granted));
    assert(turn.effects =~= seq![turn.effects[0], turn.effects[1]] + seq![turn.effects[2]]);
    assert(seq![turn.effects[0], turn.effects[1]] =~= seq![
        EffectView::SendMeta(token_text(token_after(player, granted))),
        EffectView::Seek(position as i64),
    ]);
}

/// Nothing but a command to seek in a loaded track moves its decoder.
pub proof fn only_a_seek_moves_the_decoder<D, S>(player: PlayerInternal<D, S>, event: Event<D, S>)
    requires
        player.wf(),
        player.answered_by(event),
    ensures
        forall|i: int|
            0 <= i < turn_of(player, event).effects.len() && (#[trigger] turn_of(
                player,
                event,
            ).effects[i]) is Seek ==> {
                &&& i == 1
                &&& player.state is Paused || player.state is Playing
                &&& player.phase matches Phase::Token(PlayerCommand::Seek(position))
                    && turn_of(player, event).effects[i]->Seek_0 == position
            },
{
    reveal(turn_of);
}

/// A command to play has a paused track play, as it was loaded: the program for the start runs,
/// and the sink is asked to start.
pub proof fn a_play_resumes_the_paused_track<D, S>(
    player: PlayerInternal<D, S>,
    granted: Option<Token>,
)
    requires
        player.wf(),
        player.phase matches Phase::Token(command) && command is Play,
        player.state is Paused,
    ensures
        ({
            let token = token_after(player, granted);
            turn_of(player, Event::Token(granted)) == Turn {
                player: PlayerInternal {
                    token,
                    state: PlayerState::Playing {
                        decoder: player.state->Paused_decoder,
                        normalization_factor: player.state->Paused_normalization_factor,
                        end_of_track: player.state->Paused_end_of_track,
                    },
                    phase: Phase::Sink(AfterStart::Play),
                    ..player
                },
                effects: seq![EffectView::SendMeta(token_text(token))] + program_run(
                    player.config.onstart,
                ) + seq![EffectView::StartSink],
            }
        }),
{
    lemma_token_turn(player, Event::Token(granted));
    assert(turn_of(player, Event::<D, S>::Token(granted)).effects =~= seq![
        EffectView::SendMeta(token_text(token_after(player, granted))),
    ] + program_run(player.config.onstart) + seq![EffectView::StartSink]);
}

/// A command to pause pauses a playing track, as it was loaded: the sink stops if it runs, the
/// program for the end runs, and the player waits until a command comes.
pub proof fn a_pause_suspends_the_playing_track<D, S>(
    player: PlayerInternal<D, S>,
    granted: Option<Token>,
)
    requires
        player.wf(),
        player.phase matches Phase::Token(command) && command is Pause,
        player.state is Playing,
    ensures
        ({
            let token = token_after(player, granted);
            turn_of(player, Event::Token(granted)) == Turn {
                player: PlayerInternal {
                    token,
                    state: PlayerState::Paused {
                        decoder: player.state->Playing_decoder,
                        normalization_factor: player.state->Playing_normalization_factor,
                        end_of_track: player.state->Playing_end_of_track,
                    },
                    sink_running: false,
                    phase: Phase::Command,
                    ..player
                },
                effects: seq![EffectView::SendMeta(token_text(token))] + sink_stop(
                    player.sink_running,
                ) + program_run(player.config.onstop) + seq![EffectView::Wait(CommandWait::Block)],
            }
        }),
{
    lemma_token_turn(player, Event::Token(granted));
    assert(turn_of(player, Event::<D, S>::Token(granted)).effects =~= seq![
        EffectView::SendMeta(token_text(token_after(player, granted))),
    ] + sink_stop(player.sink_running) + program_run(player.config.onstop) + seq![
        EffectView::Wait(CommandWait::Block),
    ]);
}

/// A command to stop gives up a playing track: the sink stops if it runs, the program for the end
/// runs, and decoder and signal are let go of. Then the player waits until a command comes.
pub proof fn a_stop_gives_up_the_playing_track<D, S>(
    player: PlayerInternal<D, S>,
    granted: Option<Token>,
)
    requires
        player.wf(),
        player.phase matches Phase::Token(command) && command is Stop,
        player.state is Playing,
    ensures
        ({
            let token = token_after(player, granted);
            turn_of(player, Event::Token(granted)) == Turn {
                player: PlayerInternal {
                    token,
                    state: PlayerState::Stopped,
                    sink_running: false,
                    phase: Phase::Command,
                    ..player
                },
                effects: seq![EffectView::SendMeta(token_text(token))] + sink_stop(
                    player.sink_running,
                ) + program_run(player.config.onstop) + seq![
                    EffectView::Release(player.state->Playing_decoder),
                    EffectView::Cancel(player.state->Playing_end_of_track),
                    EffectView::Wait(CommandWait::Block),
                ],
            }
        }),
{
    lemma_token_turn(player, Event::Token(granted));
    assert(turn_of(player, Event::<D, S>::Token(granted)).effects =~= seq![
        EffectView::SendMeta(token_text(token_after(player, granted))),
    ] + sink_stop(player.sink_running) + program_run(player.config.onstop) + seq![
        EffectView::Release(player.state->Playing_decoder),
        EffectView::Cancel(player.state->Playing_end_of_track),
        EffectView::Wait(CommandWait::Block),
    ]);
}

/// A command to stop gives up a paused track: decoder and signal are let go of, no program runs
/// and the sink is left alone.
pub proof fn a_stop_gives_up_the_paused_track<D, S>(
    player: PlayerInternal<D, S>,
    granted: Option<Token>,
)
    requires
        player.wf(),
        player.phase matches Phase::Token(command) && command is Stop,
        player.state is Paused,
    ensures
        ({
            let token = token_after(player, granted);
            turn_of(player, Event::Token(granted)) == Turn {
                player: PlayerInternal {
                    token,
                    state: PlayerState::Stopped,
                    phase: Phase::Command,
                    ..player
                },
                effects: seq![
                    EffectView::SendMeta(token_text(token)),
                    EffectView::Release(player.state->Paused_decoder),
                    EffectView::Cancel(player.state->Paused_end_of_track),
                    EffectView::Wait(CommandWait::Block),
                ],
            }
        }),
{
    lemma_token_turn(player, Event::Token(granted));
    assert(turn_of(player, Event::<D, S>::Token(granted)).effects =~= seq![
        EffectView::SendMeta(token_text(token_after(player, granted))),
        EffectView::Release(player.state->Paused_decoder),
        EffectView::Cancel(player.state->Paused_end_of_track),
        EffectView::Wait(CommandWait::Block),
    ]);
}

/// A command that finds no track of the kind it needs has the token passed on, and the player
/// goes on: to play needs a paused track, to pause a playing one, to stop and to seek either.
pub proof fn a_command_without_its_track_does_nothing<D, S>(
    player: PlayerInternal<D, S>,
    granted: Option<Token>,
)
    requires
        player.wf(),
        player.phase matches Phase::Token(command) && match command {
            PlayerCommand::Load(_, _, _, _) => false,
            PlayerCommand::Play => player.state is Stopped || player.state is Playing,
            PlayerCommand::Pause => player.state is Stopped || player.state is Paused,
            PlayerCommand::Stop => player.state is Stopped,
            PlayerCommand::Seek(_) => player.state is Stopped,
        },
    ensures
        ({
            let turn = turn_of(player, Event::Token(granted));
            let token = token_after(player, granted);
            &&& turn.player == PlayerInternal { token, phase: turn.player.phase, ..player }
            &&& goes_on(turn, seq![EffectView::SendMeta(token_text(token))])
        }),
{
    lemma_token_turn(player, Event::Token(granted));
    let turn = turn_of(player, Event::<D, S>::Token(granted));
    assert(turn.effects =~= seq![
        EffectView::SendMeta(token_text(token_after(player, granted))),
    ] + seq![turn.effects[1]]);
}

/// A command to load has others told that the player became active, stops a sink that runs, and
/// begins the load of the track with the position, the bit rate and the loudness that are asked
/// for. The old track is kept.
pub proof fn a_load_begins_as_asked_for<D, S>(
    player: PlayerInternal<D, S>,
    granted: Option<Token>,
    track_id: SpotifyId,
    play: bool,
    position: u32,
    end_of_track: S,
)
    requires
        player.wf(),
        player.phase == Phase::<D, S>::Token(
            PlayerCommand::Load(track_id, play, position, end_of_track),
        ),
    ensures
        ({
            let token = token_after(player, granted);
            let loader = TrackLoader {
                bitrate: player.config.bitrate,
                normalization: player.config.normalization,
                pregain: player.config.normalization_pregain,
                position: position as i64,
                stage: LoadStage::Lookup(Lookup::Track(track_id)),
            };
            turn_of(player, Event::Token(granted)) == Turn {
                player: PlayerInternal {
                    token,
                    sink_running: false,
                    phase: Phase::Load { loader, track_id, play, position, end_of_track },
                    ..player
                },
                effects: seq![
                    EffectView::SendMeta(token_text(token)),
                    EffectView::SendMeta("kSpPlaybackNotifyBecameActive"@),
                ] + sink_stop(player.sink_running) + seq![
                    EffectView::Load(LoadRequest::Metadata(MetadataRequest::Track(track_id))),
                ],
            }
        }),
{
    lemma_token_turn(player, Event::Token(granted));
    assert(turn_of(player, Event::<D, S>::Token(granted)).effects =~= seq![
        EffectView::SendMeta(token_text(token_after(player, granted))),
        EffectView::SendMeta("kSpPlaybackNotifyBecameActive"@),
    ] + sink_stop(player.sink_running) + seq![
        EffectView::Load(LoadRequest::Metadata(MetadataRequest::Track(track_id))),
    ]);
}

} // verus!
