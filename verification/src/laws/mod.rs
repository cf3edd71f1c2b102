//! What holds of every player, whatever happens to it.
use vstd::prelude::*;

use crate::effect::{CommandWait, EffectView};
use crate::load::{
    LoadRequest, LoadStage, TrackLoader, ALBUM_GAIN_OFFSET, ALBUM_PEAK_OFFSET, AUDIO_OFFSET,
    TRACK_GAIN_OFFSET, TRACK_PEAK_OFFSET,
};
use crate::player::{events_keep_players_sound, AfterStart, Event, Phase, PlayerInternal, Turn};
use crate::state::PlayerState;
use crate::token::Token;

pub mod commands;
pub mod loading;
pub mod packets;
pub mod programs;
pub mod signals;
pub mod sink;
pub mod waits;

verus! {

/// The turn that an event brings about.
#[verifier::opaque]
pub open spec fn turn_of<D, S>(player: PlayerInternal<D, S>, event: Event<D, S>) -> Turn<D, S> {
    Turn { player, effects: seq![] }.after(event)
}

/// Whether each event of a row is what the player is waiting for when it comes.
pub open spec fn all_answered<D, S>(
    player: PlayerInternal<D, S>,
    events: Seq<Event<D, S>>,
) -> bool
    decreases events.len(),
{
    events.len() == 0 || {
        &&& player.answered_by(events[0])
        &&& all_answered(turn_of(player, events[0]).player, events.drop_first())
    }
}

/// A player that takes an event it was waiting for is sound after the turn.
pub(crate) proof fn turns_keep_players_sound<D, S>(player: PlayerInternal<D, S>, event: Event<D, S>)
    requires
        player.wf(),
        player.answered_by(event),
    ensures
        turn_of(player, event).player.wf(),
{
    reveal(turn_of);
    events_keep_players_sound(Turn { player, effects: seq![] }, event);
}

/// A turn that has not begun.
pub open spec fn fresh<D, S>(player: PlayerInternal<D, S>) -> Turn<D, S> {
    Turn { player: PlayerInternal { phase: Phase::Done, ..player }, effects: seq![] }
}

/// The turns of a player that waits for a command.
pub(crate) proof fn lemma_command_turn<D, S>(player: PlayerInternal<D, S>, event: Event<D, S>)
    requires
        player.phase is Command,
        !(event is Command),
        !(event is Disconnected),
    ensures
        turn_of(player, event) == fresh(player).keep_playing(),
{
    reveal(turn_of);
}

/// The turns of a player that waits for a token.
pub(crate) proof fn lemma_token_turn<D, S>(player: PlayerInternal<D, S>, event: Event<D, S>)
    requires
        player.phase is Token,
    ensures
        turn_of(player, event) == fresh(player).handle_command(
            player.phase->Token_0,
            event->Token_0,
        ),
{
    reveal(turn_of);
}

/// The turns of a player that waits for a part of a load.
pub(crate) proof fn lemma_load_turn<D, S>(player: PlayerInternal<D, S>, event: Event<D, S>)
    requires
        player.phase is Load,
    ensures
        turn_of(player, event) == fresh(player).load_replied(
            player.phase->Load_loader,
            player.phase->Load_track_id,
            player.phase->Load_play,
            player.phase->Load_position,
            player.phase->Load_end_of_track,
            event->Load_0,
        ),
{
    reveal(turn_of);
}

/// The turns of a player that waits for its sink to start.
pub(crate) proof fn lemma_sink_turn<D, S>(player: PlayerInternal<D, S>, event: Event<D, S>)
    requires
        player.phase is Sink,
    ensures
        turn_of(player, event) == fresh(player).start_replied(
            player.phase->Sink_0,
            event->SinkStarted_0,
        ),
{
    reveal(turn_of);
}

/// The turns of a player that waits for an entry of the catalogue.
pub(crate) proof fn lemma_announce_turn<D, S>(player: PlayerInternal<D, S>, event: Event<D, S>)
    requires
        player.phase is Announce,
    ensures
        turn_of(player, event) == fresh(player).announce_replied(
            player.phase->Announce_lookup,
            player.phase->Announce_track_id,
            player.phase->Announce_position,
            player.phase->Announce_decoder,
            player.phase->Announce_normalization_factor,
            player.phase->Announce_end_of_track,
            event->Metadata_0,
        ),
{
    reveal(turn_of);
}

/// The turns of a player that waits for a packet.
pub(crate) proof fn lemma_packet_turn<D, S>(player: PlayerInternal<D, S>, event: Event<D, S>)
    requires
        player.phase is Packet,
    ensures
        turn_of(player, event) == fresh(player).handle_packet(
            event->Packet_0,
            player.state->Playing_normalization_factor,
        ),
{
    reveal(turn_of);
}

/// The turns of a player that waits for its sink to take a packet.
pub(crate) proof fn lemma_write_turn<D, S>(player: PlayerInternal<D, S>, event: Event<D, S>)
    requires
        player.phase is Write,
    ensures
        turn_of(player, event) == fresh(player).write_replied(event->Written_0),
{
    reveal(turn_of);
}

/// Whether an effect asks for something.
pub open spec fn asks<D, S>(effect: EffectView<D, S>) -> bool {
    match effect {
        EffectView::Wait(_) => true,
        EffectView::FetchToken(_) => true,
        EffectView::StartSink => true,
        EffectView::Load(_) => true,
        EffectView::Metadata(_) => true,
        EffectView::NextPacket => true,
        EffectView::Filter(_) => true,
        EffectView::Scale { .. } => true,
        EffectView::Write(_) => true,
        EffectView::Exit => true,
        _ => false,
    }
}

/// Whether a request is for what a load is waiting for.
pub open spec fn load_awaits(loader: TrackLoader, request: LoadRequest) -> bool {
    match loader.stage {
        LoadStage::Lookup(lookup) => request == LoadRequest::Metadata(lookup.question()),
        LoadStage::Alternatives => request is Tracks,
        LoadStage::Key(file) => request matches LoadRequest::AudioKey { file: asked, .. } && asked
            == file,
        LoadStage::File => request is AudioFile,
        LoadStage::TrackGain => request == LoadRequest::Read(TRACK_GAIN_OFFSET),
        LoadStage::TrackPeak(_) => request == LoadRequest::Read(TRACK_PEAK_OFFSET),
        LoadStage::Factor => request is Factor,
        LoadStage::AlbumGain(_) => request == LoadRequest::Read(ALBUM_GAIN_OFFSET),
        LoadStage::AlbumPeak(_) => request == LoadRequest::Read(ALBUM_PEAK_OFFSET),
        LoadStage::Decoder(_) => request == (LoadRequest::Decoder {
            offset: AUDIO_OFFSET,
            position: loader.position,
        }),
        LoadStage::Finished => false,
    }
}

/// Whether an effect asks for what the player is waiting for.
pub open spec fn awaits<D, S>(player: PlayerInternal<D, S>, effect: EffectView<D, S>) -> bool {
    match player.phase {
        Phase::Command => effect == EffectView::<D, S>::Wait(player.wait_for_command()),
        Phase::Token(_) => effect is FetchToken,
        Phase::Load { loader, .. } => effect matches EffectView::Load(request) && load_awaits(
            loader,
            request,
        ),
        Phase::Sink(_) => effect is StartSink,
        Phase::Announce { lookup, .. } => effect == EffectView::<D, S>::Metadata(lookup.question()),
        Phase::Packet => effect is NextPacket,
        Phase::Filter(_) => effect is Filter,
        Phase::Scale => effect is Scale,
        Phase::Write => effect is Write,
        Phase::Done => effect is Exit,
    }
}

/// The last effect of a turn asks for what the player then waits for, and no other effect of it
/// asks for anything.
pub proof fn turns_end_with_their_one_question<D, S>(
    player: PlayerInternal<D, S>,
    event: Event<D, S>,
)
    requires
        player.wf(),
        player.answered_by(event),
    ensures
        turn_of(player, event).effects.len() > 0,
        awaits(turn_of(player, event).player, turn_of(player, event).effects.last()),
        asks(turn_of(player, event).effects.last()),
        forall|i: int|
            0 <= i < turn_of(player, event).effects.len() - 1 ==> !asks(
                #[trigger] turn_of(player, event).effects[i],
            ),
{
    reveal(turn_of);
}

/// The settings, and whether there is a filter, never change.
pub proof fn settings_never_change<D, S>(player: PlayerInternal<D, S>, event: Event<D, S>)
    requires
        player.answered_by(event),
    ensures
        turn_of(player, event).player.config == player.config,
        turn_of(player, event).player.has_filter == player.has_filter,
{
    reveal(turn_of);
}

/// The player after a row of events.
pub open spec fn player_after<D, S>(
    player: PlayerInternal<D, S>,
    events: Seq<Event<D, S>>,
) -> PlayerInternal<D, S>
    decreases events.len(),
{
    if events.len() == 0 {
        player
    } else {
        player_after(turn_of(player, events[0]).player, events.drop_first())
    }
}

/// The effects by which a program runs, if it is set up.
pub open spec fn program_run<D, S>(program: Option<String>) -> Seq<EffectView<D, S>> {
    match program {
        Some(program) => seq![EffectView::RunProgram(program@)],
        None => seq![],
    }
}

/// The effects by which a sink stops, if it runs.
pub open spec fn sink_stop<D, S>(running: bool) -> Seq<EffectView<D, S>> {
    if running {
        seq![EffectView::StopSink, EffectView::SendMeta("kSpDeviveInactive"@)]
    } else {
        seq![]
    }
}

/// The effects that follow the start of a sink, if it did start.
pub open spec fn sink_start<D, S>(started: bool) -> Seq<EffectView<D, S>> {
    if started {
        seq![EffectView::SendMeta("kSpDeviveActive"@)]
    } else {
        seq![]
    }
}

/// The token that the player has once the service answered.
pub open spec fn token_after<D, S>(player: PlayerInternal<D, S>, granted: Option<Token>) -> Token {
    match granted {
        Some(token) => token,
        None => player.token,
    }
}

/// Whether a turn has some effects and then goes on with what there is to do: to decode the next
/// packet where a track plays on a running sink, to start the sink where one plays and the sink
/// is not running, and else to wait until a command comes.
pub open spec fn goes_on<D, S>(turn: Turn<D, S>, effects: Seq<EffectView<D, S>>) -> bool {
    let (phase, question) = if !(turn.player.state is Playing) {
        (Phase::<D, S>::Command, EffectView::<D, S>::Wait(CommandWait::Block))
    } else if turn.player.sink_running {
        (Phase::Packet, EffectView::NextPacket)
    } else {
        (Phase::Sink(AfterStart::Resume), EffectView::StartSink)
    };
    &&& turn.player.phase == phase
    &&& turn.effects == effects + seq![question]
}

/// The effects by which a track is given up, if one is loaded.
pub open spec fn track_given_up<D, S>(state: PlayerState<D, S>) -> Seq<EffectView<D, S>> {
    match state {
        PlayerState::Paused { decoder, end_of_track, .. } => seq![
            EffectView::Release(decoder),
            EffectView::Cancel(end_of_track),
        ],
        PlayerState::Playing { decoder, end_of_track, .. } => seq![
            EffectView::Release(decoder),
            EffectView::Cancel(end_of_track),
        ],
        _ => seq![],
    }
}

} // verus!
