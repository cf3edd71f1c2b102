//! How a command to load leads to a track.
use vstd::prelude::*;

use crate::effect::{CommandWait, EffectView};
use crate::laws::programs::load_fails;
use crate::laws::signals::pending_signal;
use crate::laws::{
    goes_on, lemma_announce_turn, lemma_load_turn, lemma_sink_turn, lemma_token_turn, program_run,
    sink_start, track_given_up, turn_of,
};
use crate::load::{LoadReply, LoadRequest, LoadStage, TrackLoader};
use crate::metadata::{
    metadata_text, Album, Artist, Lookup, MetadataReply, MetadataRequest, Track, TrackInfo,
};
use crate::player::{AfterStart, Event, Phase, PlayerInternal, Turn};
use crate::state::PlayerState;

verus! {

/// A load that fails is signalled as if its track had ended, and leaves the state as it was.
pub proof fn a_failed_load_changes_no_track<D, S>(
    player: PlayerInternal<D, S>,
    event: Event<D, S>,
)
    requires
        player.wf(),
        player.answered_by(event),
        load_fails(player, event),
    ensures
        turn_of(player, event).player.state == player.state,
        turn_of(player, event).effects[0] == EffectView::<D, S>::Signal(
            pending_signal(player.phase)->0,
        ),
{
    lemma_load_turn(player, event);
}

/// A command to load has others told, right after the token, that the player became active. The
/// sink falls silent, the state stays as it is, and the load begins with the track that the
/// command names.
pub proof fn a_load_begins_in_silence<D, S>(player: PlayerInternal<D, S>, event: Event<D, S>)
    requires
        player.wf(),
        player.answered_by(event),
        player.phase matches Phase::Token(command) && command is Load,
    ensures
        ({
            let turn = turn_of(player, event);
            let command = player.phase->Token_0;
            &&& turn.effects[1] == EffectView::<D, S>::SendMeta("kSpPlaybackNotifyBecameActive"@)
            &&& !turn.player.sink_running
            &&& turn.player.state == player.state
            &&& turn.player.phase == Phase::<D, S>::Load {
                loader: TrackLoader::beginning(
                    player.config,
                    command->Load_0,
                    command->Load_2 as i64,
                ),
                track_id: command->Load_0,
                play: command->Load_1,
                position: command->Load_2,
                end_of_track: command->Load_3,
            }
            &&& turn.effects.last() == EffectView::<D, S>::Load(
                LoadRequest::Metadata(MetadataRequest::Track(command->Load_0)),
            )
        }),
{
    lemma_token_turn(player, event);
}

/// While a load goes on, the player changes in nothing else, and asks for what the load needs.
pub proof fn a_load_goes_on_by_itself<D, S>(player: PlayerInternal<D, S>, reply: LoadReply<D>)
    requires
        player.answered_by(Event::Load(reply)),
        player.phase->Load_loader.after(reply).1 is Ask,
    ensures
        turn_of(player, Event::<D, S>::Load(reply)).player == (PlayerInternal {
            phase: Phase::Load {
                loader: player.phase->Load_loader.after(reply).0,
                track_id: player.phase->Load_track_id,
                play: player.phase->Load_play,
                position: player.phase->Load_position,
                end_of_track: player.phase->Load_end_of_track,
            },
            ..player
        }),
        turn_of(player, Event::<D, S>::Load(reply)).effects == seq![
            EffectView::<D, S>::Load(player.phase->Load_loader.after(reply).1->Ask_0),
        ],
{
    lemma_load_turn(player, Event::Load(reply));
}

/// A track that is loaded has the sink start where it is to play, and is paused where it is not:
/// with the decoder and the factor that were loaded, and the signal that came with the command.
pub proof fn a_loaded_track_starts_or_is_paused<D, S>(
    player: PlayerInternal<D, S>,
    reply: LoadReply<D>,
)
    requires
        player.wf(),
        player.answered_by(Event::Load(reply)),
        player.phase->Load_loader.after(reply).1 is Loaded,
    ensures
        ({
            let turn = turn_of(player, Event::<D, S>::Load(reply));
            let loaded = player.phase->Load_loader.after(reply).1;
            if player.phase->Load_play {
                &&& turn.player.state == player.state
                &&& turn.player.phase == Phase::Sink(
                    AfterStart::Load {
                        track_id: player.phase->Load_track_id,
                        position: player.phase->Load_position,
                        decoder: loaded->Loaded_decoder,
                        normalization_factor: loaded->Loaded_normalization_factor,
                        end_of_track: player.phase->Load_end_of_track,
                    },
                )
                &&& turn.effects.last() is StartSink
            } else {
                &&& turn.player.state == PlayerState::Paused {
                    decoder: loaded->Loaded_decoder,
                    normalization_factor: loaded->Loaded_normalization_factor,
                    end_of_track: player.phase->Load_end_of_track,
                }
                &&& turn.player.phase is Command
                &&& turn.effects.last() == EffectView::<D, S>::Wait(CommandWait::Block)
            }
        }),
{
    lemma_load_turn(player, Event::Load(reply));
}

/// A loaded track that is to play does so once it is looked up, with its own decoder, factor and
/// signal, whether or not the sink started; others are told of the track just before.
pub proof fn a_loaded_track_plays<D, S>(
    player: PlayerInternal<D, S>,
    started: bool,
    track: Track,
    artist: Artist,
    album: Album,
)
    requires
        player.wf(),
        player.phase matches Phase::Sink(next) && next is Load,
        track.artists@.len() > 0,
        album.covers@.len() >= 3,
    ensures
        ({
            let next = player.phase->Sink_0;
            let sink_asked = Event::<D, S>::SinkStarted(started);
            let track_found = Event::<D, S>::Metadata(MetadataReply::Track(track));
            let artist_found = Event::<D, S>::Metadata(MetadataReply::Artist(artist));
            let album_found = Event::<D, S>::Metadata(MetadataReply::Album(album));
            let first = turn_of(player, sink_asked);
            let second = turn_of(first.player, track_found);
            let third = turn_of(second.player, artist_found);
            let last = turn_of(third.player, album_found);
            &&& player.answered_by(sink_asked)
            &&& first.player.answered_by(track_found)
            &&& second.player.answered_by(artist_found)
            &&& third.player.answered_by(album_found)
            &&& last.player.state == PlayerState::Playing {
                decoder: next->Load_decoder,
                normalization_factor: next->Load_normalization_factor,
                end_of_track: next->Load_end_of_track,
            }
            &&& last.player.sink_running == started
            &&& last.effects[0] == EffectView::<D, S>::SendMeta(
                metadata_text(
                    next->Load_track_id,
                    TrackInfo { track, artist, album },
                    next->Load_position,
                ),
            )
        }),
{
    lemma_start_leads_to_lookup(player, started);
    let first = turn_of(player, Event::<D, S>::SinkStarted(started)).player;
    lemma_lookup_goes_on(first, MetadataReply::Track(track));
    let second = turn_of(first, Event::<D, S>::Metadata(MetadataReply::Track(track))).player;
    lemma_lookup_goes_on(second, MetadataReply::Artist(artist));
    let third = turn_of(second, Event::<D, S>::Metadata(MetadataReply::Artist(artist))).player;
    lemma_lookup_ends(third, album);
}

/// A sink that was asked to start for a loaded track leads to the lookup of the track.
proof fn lemma_start_leads_to_lookup<D, S>(player: PlayerInternal<D, S>, started: bool)
    requires
        player.wf(),
        player.phase matches Phase::Sink(next) && next is Load,
    ensures
        ({
            let next = player.phase->Sink_0;
            turn_of(player, Event::<D, S>::SinkStarted(started)).player == (PlayerInternal {
                sink_running: started,
                phase: Phase::Announce {
                    lookup: Lookup::Track(next->Load_track_id),
                    track_id: next->Load_track_id,
                    position: next->Load_position,
                    decoder: next->Load_decoder,
                    normalization_factor: next->Load_normalization_factor,
                    end_of_track: next->Load_end_of_track,
                },
                ..player
            })
        }),
{
    lemma_sink_turn(player, Event::SinkStarted(started));
}

/// A lookup that is not over yet changes nothing else.
proof fn lemma_lookup_goes_on<D, S>(player: PlayerInternal<D, S>, reply: MetadataReply)
    requires
        player.phase matches Phase::Announce { lookup, .. } && lookup.after(reply) is More,
    ensures
        turn_of(player, Event::<D, S>::Metadata(reply)).player == (PlayerInternal {
            phase: Phase::Announce {
                lookup: player.phase->Announce_lookup.after(reply)->More_0,
                track_id: player.phase->Announce_track_id,
                position: player.phase->Announce_position,
                decoder: player.phase->Announce_decoder,
                normalization_factor: player.phase->Announce_normalization_factor,
                end_of_track: player.phase->Announce_end_of_track,
            },
            ..player
        }),
{
    lemma_announce_turn(player, Event::Metadata(reply));
}

/// The album ends a lookup: others are told, and the track plays.
proof fn lemma_lookup_ends<D, S>(player: PlayerInternal<D, S>, album: Album)
    requires
        player.phase matches Phase::Announce { lookup, .. } && lookup is Album,
    ensures
        ({
            let turn = turn_of(player, Event::<D, S>::Metadata(MetadataReply::Album(album)));
            let lookup = player.phase->Announce_lookup;
            &&& turn.player.state == PlayerState::Playing {
                decoder: player.phase->Announce_decoder,
                normalization_factor: player.phase->Announce_normalization_factor,
                end_of_track: player.phase->Announce_end_of_track,
            }
            &&& turn.player.sink_running == player.sink_running
            &&& turn.effects[0] == EffectView::<D, S>::SendMeta(
                metadata_text(
                    player.phase->Announce_track_id,
                    TrackInfo { track: lookup->Album_0, artist: lookup->Album_1, album },
                    player.phase->Announce_position,
                ),
            )
        }),
{
    lemma_announce_turn(player, Event::Metadata(MetadataReply::Album(album)));
}

/// A decoder ends a load. A track that is to play has the program for the start run, unless one
/// played before, and the sink is asked to start; the old track is kept until then.
pub proof fn a_loaded_track_has_the_sink_start<D, S>(
    player: PlayerInternal<D, S>,
    factor: u32,
    decoder: D,
)
    requires
        player.wf(),
        player.phase matches Phase::Load { loader, play, .. } && play && loader.stage
            == LoadStage::Decoder(factor),
    ensures
        turn_of(player, Event::Load(LoadReply::Decoder(decoder))) == (Turn {
            player: PlayerInternal {
                phase: Phase::Sink(
                    AfterStart::Load {
                        track_id: player.phase->Load_track_id,
                        position: player.phase->Load_position,
                        decoder,
                        normalization_factor: factor,
                        end_of_track: player.phase->Load_end_of_track,
                    },
                ),
                ..player
            },
            effects: (if player.state is Playing {
                seq![]
            } else {
                program_run(player.config.onstart)
            }) + seq![EffectView::StartSink],
        }),
{
    lemma_load_turn(player, Event::Load(LoadReply::Decoder(decoder)));
    assert(turn_of(player, Event::<D, S>::Load(LoadReply::Decoder(decoder))).effects =~= (
    if player.state is Playing {
        seq![]
    } else {
        program_run(player.config.onstart)
    }) + seq![EffectView::StartSink]);
}

/// A track that is not to play is paused: the program for the end runs if one played before, the
/// old track is given up, and the player waits until a command comes.
pub proof fn a_loaded_track_is_paused<D, S>(
    player: PlayerInternal<D, S>,
    factor: u32,
    decoder: D,
)
    requires
        player.wf(),
        player.phase matches Phase::Load { loader, play, .. } && !play && loader.stage
            == LoadStage::Decoder(factor),
    ensures
        turn_of(player, Event::Load(LoadReply::Decoder(decoder))) == (Turn {
            player: PlayerInternal {
                state: PlayerState::Paused {
                    decoder,
                    normalization_factor: factor,
                    end_of_track: player.phase->Load_end_of_track,
                },
                phase: Phase::Command,
                ..player
            },
            effects: (if player.state is Playing {
                program_run(player.config.onstop)
            } else {
                seq![]
            }) + track_given_up(player.state) + seq![EffectView::Wait(CommandWait::Block)],
        }),
{
    lemma_load_turn(player, Event::Load(LoadReply::Decoder(decoder)));
    assert(turn_of(player, Event::<D, S>::Load(LoadReply::Decoder(decoder))).effects =~= (
    if player.state is Playing {
        program_run(player.config.onstop)
    } else {
        seq![]
    }) + track_given_up(player.state) + seq![EffectView::Wait(CommandWait::Block)]);
}

/// A load that fails has its end signalled at once, and the program for the end run if a track
/// plays. That track, or the lack of one, stays, and the player goes on.
pub proof fn a_failed_load_is_signalled_at_once<D, S>(
    player: PlayerInternal<D, S>,
    event: Event<D, S>,
)
    requires
        player.wf(),
        player.answered_by(event),
        load_fails(player, event),
    ensures
        ({
            let turn = turn_of(player, event);
            &&& turn.player == PlayerInternal { phase: turn.player.phase, ..player }
            &&& goes_on(
                turn,
                seq![EffectView::Signal(player.phase->Load_end_of_track)] + (
                if player.state is Playing {
                    program_run(player.config.onstop)
                } else {
                    seq![]
                }),
            )
        }),
{
    lemma_load_turn(player, event);
    let turn = turn_of(player, event);
    assert(turn.effects =~= seq![EffectView::Signal(player.phase->Load_end_of_track)] + (
    if player.state is Playing {
        program_run(player.config.onstop)
    } else {
        seq![]
    }) + seq![turn.effects.last()]);
}

/// A loaded track is announced by its own id: once the sink was asked to start, and whether or
/// not it did, the catalogue is asked for the track.
pub proof fn a_loaded_track_is_looked_up<D, S>(player: PlayerInternal<D, S>, started: bool)
    requires
        player.wf(),
        player.phase matches Phase::Sink(next) && next is Load,
    ensures
        ({
            let next = player.phase->Sink_0;
            turn_of(player, Event::SinkStarted(started)) == Turn {
                player: PlayerInternal {
                    sink_running: started,
                    phase: Phase::Announce {
                        lookup: Lookup::Track(next->Load_track_id),
                        track_id: next->Load_track_id,
                        position: next->Load_position,
                        decoder: next->Load_decoder,
                        normalization_factor: next->Load_normalization_factor,
                        end_of_track: next->Load_end_of_track,
                    },
                    ..player
                },
                effects: sink_start(started) + seq![
                    EffectView::Metadata(MetadataRequest::Track(next->Load_track_id)),
                ],
            }
        }),
{
    lemma_sink_turn(player, Event::SinkStarted(started));
    assert(turn_of(player, Event::<D, S>::SinkStarted(started)).effects =~= sink_start(started)
        + seq![
        EffectView::Metadata(MetadataRequest::Track(player.phase->Sink_0->Load_track_id)),
    ]);
}

/// The player with a track to announce that is looked up further.
pub open spec fn looking_up<D, S>(
    player: PlayerInternal<D, S>,
    lookup: Lookup,
) -> PlayerInternal<D, S> {
    PlayerInternal {
        phase: Phase::Announce {
            lookup,
            track_id: player.phase->Announce_track_id,
            position: player.phase->Announce_position,
            decoder: player.phase->Announce_decoder,
            normalization_factor: player.phase->Announce_normalization_factor,
            end_of_track: player.phase->Announce_end_of_track,
        },
        ..player
    }
}

/// A track to announce leads to its first artist.
pub proof fn the_first_artist_is_looked_up<D, S>(player: PlayerInternal<D, S>, track: Track)
    requires
        player.phase matches Phase::Announce { lookup, .. } && lookup is Track,
        track.artists@.len() > 0,
    ensures
        turn_of(player, Event::Metadata(MetadataReply::Track(track))) == (Turn {
            player: looking_up(player, Lookup::Artist(track)),
            effects: seq![EffectView::Metadata(MetadataRequest::Artist(track.artists@[0]))],
        }),
{
    lemma_announce_turn(player, Event::Metadata(MetadataReply::Track(track)));
    assert(turn_of(player, Event::<D, S>::Metadata(MetadataReply::Track(track))).effects =~= seq![
        EffectView::Metadata(MetadataRequest::Artist(track.artists@[0])),
    ]);
}

/// An artist leads to the album of the track.
pub proof fn the_album_is_looked_up<D, S>(
    player: PlayerInternal<D, S>,
    track: Track,
    artist: Artist,
)
    requires
        player.phase matches Phase::Announce { lookup, .. } && lookup == Lookup::Artist(track),
    ensures
        turn_of(player, Event::Metadata(MetadataReply::Artist(artist))) == (Turn {
            player: looking_up(player, Lookup::Album(track, artist)),
            effects: seq![EffectView::Metadata(MetadataRequest::Album(track.album))],
        }),
{
    lemma_announce_turn(player, Event::Metadata(MetadataReply::Artist(artist)));
    assert(turn_of(player, Event::<D, S>::Metadata(MetadataReply::Artist(artist))).effects =~= seq![
        EffectView::Metadata(MetadataRequest::Album(track.album)),
    ]);
}

/// An album has the track announced, the old one given up, and the new one play with what was
/// loaded for it.
pub proof fn an_announced_track_plays<D, S>(
    player: PlayerInternal<D, S>,
    track: Track,
    artist: Artist,
    album: Album,
)
    requires
        player.wf(),
        player.phase matches Phase::Announce { lookup, .. } && lookup == Lookup::Album(
            track,
            artist,
        ),
        album.covers@.len() >= 3,
    ensures
        ({
            let turn = turn_of(player, Event::Metadata(MetadataReply::Album(album)));
            &&& turn.player == PlayerInternal {
                state: PlayerState::Playing {
                    decoder: player.phase->Announce_decoder,
                    normalization_factor: player.phase->Announce_normalization_factor,
                    end_of_track: player.phase->Announce_end_of_track,
                },
                phase: turn.player.phase,
                ..player
            }
            &&& goes_on(
                turn,
                seq![
                    EffectView::SendMeta(
                        metadata_text(
                            player.phase->Announce_track_id,
                            TrackInfo { track, artist, album },
                            player.phase->Announce_position,
                        ),
                    ),
                ] + track_given_up(player.state),
            )
        }),
{
    lemma_announce_turn(player, Event::Metadata(MetadataReply::Album(album)));
    let turn = turn_of(player, Event::<D, S>::Metadata(MetadataReply::Album(album)));
    assert(turn.effects =~= seq![
        EffectView::SendMeta(
            metadata_text(
                player.phase->Announce_track_id,
                TrackInfo { track, artist, album },
                player.phase->Announce_position,
            ),
        ),
    ] + track_given_up(player.state) + seq![turn.effects.last()]);
}

} // verus!
