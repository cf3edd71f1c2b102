//! The player: a machine that takes one event at a time and answers with what is to be done.
//!
//! What has to happen outside (to a sink, a decoder, the service) is listed as effects, to be
//! carried out in order. The last effect of a turn asks for something, and the answer to it is
//! the next event.
use vstd::prelude::*;

use crate::command::PlayerCommand;
use crate::config::PlayerConfig;
use crate::effect::{emit, trace, traces_keep_their_order, CommandWait, Effect, EffectView};
use crate::load::{LoadProgress, LoadReply, LoadRequest, TrackLoader, UNITY};
use crate::metadata::{
    metadata_text, track_id_to_json, Lookup, LookupProgress, MetadataReply, MetadataRequest,
    SpotifyId,
};
use crate::state::PlayerState;
use crate::token::{token_text, Token};

verus! {

/// For how many seconds a player waits for a command whose sink would not start.
pub const RETRY_SECONDS: u64 = 5;

/// Something that happened, in answer to an effect.
pub enum Event<D, S> {
    /// A command came.
    Command(PlayerCommand<S>),
    /// None came in time.
    NoCommand,
    /// No command will come any more.
    Disconnected,
    /// The service granted a token, or did not.
    Token(Option<Token>),
    /// Here is what the load needs.
    Load(LoadReply<D>),
    /// Here is the entry of the catalogue.
    Metadata(MetadataReply),
    /// The sink started, or did not.
    SinkStarted(bool),
    /// Here is the next packet, or the track is at its end.
    Packet(Option<Vec<i16>>),
    /// Here is the packet as it came out of the filter.
    Filtered(Vec<i16>),
    /// Here is the packet, multiplied.
    Scaled(Vec<i16>),
    /// The sink took the packet, or did not.
    Written(bool),
}

/// What is to be done once the sink was asked to start.
pub enum AfterStart<D, S> {
    /// A loaded track is announced and played.
    Load {
        track_id: SpotifyId,
        position: u32,
        decoder: D,
        normalization_factor: u32,
        end_of_track: S,
    },
    /// A command to play is done with.
    Play,
    /// The track goes on whose sink was not running.
    Resume,
}

/// What the player is waiting for.
pub enum Phase<D, S> {
    /// A command.
    Command,
    /// A token, with which the command is to be carried out.
    Token(PlayerCommand<S>),
    /// A part of a track that is being loaded.
    Load { loader: TrackLoader, track_id: SpotifyId, play: bool, position: u32, end_of_track: S },
    /// The sink.
    Sink(AfterStart<D, S>),
    /// An entry of the catalogue on a loaded track, to be announced.
    Announce {
        lookup: Lookup,
        track_id: SpotifyId,
        position: u32,
        decoder: D,
        normalization_factor: u32,
        end_of_track: S,
    },
    /// A packet of the track that is playing.
    Packet,
    /// The filter, to give back a packet of a track with that factor.
    Filter(u32),
    /// A packet, to be multiplied.
    Scale,
    /// The sink, to take a packet.
    Write,
    /// Nothing: the player is at its end.
    Done,
}

/// The player.
pub struct PlayerInternal<D, S> {
    pub config: PlayerConfig,
    /// Whether packets go through a filter.
    pub has_filter: bool,
    pub state: PlayerState<D, S>,
    pub sink_running: bool,
    pub token: Token,
    pub phase: Phase<D, S>,
}

/// A player, and what it asked to be done so far.
pub ghost struct Turn<D, S> {
    pub player: PlayerInternal<D, S>,
    pub effects: Seq<EffectView<D, S>>,
}

/// The steps of a turn.
impl<D, S> Turn<D, S> {
    /// One more effect.
    pub open spec fn emit(self, effect: EffectView<D, S>) -> Turn<D, S> {
        Turn { effects: self.effects.push(effect), ..self }
    }

    /// The player waits for something else.
    pub open spec fn at(self, phase: Phase<D, S>) -> Turn<D, S> {
        Turn { player: PlayerInternal { phase, ..self.player }, ..self }
    }

    /// The player is in another state.
    pub open spec fn to(self, state: PlayerState<D, S>) -> Turn<D, S> {
        Turn { player: PlayerInternal { state, ..self.player }, ..self }
    }

    /// The player is in another state, and lets go of what it had loaded.
    pub open spec fn replace(self, state: PlayerState<D, S>) -> Turn<D, S> {
        Turn { effects: self.player.state.discarded(self.effects), ..self }.to(state)
    }

    /// The program for the start of playing runs, if there is one.
    pub open spec fn run_onstart(self) -> Turn<D, S> {
        match self.player.config.onstart {
            Some(program) => self.emit(EffectView::RunProgram(program@)),
            None => self,
        }
    }

    /// The program for the end of playing runs, if there is one.
    pub open spec fn run_onstop(self) -> Turn<D, S> {
        match self.player.config.onstop {
            Some(program) => self.emit(EffectView::RunProgram(program@)),
            None => self,
        }
    }

    /// The sink is asked to start.
    pub open spec fn start_sink(self, next: AfterStart<D, S>) -> Turn<D, S> {
        self.at(Phase::Sink(next)).emit(EffectView::StartSink)
    }

    /// The sink started, which others are told, or it did not.
    pub open spec fn sink_started(self, started: bool) -> Turn<D, S> {
        if started {
            Turn { player: PlayerInternal { sink_running: true, ..self.player }, ..self }.emit(
                EffectView::SendMeta("kSpDeviveActive"@),
            )
        } else {
            self
        }
    }

    /// The sink stops, which others are told.
    pub open spec fn stop_sink(self) -> Turn<D, S> {
        Turn { player: PlayerInternal { sink_running: false, ..self.player }, ..self }.emit(
            EffectView::StopSink,
        ).emit(EffectView::SendMeta("kSpDeviveInactive"@))
    }

    /// The sink stops if it is running.
    pub open spec fn stop_sink_if_running(self) -> Turn<D, S> {
        if self.player.sink_running {
            self.stop_sink()
        } else {
            self
        }
    }

    /// The next command is waited for: not at all while a track plays, for some seconds while
    /// one is to play but the sink would not start, else until one comes.
    pub open spec fn await_command(self) -> Turn<D, S> {
        self.at(Phase::Command).emit(EffectView::Wait(self.player.wait_for_command()))
    }

    /// The next packet is decoded where a track plays, else a command is waited for.
    pub open spec fn feed_sink(self) -> Turn<D, S> {
        if self.player.sink_running && self.player.state is Playing {
            self.at(Phase::Packet).emit(EffectView::NextPacket)
        } else {
            self.await_command()
        }
    }

    /// A track that is to play has the sink start first where it is not running.
    pub open spec fn keep_playing(self) -> Turn<D, S> {
        if self.player.state is Playing && !self.player.sink_running {
            self.start_sink(AfterStart::Resume)
        } else {
            self.feed_sink()
        }
    }

    /// A command is carried out once the service answered for the token: a new token takes the
    /// place of the old one, and others are told the token before anything else. A command that
    /// the state has no use for does nothing more.
    pub open spec fn handle_command(self, command: PlayerCommand<S>, token: Option<Token>) -> Turn<
        D,
        S,
    > {
        let player = match token {
            Some(token) => PlayerInternal { token, ..self.player },
            None => self.player,
        };
        let turn = Turn { player, ..self }.emit(EffectView::SendMeta(token_text(player.token)));
        match command {
            PlayerCommand::Load(track_id, play, position, end_of_track) => turn.load(
                track_id,
                play,
                position,
                end_of_track,
            ),
            PlayerCommand::Seek(position) => if player.state is Stopped {
                turn.keep_playing()
            } else {
                turn.emit(EffectView::Seek(position as i64)).keep_playing()
            },
            PlayerCommand::Play => if player.state is Paused {
                turn.to(player.state.resumed()).run_onstart().start_sink(AfterStart::Play)
            } else {
                turn.keep_playing()
            },
            PlayerCommand::Pause => if player.state is Playing {
                turn.to(
                    player.state.suspended(),
                ).stop_sink_if_running().run_onstop().keep_playing()
            } else {
                turn.keep_playing()
            },
            PlayerCommand::Stop => match player.state {
                PlayerState::Playing { .. } => turn.stop_sink_if_running().run_onstop().replace(
                    PlayerState::Stopped,
                ).keep_playing(),
                PlayerState::Paused { .. } => turn.replace(PlayerState::Stopped).keep_playing(),
                _ => turn.keep_playing(),
            },
        }
    }

    /// A track is to be loaded: others are told that the player became active, a playing track
    /// falls silent, and the load begins.
    pub open spec fn load(
        self,
        track_id: SpotifyId,
        play: bool,
        position: u32,
        end_of_track: S,
    ) -> Turn<D, S> {
        let told = self.emit(EffectView::SendMeta("kSpPlaybackNotifyBecameActive"@));
        let silent = if self.player.state is Playing {
            told.stop_sink_if_running()
        } else {
            told
        };
        let loader = TrackLoader::beginning(self.player.config, track_id, position as i64);
        silent.at(Phase::Load { loader, track_id, play, position, end_of_track }).emit(
            EffectView::Load(LoadRequest::Metadata(MetadataRequest::Track(track_id))),
        )
    }

    /// A load goes on, or it is over. A loaded track that is to play has the sink start; one
    /// that is not is paused. Where nothing could be loaded, its end is signalled at once and
    /// the state stays as it was.
    pub open spec fn load_replied(
        self,
        loader: TrackLoader,
        track_id: SpotifyId,
        play: bool,
        position: u32,
        end_of_track: S,
        reply: LoadReply<D>,
    ) -> Turn<D, S> {
        let (loader, progress) = loader.after(reply);
        let was_playing = self.player.state is Playing;
        match progress {
            LoadProgress::Ask(request) => self.at(
                Phase::Load { loader, track_id, play, position, end_of_track },
            ).emit(EffectView::Load(request)),
            LoadProgress::Loaded { decoder, normalization_factor } => if play {
                let begun = if was_playing {
                    self
                } else {
                    self.run_onstart()
                };
                begun.start_sink(
                    AfterStart::Load {
                        track_id,
                        position,
                        decoder,
                        normalization_factor,
                        end_of_track,
                    },
                )
            } else {
                let ended = if was_playing {
                    self.run_onstop()
                } else {
                    self
                };
                ended.replace(
                    PlayerState::Paused { decoder, normalization_factor, end_of_track },
                ).keep_playing()
            },
            LoadProgress::Unavailable => {
                let signalled = self.emit(EffectView::Signal(end_of_track));
                let ended = if was_playing {
                    signalled.run_onstop()
                } else {
                    signalled
                };
                ended.keep_playing()
            },
        }
    }

    /// The player goes on once the sink was asked to start.
    pub open spec fn start_replied(self, next: AfterStart<D, S>, started: bool) -> Turn<D, S> {
        let turn = self.sink_started(started);
        match next {
            AfterStart::Load { track_id, position, decoder, normalization_factor, end_of_track } =>
                turn.at(
                    Phase::Announce {
                        lookup: Lookup::Track(track_id),
                        track_id,
                        position,
                        decoder,
                        normalization_factor,
                        end_of_track,
                    },
                ).emit(EffectView::Metadata(MetadataRequest::Track(track_id))),
            AfterStart::Play => turn.keep_playing(),
            AfterStart::Resume => turn.feed_sink(),
        }
    }

    /// A loaded track is looked up further, or others are told of it and it plays.
    pub open spec fn announce_replied(
        self,
        lookup: Lookup,
        track_id: SpotifyId,
        position: u32,
        decoder: D,
        normalization_factor: u32,
        end_of_track: S,
        reply: MetadataReply,
    ) -> Turn<D, S> {
        match lookup.after(reply) {
            LookupProgress::More(lookup) => self.at(
                Phase::Announce {
                    lookup,
                    track_id,
                    position,
                    decoder,
                    normalization_factor,
                    end_of_track,
                },
            ).emit(EffectView::Metadata(lookup.question())),
            LookupProgress::Found(info) => self.emit(
                EffectView::SendMeta(metadata_text(track_id, info, position)),
            ).replace(
                PlayerState::Playing { decoder, normalization_factor, end_of_track },
            ).keep_playing(),
        }
    }

    /// A packet goes through the filter where there is one, then on to the sink. At the end of
    /// the track the sink stops, the state is stopped, the end is signalled, and the decoder is
    /// let go of.
    pub open spec fn handle_packet(self, packet: Option<Vec<i16>>, factor: u32) -> Turn<D, S> {
        match packet {
            Some(packet) => if self.player.has_filter {
                self.at(Phase::Filter(factor)).emit(EffectView::Filter(packet))
            } else {
                self.filtered(packet, factor)
            },
            None => {
                let silent = self.stop_sink().run_onstop();
                Turn { effects: self.player.state.ended(silent.effects), ..silent }.to(
                    PlayerState::Stopped,
                ).await_command()
            },
        }
    }

    /// A packet that is past the filter is multiplied by the track's factor where loudness is
    /// evened out and the factor is not one. Then it goes to the sink.
    pub open spec fn filtered(self, packet: Vec<i16>, factor: u32) -> Turn<D, S> {
        if self.player.config.normalization && factor != UNITY {
            self.at(Phase::Scale).emit(EffectView::Scale { packet, factor })
        } else {
            self.write(packet)
        }
    }

    /// A packet goes to the sink.
    pub open spec fn write(self, packet: Vec<i16>) -> Turn<D, S> {
        self.at(Phase::Write).emit(EffectView::Write(packet))
    }

    /// A sink that did not take a packet stops. Then a command is looked for.
    pub open spec fn write_replied(self, written: bool) -> Turn<D, S> {
        if written {
            self.await_command()
        } else {
            self.stop_sink().await_command()
        }
    }

    /// The turn that an event brings about.
    pub open spec fn after(self, event: Event<D, S>) -> Turn<D, S>
        recommends
            self.player.answered_by(event),
    {
        // While an event is taken, nothing is waited for.
        let turn = self.at(Phase::Done);
        match self.player.phase {
            Phase::Command => match event {
                Event::Command(command) => turn.at(Phase::Token(command)).emit(
                    EffectView::FetchToken(
                        "streaming,user-read-playback-state,user-modify-playback-state,user-read-currently-playing,user-read-private"@,
                    ),
                ),
                Event::Disconnected => turn.emit(EffectView::Exit),
                _ => turn.keep_playing(),
            },
            Phase::Token(command) => turn.handle_command(command, event->Token_0),
            Phase::Load { loader, track_id, play, position, end_of_track } => turn.load_replied(
                loader,
                track_id,
                play,
                position,
                end_of_track,
                event->Load_0,
            ),
            Phase::Sink(next) => turn.start_replied(next, event->SinkStarted_0),
            Phase::Announce {
                lookup,
                track_id,
                position,
                decoder,
                normalization_factor,
                end_of_track,
            } => turn.announce_replied(
                lookup,
                track_id,
                position,
                decoder,
                normalization_factor,
                end_of_track,
                event->Metadata_0,
            ),
            Phase::Packet => turn.handle_packet(
                event->Packet_0,
                self.player.state->Playing_normalization_factor,
            ),
            Phase::Filter(factor) => turn.filtered(event->Filtered_0, factor),
            Phase::Scale => turn.write(event->Scaled_0),
            Phase::Write => turn.write_replied(event->Written_0),
            Phase::Done => turn,
        }
    }
}

/// A player that takes an event it was waiting for is again as it should be between two events.
pub proof fn events_keep_players_sound<D, S>(turn: Turn<D, S>, event: Event<D, S>)
    requires
        turn.player.wf(),
        turn.player.answered_by(event),
    ensures
        turn.after(event).player.wf(),
{
}

impl<D, S> PlayerInternal<D, S> {
    /// The player, with what it asked to be done so far.
    pub open spec fn turn(self, effects: Seq<Effect<D, S>>) -> Turn<D, S> {
        Turn { player: self, effects: trace(effects) }
    }

    /// How the player waits for a command.
    pub open spec fn wait_for_command(self) -> CommandWait {
        if !(self.state is Playing) {
            CommandWait::Block
        } else if self.sink_running {
            CommandWait::Poll
        } else {
            CommandWait::Timeout(RETRY_SECONDS)
        }
    }

    /// The player as it is between two events. The sink runs only while a track plays, or while
    /// one is announced that is about to.
    pub open spec fn wf(self) -> bool {
        &&& !(self.state is Invalid)
        &&& match self.phase {
            Phase::Command => self.sink_running ==> self.state is Playing,
            Phase::Token(_) => self.sink_running ==> self.state is Playing,
            Phase::Load { loader, .. } => !self.sink_running && loader.wf(),
            Phase::Sink(AfterStart::Load { .. }) => !self.sink_running,
            Phase::Sink(_) => !self.sink_running && self.state is Playing,
            Phase::Announce { lookup, .. } => lookup.wf(),
            Phase::Packet => self.sink_running && self.state is Playing,
            Phase::Filter(_) => self.sink_running && self.state is Playing,
            Phase::Scale => self.sink_running && self.state is Playing,
            Phase::Write => self.sink_running && self.state is Playing,
            Phase::Done => self.sink_running ==> self.state is Playing,
        }
    }

    /// Whether an event is what the player is waiting for. An album of which others are to be
    /// told has three covers.
    pub open spec fn answered_by(self, event: Event<D, S>) -> bool {
        match self.phase {
            Phase::Command => match event {
                Event::Command(_) => true,
                Event::Disconnected => true,
                Event::NoCommand => self.state is Playing,
                _ => false,
            },
            Phase::Token(_) => event is Token,
            Phase::Load { loader, .. } => event matches Event::Load(reply) && loader.answered_by(
                reply,
            ),
            Phase::Sink(_) => event is SinkStarted,
            Phase::Announce { lookup, .. } => event matches Event::Metadata(reply)
                && lookup.answered_by(reply) && (reply matches MetadataReply::Album(album)
                ==> album.covers@.len() >= 3),
            Phase::Packet => event is Packet,
            Phase::Filter(_) => event is Filtered,
            Phase::Scale => event is Scaled,
            Phase::Write => event is Written,
            Phase::Done => false,
        }
    }

    /// A player that does nothing yet, with a blank token and a sink that is not running.
    pub fn new(config: PlayerConfig, has_filter: bool) -> (player: PlayerInternal<D, S>)
        ensures
            player.config == config,
            player.has_filter == has_filter,
            player.state is Stopped,
            !player.sink_running,
            player.token.is_blank(),
            player.phase is Command,
            player.wf(),
    {
        PlayerInternal {
            config,
            has_filter,
            state: PlayerState::Stopped,
            sink_running: false,
            token: Token::blank(),
            phase: Phase::Command,
        }
    }

    /// How to wait for a command.
    pub fn command_wait(&self) -> (wait: CommandWait)
        requires
            !(self.state is Invalid),
        ensures
            wait == self.wait_for_command(),
            self.state is Playing && self.sink_running ==> wait == CommandWait::Poll,
            self.state is Playing && !self.sink_running ==> wait == CommandWait::Timeout(5),
            !(self.state is Playing) ==> wait == CommandWait::Block,
    {
        if self.state.is_playing() {
            if self.sink_running {
                CommandWait::Poll
            } else {
                CommandWait::Timeout(RETRY_SECONDS)
            }
        } else {
            CommandWait::Block
        }
    }

    /// Whether an event can be taken.
    pub fn accepts(&self, event: &Event<D, S>) -> (accepted: bool)
        requires
            !(self.state is Invalid),
        ensures
            accepted == self.answered_by(*event),
    {
        match (&self.phase, event) {
            (Phase::Command, Event::Command(_)) => true,
            (Phase::Command, Event::Disconnected) => true,
            (Phase::Command, Event::NoCommand) => self.state.is_playing(),
            (Phase::Token(_), Event::Token(_)) => true,
            (Phase::Load { loader, .. }, Event::Load(reply)) => loader.accepts(reply),
            (Phase::Sink(_), Event::SinkStarted(_)) => true,
            (Phase::Announce { lookup, .. }, Event::Metadata(reply)) => lookup.accepts(reply)
                && match reply {
                MetadataReply::Album(album) => album.covers.len() >= 3,
                _ => true,
            },
            (Phase::Packet, Event::Packet(_)) => true,
            (Phase::Filter(_), Event::Filtered(_)) => true,
            (Phase::Scale, Event::Scaled(_)) => true,
            (Phase::Write, Event::Written(_)) => true,
            _ => false,
        }
    }

    /// Has the program for the start of playing run, if there is one.
    fn run_onstart(&self, effects: &mut Vec<Effect<D, S>>)
        ensures
            self.turn(final(effects)@) == self.turn(old(effects)@).run_onstart(),
    {
        if let Some(program) = &self.config.onstart {
            emit(effects, Effect::RunProgram(program.clone()));
        }
    }

    /// Has the program for the end of playing run, if there is one.
    fn run_onstop(&self, effects: &mut Vec<Effect<D, S>>)
        ensures
            self.turn(final(effects)@) == self.turn(old(effects)@).run_onstop(),
    {
        if let Some(program) = &self.config.onstop {
            emit(effects, Effect::RunProgram(program.clone()));
        }
    }

    /// Goes over to another state, and lets go of what was loaded.
    fn replace_state(&mut self, state: PlayerState<D, S>, effects: &mut Vec<Effect<D, S>>)
        requires
            !(old(self).state is Invalid),
        ensures
            final(self).turn(final(effects)@) == old(self).turn(old(effects)@).replace(state),
    {
        let mut state = state;
        std::mem::swap(&mut state, &mut self.state);
        state.discard(effects);
    }

    /// Has a message sent.
    fn snd_meta(&self, text: String, effects: &mut Vec<Effect<D, S>>)
        ensures
            self.turn(final(effects)@) == self.turn(old(effects)@).emit(
                EffectView::SendMeta(text@),
            ),
    {
        emit(effects, Effect::SendMeta(text));
    }

    /// Has the sink started.
    fn start_sink(&mut self, next: AfterStart<D, S>, effects: &mut Vec<Effect<D, S>>)
        ensures
            final(self).turn(final(effects)@) == old(self).turn(old(effects)@).start_sink(next),
    {
        self.phase = Phase::Sink(next);
        emit(effects, Effect::StartSink);
    }

    /// Notes whether the sink started.
    fn sink_started(&mut self, started: bool, effects: &mut Vec<Effect<D, S>>)
        ensures
            final(self).turn(final(effects)@) == old(self).turn(old(effects)@).sink_started(
                started,
            ),
    {
        if started {
            self.sink_running = true;
            self.snd_meta("kSpDeviveActive".to_owned(), effects);
        }
    }

    /// Has the sink stopped if it is running.
    fn stop_sink_if_running(&mut self, effects: &mut Vec<Effect<D, S>>)
        ensures
            final(self).turn(final(effects)@) == old(self).turn(
                old(effects)@,
            ).stop_sink_if_running(),
    {
        if self.sink_running {
            self.stop_sink(effects);
        }
    }

    /// Has the sink stopped.
    fn stop_sink(&mut self, effects: &mut Vec<Effect<D, S>>)
        ensures
            final(self).turn(final(effects)@) == old(self).turn(old(effects)@).stop_sink(),
    {
        emit(effects, Effect::StopSink);
        self.snd_meta("kSpDeviveInactive".to_owned(), effects);
        self.sink_running = false;
    }

    /// Has a command waited for.
    fn await_command(&mut self, effects: &mut Vec<Effect<D, S>>)
        requires
            !(old(self).state is Invalid),
        ensures
            final(self).turn(final(effects)@) == old(self).turn(old(effects)@).await_command(),
    {
        emit(effects, Effect::Wait(self.command_wait()));
        self.phase = Phase::Command;
    }

    /// Has the next packet decoded where a track plays, else a command waited for.
    fn feed_sink(&mut self, effects: &mut Vec<Effect<D, S>>)
        requires
            !(old(self).state is Invalid),
        ensures
            final(self).turn(final(effects)@) == old(self).turn(old(effects)@).feed_sink(),
    {
        if self.sink_running && self.state.is_playing() {
            self.phase = Phase::Packet;
            emit(effects, Effect::NextPacket);
        } else {
            self.await_command(effects);
        }
    }

    /// Goes on after a command, or where none came.
    fn keep_playing(&mut self, effects: &mut Vec<Effect<D, S>>)
        requires
            !(old(self).state is Invalid),
        ensures
            final(self).turn(final(effects)@) == old(self).turn(old(effects)@).keep_playing(),
    {
        if self.state.is_playing() && !self.sink_running {
            self.start_sink(AfterStart::Resume, effects);
        } else {
            self.feed_sink(effects);
        }
    }

    /// Carries out a command once the service answered for the token.
    fn handle_command(
        &mut self,
        command: PlayerCommand<S>,
        token: Option<Token>,
        effects: &mut Vec<Effect<D, S>>,
    )
        requires
            !(old(self).state is Invalid),
        ensures
            final(self).turn(final(effects)@) == old(self).turn(old(effects)@).handle_command(
                command,
                token,
            ),
    {
        if let Some(token) = token {
            self.token = token;
        }
        self.snd_meta(self.token.to_json(), effects);
        match command {
            PlayerCommand::Load(track_id, play, position, end_of_track) => {
                // Others learn that this device is the active one.
                self.snd_meta("kSpPlaybackNotifyBecameActive".to_owned(), effects);
                if self.state.is_playing() {
                    self.stop_sink_if_running(effects);
                }
                self.load_track(track_id, play, position, end_of_track, effects);
            },
            PlayerCommand::Seek(position) => {
                if self.state.decoder().is_some() {
                    emit(effects, Effect::Seek(position as i64));
                }
                self.keep_playing(effects);
            },
            PlayerCommand::Play => {
                if let PlayerState::Paused { .. } = self.state {
                    self.state.paused_to_playing();
                    self.run_onstart(effects);
                    self.start_sink(AfterStart::Play, effects);
                } else {
                    self.keep_playing(effects);
                }
            },
            PlayerCommand::Pause => {
                if let PlayerState::Playing { .. } = self.state {
                    self.state.playing_to_paused();
                    self.stop_sink_if_running(effects);
                    self.run_onstop(effects);
                }
                self.keep_playing(effects);
            },
            PlayerCommand::Stop => {
                match self.state {
                    PlayerState::Playing { .. } => {
                        self.stop_sink_if_running(effects);
                        self.run_onstop(effects);
                        self.replace_state(PlayerState::Stopped, effects);
                    },
                    PlayerState::Paused { .. } => {
                        self.replace_state(PlayerState::Stopped, effects);
                    },
                    _ => {},
                }
                self.keep_playing(effects);
            },
        }
    }

    /// Begins to load a track.
    fn load_track(
        &mut self,
        track_id: SpotifyId,
        play: bool,
        position: u32,
        end_of_track: S,
        effects: &mut Vec<Effect<D, S>>,
    )
        ensures
            final(self).turn(final(effects)@) == old(self).turn(old(effects)@).at(
                Phase::Load {
                    loader: TrackLoader::beginning(old(self).config, track_id, position as i64),
                    track_id,
                    play,
                    position,
                    end_of_track,
                },
            ).emit(EffectView::Load(LoadRequest::Metadata(MetadataRequest::Track(track_id)))),
    {
        let (loader, request) = TrackLoader::new(&self.config, track_id, position as i64);
        self.phase = Phase::Load { loader, track_id, play, position, end_of_track };
        emit(effects, Effect::Load(request));
    }

    /// Takes a reply to a load.
    fn load_replied(
        &mut self,
        loader: TrackLoader,
        track_id: SpotifyId,
        play: bool,
        position: u32,
        end_of_track: S,
        reply: LoadReply<D>,
        effects: &mut Vec<Effect<D, S>>,
    )
        requires
            !(old(self).state is Invalid),
            loader.wf(),
            loader.answered_by(reply),
        ensures
            final(self).turn(final(effects)@) == old(self).turn(old(effects)@).load_replied(
                loader,
                track_id,
                play,
                position,
                end_of_track,
                reply,
            ),
            final(self).phase matches Phase::Load { loader, .. } ==> loader.wf(),
    {
        let mut loader = loader;
        match loader.supply(reply) {
            LoadProgress::Ask(request) => {
                self.phase = Phase::Load { loader, track_id, play, position, end_of_track };
                emit(effects, Effect::Load(request));
            },
            LoadProgress::Loaded { decoder, normalization_factor } => {
                if play {
                    if !self.state.is_playing() {
                        self.run_onstart(effects);
                    }
                    self.start_sink(
                        AfterStart::Load {
                            track_id,
                            position,
                            decoder,
                            normalization_factor,
                            end_of_track,
                        },
                        effects,
                    );
                } else {
                    if self.state.is_playing() {
                        self.run_onstop(effects);
                    }
                    self.replace_state(
                        PlayerState::Paused { decoder, normalization_factor, end_of_track },
                        effects,
                    );
                    self.keep_playing(effects);
                }
            },
            LoadProgress::Unavailable => {
                emit(effects, Effect::Signal(end_of_track));
                if self.state.is_playing() {
                    self.run_onstop(effects);
                }
                self.keep_playing(effects);
            },
        }
    }

    /// Takes the sink's answer to being started.
    fn start_replied(
        &mut self,
        next: AfterStart<D, S>,
        started: bool,
        effects: &mut Vec<Effect<D, S>>,
    )
        requires
            !(old(self).state is Invalid),
        ensures
            final(self).turn(final(effects)@) == old(self).turn(old(effects)@).start_replied(
                next,
                started,
            ),
    {
        self.sink_started(started, effects);
        match next {
            AfterStart::Load {
                track_id,
                position,
                decoder,
                normalization_factor,
                end_of_track,
            } => {
                // The sink was asked to start, so others are told what is to play.
                let lookup = Lookup::Track(track_id);
                let request = lookup.request();
                self.phase = Phase::Announce {
                    lookup,
                    track_id,
                    position,
                    decoder,
                    normalization_factor,
                    end_of_track,
                };
                emit(effects, Effect::Metadata(request));
            },
            AfterStart::Play => self.keep_playing(effects),
            AfterStart::Resume => self.feed_sink(effects),
        }
    }

    /// Takes an entry of the catalogue on a track that is to be announced.
    fn announce_replied(
        &mut self,
        lookup: Lookup,
        track_id: SpotifyId,
        position: u32,
        decoder: D,
        normalization_factor: u32,
        end_of_track: S,
        reply: MetadataReply,
        effects: &mut Vec<Effect<D, S>>,
    )
        requires
            !(old(self).state is Invalid),
            lookup.answered_by(reply),
            reply matches MetadataReply::Album(album) ==> album.covers@.len() >= 3,
        ensures
            final(self).turn(final(effects)@) == old(self).turn(old(effects)@).announce_replied(
                lookup,
                track_id,
                position,
                decoder,
                normalization_factor,
                end_of_track,
                reply,
            ),
            final(self).phase matches Phase::Announce { lookup, .. } ==> lookup.wf(),
    {
        match lookup.supply(reply) {
            LookupProgress::More(lookup) => {
                let request = lookup.request();
                self.phase = Phase::Announce {
                    lookup,
                    track_id,
                    position,
                    decoder,
                    normalization_factor,
                    end_of_track,
                };
                emit(effects, Effect::Metadata(request));
            },
            LookupProgress::Found(info) => {
                self.snd_meta(track_id_to_json(track_id, &info, position), effects);
                self.replace_state(
                    PlayerState::Playing { decoder, normalization_factor, end_of_track },
                    effects,
                );
                self.keep_playing(effects);
            },
        }
    }

    /// Takes a packet, or the end of the track.
    fn handle_packet(
        &mut self,
        packet: Option<Vec<i16>>,
        normalization_factor: u32,
        effects: &mut Vec<Effect<D, S>>,
    )
        requires
            !(old(self).state is Invalid),
        ensures
            final(self).turn(final(effects)@) == old(self).turn(old(effects)@).handle_packet(
                packet,
                normalization_factor,
            ),
    {
        match packet {
            Some(packet) => {
                if self.has_filter {
                    self.phase = Phase::Filter(normalization_factor);
                    emit(effects, Effect::Filter(packet));
                } else {
                    self.filtered(packet, normalization_factor, effects);
                }
            },
            None => {
                self.stop_sink(effects);
                self.run_onstop(effects);
                let mut state = PlayerState::Stopped;
                std::mem::swap(&mut state, &mut self.state);
                state.signal_end_of_track(effects);
                self.await_command(effects);
            },
        }
    }

    /// Takes a packet that is past the filter.
    fn filtered(
        &mut self,
        packet: Vec<i16>,
        normalization_factor: u32,
        effects: &mut Vec<Effect<D, S>>,
    )
        ensures
            final(self).turn(final(effects)@) == old(self).turn(old(effects)@).filtered(
                packet,
                normalization_factor,
            ),
    {
        if self.config.normalization && normalization_factor != UNITY {
            self.phase = Phase::Scale;
            emit(effects, Effect::Scale { packet, factor: normalization_factor });
        } else {
            self.write(packet, effects);
        }
    }

    /// Has a packet written to the sink.
    fn write(&mut self, packet: Vec<i16>, effects: &mut Vec<Effect<D, S>>)
        ensures
            final(self).turn(final(effects)@) == old(self).turn(old(effects)@).write(packet),
    {
        self.phase = Phase::Write;
        emit(effects, Effect::Write(packet));
    }

    /// Takes the sink's answer to a packet.
    fn write_replied(&mut self, written: bool, effects: &mut Vec<Effect<D, S>>)
        requires
            !(old(self).state is Invalid),
        ensures
            final(self).turn(final(effects)@) == old(self).turn(old(effects)@).write_replied(
                written,
            ),
    {
        if !written {
            self.stop_sink(effects);
        }
        self.await_command(effects);
    }

    /// Takes an event, and answers with what is to be done.
    pub fn run(&mut self, event: Event<D, S>) -> (effects: Vec<Effect<D, S>>)
        requires
            old(self).wf(),
            old(self).answered_by(event),
        ensures
            final(self).turn(effects@) == (Turn { player: *old(self), effects: seq![] }).after(
                event,
            ),
            *final(self) == (Turn { player: *old(self), effects: seq![] }).after(event).player,
            effects@.len() == (Turn { player: *old(self), effects: seq![] }).after(
                event,
            ).effects.len(),
            forall|i: int|
                0 <= i < effects@.len() ==> (#[trigger] effects@[i])@ == (Turn {
                    player: *old(self),
                    effects: seq![],
                }).after(event).effects[i],
            final(self).wf(),
    {
        let mut effects: Vec<Effect<D, S>> = Vec::new();
        let mut phase = Phase::Done;
        std::mem::swap(&mut phase, &mut self.phase);
        match (phase, event) {
            (Phase::Command, Event::Command(command)) => {
                self.phase = Phase::Token(command);
                emit(
                    &mut effects,
                    Effect::FetchToken(
                        "streaming,user-read-playback-state,user-modify-playback-state,user-read-currently-playing,user-read-private".to_owned(),
                    ),
                );
            },
            (Phase::Command, Event::Disconnected) => {
                emit(&mut effects, Effect::Exit);
            },
            (Phase::Command, _) => self.keep_playing(&mut effects),
            (Phase::Token(command), Event::Token(token)) => {
                self.handle_command(command, token, &mut effects);
            },
            (
                Phase::Load { loader, track_id, play, position, end_of_track },
                Event::Load(reply),
            ) => {
                self.load_replied(
                    loader,
                    track_id,
                    play,
                    position,
                    end_of_track,
                    reply,
                    &mut effects,
                );
            },
            (Phase::Sink(next), Event::SinkStarted(started)) => {
                self.start_replied(next, started, &mut effects);
            },
            (
                Phase::Announce {
                    lookup,
                    track_id,
                    position,
                    decoder,
                    normalization_factor,
                    end_of_track,
                },
                Event::Metadata(reply),
            ) => {
                self.announce_replied(
                    lookup,
                    track_id,
                    position,
                    decoder,
                    normalization_factor,
                    end_of_track,
                    reply,
                    &mut effects,
                );
            },
            (Phase::Packet, Event::Packet(packet)) => {
                if let PlayerState::Playing { normalization_factor, .. } = &self.state {
                    let factor: u32 = *normalization_factor;
                    self.handle_packet(packet, factor, &mut effects);
                }
            },
            (Phase::Filter(factor), Event::Filtered(packet)) => {
                self.filtered(packet, factor, &mut effects);
            },
            (Phase::Scale, Event::Scaled(packet)) => {
                self.write(packet, &mut effects);
            },
            (Phase::Write, Event::Written(written)) => {
                self.write_replied(written, &mut effects);
            },
            _ => {},
        }
        proof {
            assert(trace(Seq::<Effect<D, S>>::empty()) =~= seq![]);
            events_keep_players_sound(Turn { player: *old(self), effects: seq![] }, event);
            traces_keep_their_order(effects@);
        }
        effects
    }
}

} // verus!
