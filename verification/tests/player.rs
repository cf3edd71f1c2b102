use playback::command::PlayerCommand;
use playback::config::{Bitrate, PlayerConfig};
use playback::effect::{CommandWait, Effect};
use playback::load::{LoadReply, LoadRequest, UNITY};
use playback::metadata::{
    Album, Artist, FileFormat, FileId, FileTable, MetadataReply, MetadataRequest, SpotifyId, Track,
};
use playback::player::{Event, PlayerInternal};
use playback::state::PlayerState;
use playback::token::Token;

type Act = Effect<&'static str, u32>;
type Machine = PlayerInternal<&'static str, u32>;

const BLANK: &str =
    "send {\"token\":{\"access_token\":\"\",\"expires_in\":0,\"scope\":[\"\",\"\"],\"token_type\":\"\"}}";

fn config() -> PlayerConfig {
    PlayerConfig {
        bitrate: Bitrate::Bitrate160,
        onstart: Some("start.sh".to_string()),
        onstop: Some("stop.sh".to_string()),
        normalization: false,
        normalization_pregain: 0,
    }
}

fn track(id: u128) -> Track {
    let mut files = FileTable::new();
    files.insert(FileFormat::OGG_VORBIS_160, FileId([1; 20]));
    Track {
        id: SpotifyId(id),
        name: "Song".to_string(),
        duration: 180000,
        album: SpotifyId(30),
        artists: vec![SpotifyId(20), SpotifyId(21)],
        files,
        alternatives: vec![],
        available: true,
    }
}

fn artist() -> Artist {
    Artist { id: SpotifyId(20), name: "Band".to_string() }
}

fn album() -> Album {
    Album {
        id: SpotifyId(30),
        name: "Disc".to_string(),
        covers: vec![FileId([0xa0; 20]), FileId([0xb1; 20]), FileId([0xc2; 20])],
    }
}

fn show(effect: &Act) -> String {
    match effect {
        Effect::Wait(CommandWait::Poll) => "poll".to_string(),
        Effect::Wait(CommandWait::Timeout(seconds)) => format!("wait {}", seconds),
        Effect::Wait(CommandWait::Block) => "block".to_string(),
        Effect::FetchToken(scopes) => format!("token {}", scopes),
        Effect::SendMeta(text) => format!("send {}", text),
        Effect::RunProgram(program) => format!("run {}", program),
        Effect::StartSink => "start".to_string(),
        Effect::StopSink => "stop".to_string(),
        Effect::Load(LoadRequest::Metadata(request)) => format!("load {}", ask(request)),
        Effect::Load(LoadRequest::Tracks(ids)) => format!("load tracks {}", ids.len()),
        Effect::Load(LoadRequest::AudioKey { track, .. }) => format!("load key {}", track.0),
        Effect::Load(LoadRequest::AudioFile(_)) => "load file".to_string(),
        Effect::Load(LoadRequest::Read(offset)) => format!("load read {}", offset),
        Effect::Load(LoadRequest::Factor { .. }) => "load factor".to_string(),
        Effect::Load(LoadRequest::Decoder { offset, position }) => {
            format!("load decoder {} {}", offset, position)
        }
        Effect::Metadata(request) => ask(request),
        Effect::Seek(position) => format!("seek {}", position),
        Effect::NextPacket => "decode".to_string(),
        Effect::Filter(packet) => format!("filter {:?}", packet),
        Effect::Scale { packet, factor } => format!("scale {:?} {}", packet, factor),
        Effect::Write(packet) => format!("write {:?}", packet),
        Effect::Signal(signal) => format!("signal {}", signal),
        Effect::Cancel(signal) => format!("cancel {}", signal),
        Effect::Release(decoder) => format!("release {}", decoder),
        Effect::Exit => "exit".to_string(),
    }
}

fn ask(request: &MetadataRequest) -> String {
    match request {
        MetadataRequest::Track(id) => format!("track {}", id.0),
        MetadataRequest::Artist(id) => format!("artist {}", id.0),
        MetadataRequest::Album(id) => format!("album {}", id.0),
    }
}

fn run(machine: &mut Machine, event: Event<&'static str, u32>) -> Vec<String> {
    assert!(machine.accepts(&event));
    machine.run(event).iter().map(show).collect()
}

fn command(machine: &mut Machine, command: PlayerCommand<u32>) -> Vec<String> {
    let asked = run(machine, Event::Command(command));
    assert_eq!(
        asked,
        vec![
            "token streaming,user-read-playback-state,user-modify-playback-state,\
             user-read-currently-playing,user-read-private"
        ]
    );
    run(machine, Event::Token(None))
}

/// Answers a load up to its last request, and returns what the decoder leads to.
fn finish_load(machine: &mut Machine, id: u128) -> Vec<String> {
    let asked = run(machine, Event::Load(LoadReply::Metadata(MetadataReply::Track(track(id)))));
    assert_eq!(asked, vec!["load artist 20"]);
    let asked = run(machine, Event::Load(LoadReply::Metadata(MetadataReply::Artist(artist()))));
    assert_eq!(asked, vec!["load album 30"]);
    let asked = run(machine, Event::Load(LoadReply::Metadata(MetadataReply::Album(album()))));
    assert_eq!(asked, vec![format!("load key {}", id)]);
    let asked = run(machine, Event::Load(LoadReply::AudioKey));
    assert_eq!(asked, vec!["load file"]);
    let asked = run(machine, Event::Load(LoadReply::AudioFile));
    assert_eq!(asked, vec!["load decoder 167 5000"]);
    run(machine, Event::Load(LoadReply::Decoder("decoder")))
}

fn announce(machine: &mut Machine, id: u128) -> Vec<String> {
    let asked = run(machine, Event::Metadata(MetadataReply::Track(track(id))));
    assert_eq!(asked, vec!["artist 20"]);
    let asked = run(machine, Event::Metadata(MetadataReply::Artist(artist())));
    assert_eq!(asked, vec!["album 30"]);
    run(machine, Event::Metadata(MetadataReply::Album(album())))
}

/// A player that plays track 7, whose end is signalled by 70.
fn playing() -> Machine {
    let mut machine = PlayerInternal::new(config(), false);
    command(&mut machine, PlayerCommand::Load(SpotifyId(7), true, 5000, 70));
    finish_load(&mut machine, 7);
    run(&mut machine, Event::SinkStarted(true));
    announce(&mut machine, 7);
    run(&mut machine, Event::Packet(Some(vec![1, 2])));
    assert_eq!(run(&mut machine, Event::Written(true)), vec!["poll"]);
    machine
}

fn paused() -> Machine {
    let mut machine = PlayerInternal::new(config(), false);
    command(&mut machine, PlayerCommand::Load(SpotifyId(7), false, 5000, 70));
    assert_eq!(finish_load(&mut machine, 7), vec!["block"]);
    machine
}

/// Whether an effect asks for something.
fn asks(effect: &Act) -> bool {
    !matches!(
        effect,
        Effect::SendMeta(_)
            | Effect::RunProgram(_)
            | Effect::StopSink
            | Effect::Seek(_)
            | Effect::Signal(_)
            | Effect::Cancel(_)
            | Effect::Release(_)
    )
}

#[test]
fn a_long_run_keeps_every_rule() {
    let mut machine: Machine = PlayerInternal::new(config(), false);
    let mut effects: Vec<Act> = vec![Effect::Wait(machine.command_wait())];
    let mut running = false;
    let mut signals: Vec<u32> = Vec::new();
    let mut cancels: Vec<u32> = Vec::new();
    let mut programs: Vec<String> = Vec::new();
    let mut steps: u32 = 0;
    let mut loads: u32 = 0;
    while steps < 2000 {
        steps += 1;
        for (i, effect) in effects.iter().enumerate() {
            assert_eq!(asks(effect), i + 1 == effects.len());
            match effect {
                Effect::StartSink => assert!(!running),
                Effect::StopSink => {
                    assert!(running);
                    running = false;
                    assert_eq!(show(&effects[i + 1]), "send kSpDeviveInactive");
                }
                Effect::Write(_) => assert!(running),
                Effect::Signal(signal) => signals.push(*signal),
                Effect::Cancel(signal) => cancels.push(*signal),
                Effect::RunProgram(program) => programs.push(program.clone()),
                _ => {}
            }
        }
        assert_eq!(machine.sink_running, running);
        let event = match effects.last().unwrap() {
            Effect::Wait(CommandWait::Poll) if steps % 3 != 0 => Event::NoCommand,
            Effect::Wait(CommandWait::Timeout(_)) if steps % 2 != 0 => Event::NoCommand,
            Effect::Wait(_) => Event::Command(match steps % 7 {
                0 | 1 => {
                    loads += 1;
                    PlayerCommand::Load(SpotifyId(steps as u128), steps % 5 != 0, 0, loads)
                }
                2 => PlayerCommand::Pause,
                3 => PlayerCommand::Stop,
                4 => PlayerCommand::Seek(steps),
                _ => PlayerCommand::Play,
            }),
            Effect::FetchToken(_) => Event::Token(None),
            Effect::StartSink => {
                running = steps % 4 != 0;
                Event::SinkStarted(running)
            }
            Effect::Load(LoadRequest::Metadata(request)) => {
                Event::Load(LoadReply::Metadata(match request {
                    MetadataRequest::Track(id) => {
                        let mut found = track(id.0);
                        found.available = id.0 % 3 != 0;
                        MetadataReply::Track(found)
                    }
                    MetadataRequest::Artist(_) => MetadataReply::Artist(artist()),
                    MetadataRequest::Album(_) => MetadataReply::Album(album()),
                }))
            }
            Effect::Load(LoadRequest::Tracks(_)) => Event::Load(LoadReply::Tracks(vec![])),
            Effect::Load(LoadRequest::AudioKey { .. }) => Event::Load(LoadReply::AudioKey),
            Effect::Load(LoadRequest::AudioFile(_)) => Event::Load(LoadReply::AudioFile),
            Effect::Load(LoadRequest::Decoder { .. }) => {
                Event::Load(LoadReply::Decoder("decoder"))
            }
            Effect::Metadata(MetadataRequest::Track(id)) => {
                Event::Metadata(MetadataReply::Track(track(id.0)))
            }
            Effect::Metadata(MetadataRequest::Artist(_)) => {
                Event::Metadata(MetadataReply::Artist(artist()))
            }
            Effect::Metadata(MetadataRequest::Album(_)) => {
                Event::Metadata(MetadataReply::Album(album()))
            }
            Effect::NextPacket if steps % 11 == 0 => Event::Packet(None),
            Effect::NextPacket => Event::Packet(Some(vec![steps as i16])),
            Effect::Write(_) => Event::Written(steps % 13 != 0),
            other => panic!("{} has no answer", show(other)),
        };
        assert!(machine.accepts(&event));
        effects = machine.run(event);
    }
    assert!(loads > 50);
    assert!(signals.len() > 10);
    assert!(programs.len() > 20);
    assert!(cancels.len() > 10);
    // Every load is signalled or cancelled once, but for those that the player still holds.
    let mut parted = signals;
    parted.extend(cancels);
    let all = parted.len();
    parted.sort();
    parted.dedup();
    assert_eq!(parted.len(), all);
    assert!(all as u32 + 2 >= loads);
}

#[test]
fn a_new_player_waits_with_a_blank_token() {
    let machine: Machine = PlayerInternal::new(config(), true);
    assert!(matches!(machine.state, PlayerState::Stopped));
    assert!(!machine.sink_running);
    assert!(machine.has_filter);
    assert_eq!(machine.token.access_token, "");
    assert_eq!(machine.token.expires_in, 0);
    assert_eq!(machine.token.token_type, "");
    assert_eq!(machine.token.scope, vec!["", ""]);
    assert_eq!(machine.command_wait(), CommandWait::Block);
}

#[test]
fn a_load_that_is_to_play_starts_the_sink_and_announces_the_track() {
    let mut machine: Machine = PlayerInternal::new(config(), false);
    assert_eq!(
        command(&mut machine, PlayerCommand::Load(SpotifyId(7), true, 5000, 70)),
        vec![BLANK, "send kSpPlaybackNotifyBecameActive", "load track 7"]
    );
    assert_eq!(finish_load(&mut machine, 7), vec!["run start.sh", "start"]);
    assert_eq!(
        run(&mut machine, Event::SinkStarted(true)),
        vec!["send kSpDeviveActive", "track 7"]
    );
    let told = announce(&mut machine, 7);
    assert_eq!(
        told,
        vec![
            "send {\"metadata\":{\
             \"album_id\":\"0000000000000000000000000000001e\",\
             \"album_name\":\"Disc\",\
             \"albumartId\":\"a0a0a0a0a0a0a0a0a0a0a0a0a0a0a0a0a0a0a0a0\",\
             \"albumartId_LARGE\":\"c2c2c2c2c2c2c2c2c2c2c2c2c2c2c2c2c2c2c2c2\",\
             \"albumartId_SMALL\":\"b1b1b1b1b1b1b1b1b1b1b1b1b1b1b1b1b1b1b1b1\",\
             \"artist_id\":\"00000000000000000000000000000014\",\
             \"artist_name\":\"Band\",\
             \"duration\":180000,\
             \"pos\":5000,\
             \"track_id\":\"00000000000000000000000000000007\",\
             \"track_name\":\"Song\"}}",
            "decode"
        ]
    );
    assert!(machine.sink_running);
    assert!(matches!(
        machine.state,
        PlayerState::Playing { decoder: "decoder", normalization_factor: UNITY, end_of_track: 70 }
    ));
}

#[test]
fn a_load_that_is_not_to_play_is_paused() {
    let machine = paused();
    assert!(!machine.sink_running);
    assert!(matches!(machine.state, PlayerState::Paused { end_of_track: 70, .. }));
}

#[test]
fn a_granted_token_replaces_the_old_one() {
    let mut machine: Machine = PlayerInternal::new(config(), false);
    run(&mut machine, Event::Command(PlayerCommand::Stop));
    let token = Token {
        access_token: "a\"b".to_string(),
        expires_in: 3600,
        token_type: "Bearer".to_string(),
        scope: vec!["streaming".to_string()],
    };
    let message = "send {\"token\":{\"access_token\":\"a\\\"b\",\"expires_in\":3600,\
                   \"scope\":[\"streaming\"],\"token_type\":\"Bearer\"}}";
    assert_eq!(run(&mut machine, Event::Token(Some(token))), vec![message, "block"]);
    // A token that is not granted leaves it in place.
    assert_eq!(command(&mut machine, PlayerCommand::Stop), vec![message, "block"]);
}

#[test]
fn useless_commands_only_pass_on_the_token() {
    let mut stopped: Machine = PlayerInternal::new(config(), false);
    for useless in [
        PlayerCommand::Play,
        PlayerCommand::Pause,
        PlayerCommand::Stop,
        PlayerCommand::Seek(1),
    ] {
        assert_eq!(command(&mut stopped, useless), vec![BLANK, "block"]);
    }
    let mut machine = playing();
    assert_eq!(command(&mut machine, PlayerCommand::Play), vec![BLANK, "decode"]);
    let mut machine = paused();
    assert_eq!(command(&mut machine, PlayerCommand::Pause), vec![BLANK, "block"]);
}

#[test]
fn pausing_and_playing_follow_each_other() {
    let mut machine = playing();
    assert_eq!(
        command(&mut machine, PlayerCommand::Pause),
        vec![BLANK, "stop", "send kSpDeviveInactive", "run stop.sh", "block"]
    );
    assert!(matches!(
        machine.state,
        PlayerState::Paused { decoder: "decoder", normalization_factor: UNITY, end_of_track: 70 }
    ));
    assert_eq!(
        command(&mut machine, PlayerCommand::Play),
        vec![BLANK, "run start.sh", "start"]
    );
    assert_eq!(
        run(&mut machine, Event::SinkStarted(true)),
        vec!["send kSpDeviveActive", "decode"]
    );
    assert!(matches!(
        machine.state,
        PlayerState::Playing { decoder: "decoder", normalization_factor: UNITY, end_of_track: 70 }
    ));
}

#[test]
fn stopping_forgets_the_track() {
    let mut machine = playing();
    assert_eq!(
        command(&mut machine, PlayerCommand::Stop),
        vec![
            BLANK,
            "stop",
            "send kSpDeviveInactive",
            "run stop.sh",
            "release decoder",
            "cancel 70",
            "block"
        ]
    );
    assert!(matches!(machine.state, PlayerState::Stopped));
    let mut machine = paused();
    assert_eq!(
        command(&mut machine, PlayerCommand::Stop),
        vec![BLANK, "release decoder", "cancel 70", "block"]
    );
    assert!(matches!(machine.state, PlayerState::Stopped));
}

#[test]
fn seeking_moves_the_decoder_of_a_loaded_track() {
    let mut machine = playing();
    assert_eq!(
        command(&mut machine, PlayerCommand::Seek(u32::MAX)),
        vec![BLANK, "seek 4294967295", "decode"]
    );
    let mut machine = paused();
    assert_eq!(command(&mut machine, PlayerCommand::Seek(3)), vec![BLANK, "seek 3", "block"]);
}

#[test]
fn the_end_of_a_track_is_signalled_last() {
    let mut machine = playing();
    assert_eq!(run(&mut machine, Event::NoCommand), vec!["decode"]);
    assert_eq!(
        run(&mut machine, Event::Packet(None)),
        vec![
            "stop",
            "send kSpDeviveInactive",
            "run stop.sh",
            "signal 70",
            "release decoder",
            "block"
        ]
    );
    assert!(matches!(machine.state, PlayerState::Stopped));
    assert!(!machine.sink_running);
    assert!(!machine.accepts(&Event::NoCommand));
}

#[test]
fn a_sink_that_takes_no_packet_is_stopped_and_started_again() {
    let mut machine = playing();
    run(&mut machine, Event::NoCommand);
    assert_eq!(
        run(&mut machine, Event::Packet(Some(vec![-3, 4]))),
        vec!["write [-3, 4]"]
    );
    assert_eq!(
        run(&mut machine, Event::Written(false)),
        vec!["stop", "send kSpDeviveInactive", "wait 5"]
    );
    assert!(machine.state.is_playing());
    assert_eq!(run(&mut machine, Event::NoCommand), vec!["start"]);
    assert_eq!(run(&mut machine, Event::SinkStarted(false)), vec!["wait 5"]);
    assert_eq!(run(&mut machine, Event::NoCommand), vec!["start"]);
    assert_eq!(
        run(&mut machine, Event::SinkStarted(true)),
        vec!["send kSpDeviveActive", "decode"]
    );
}

#[test]
fn a_sink_that_does_not_start_for_a_command_is_tried_once_more() {
    let mut machine = paused();
    command(&mut machine, PlayerCommand::Play);
    assert_eq!(run(&mut machine, Event::SinkStarted(false)), vec!["start"]);
    assert_eq!(run(&mut machine, Event::SinkStarted(false)), vec!["wait 5"]);
}

#[test]
fn a_track_is_announced_though_the_sink_did_not_start() {
    let mut machine: Machine = PlayerInternal::new(config(), false);
    command(&mut machine, PlayerCommand::Load(SpotifyId(7), true, 5000, 70));
    finish_load(&mut machine, 7);
    assert_eq!(run(&mut machine, Event::SinkStarted(false)), vec!["track 7"]);
    let told = announce(&mut machine, 7);
    assert!(told[0].starts_with("send {\"metadata\""));
    assert_eq!(told[1], "start");
    assert!(machine.state.is_playing());
}

#[test]
fn a_load_while_playing_silences_the_old_track() {
    let mut machine = playing();
    assert_eq!(
        command(&mut machine, PlayerCommand::Load(SpotifyId(8), true, 5000, 80)),
        vec![
            BLANK,
            "send kSpPlaybackNotifyBecameActive",
            "stop",
            "send kSpDeviveInactive",
            "load track 8"
        ]
    );
    // Playing goes on, so the program for its start does not run.
    assert_eq!(finish_load(&mut machine, 8), vec!["start"]);
    run(&mut machine, Event::SinkStarted(true));
    let told = announce(&mut machine, 8);
    assert!(told[0].starts_with("send {\"metadata\""));
    assert_eq!(told[1..], ["release decoder", "cancel 70", "decode"]);
    assert!(matches!(machine.state, PlayerState::Playing { end_of_track: 80, .. }));
    // One that is not to play ends it.
    run(&mut machine, Event::Packet(Some(vec![])));
    run(&mut machine, Event::Written(true));
    command(&mut machine, PlayerCommand::Load(SpotifyId(9), false, 5000, 90));
    assert_eq!(
        finish_load(&mut machine, 9),
        vec!["run stop.sh", "release decoder", "cancel 80", "block"]
    );
    assert!(matches!(machine.state, PlayerState::Paused { end_of_track: 90, .. }));
}

#[test]
fn a_failed_load_is_signalled_and_the_old_track_goes_on() {
    let mut machine = playing();
    command(&mut machine, PlayerCommand::Load(SpotifyId(8), true, 0, 80));
    let mut lost = track(8);
    lost.available = false;
    run(&mut machine, Event::Load(LoadReply::Metadata(MetadataReply::Track(lost))));
    run(&mut machine, Event::Load(LoadReply::Metadata(MetadataReply::Artist(artist()))));
    assert_eq!(
        run(&mut machine, Event::Load(LoadReply::Metadata(MetadataReply::Album(album())))),
        vec!["load tracks 0"]
    );
    assert_eq!(
        run(&mut machine, Event::Load(LoadReply::Tracks(vec![]))),
        vec!["signal 80", "run stop.sh", "start"]
    );
    assert!(matches!(machine.state, PlayerState::Playing { end_of_track: 70, .. }));
    // Without a track before it, nothing but the signal happens.
    let mut machine: Machine = PlayerInternal::new(config(), false);
    command(&mut machine, PlayerCommand::Load(SpotifyId(8), true, 0, 80));
    let mut empty = track(8);
    empty.files = FileTable::new();
    run(&mut machine, Event::Load(LoadReply::Metadata(MetadataReply::Track(empty))));
    run(&mut machine, Event::Load(LoadReply::Metadata(MetadataReply::Artist(artist()))));
    assert_eq!(
        run(&mut machine, Event::Load(LoadReply::Metadata(MetadataReply::Album(album())))),
        vec!["signal 80", "block"]
    );
}

#[test]
fn packets_are_filtered_and_scaled_as_set_up() {
    let mut config = config();
    config.normalization = true;
    let mut machine: Machine = PlayerInternal::new(config, true);
    command(&mut machine, PlayerCommand::Load(SpotifyId(7), true, 5000, 70));
    run(&mut machine, Event::Load(LoadReply::Metadata(MetadataReply::Track(track(7)))));
    run(&mut machine, Event::Load(LoadReply::Metadata(MetadataReply::Artist(artist()))));
    run(&mut machine, Event::Load(LoadReply::Metadata(MetadataReply::Album(album()))));
    run(&mut machine, Event::Load(LoadReply::AudioKey));
    assert_eq!(run(&mut machine, Event::Load(LoadReply::AudioFile)), vec!["load read 144"]);
    for next in ["load read 148", "load factor"] {
        assert_eq!(run(&mut machine, Event::Load(LoadReply::Read(vec![0; 4]))), vec![next]);
    }
    let half = 0.5f32.to_bits();
    assert_eq!(run(&mut machine, Event::Load(LoadReply::Factor(half))), vec!["load read 152"]);
    for next in ["load read 156", "load decoder 167 5000"] {
        assert_eq!(run(&mut machine, Event::Load(LoadReply::Read(vec![0; 4]))), vec![next]);
    }
    run(&mut machine, Event::Load(LoadReply::Decoder("decoder")));
    run(&mut machine, Event::SinkStarted(true));
    announce(&mut machine, 7);
    assert_eq!(run(&mut machine, Event::Packet(Some(vec![8]))), vec!["filter [8]"]);
    assert!(!machine.accepts(&Event::Written(true)));
    assert_eq!(
        run(&mut machine, Event::Filtered(vec![6])),
        vec![format!("scale [6] {}", half)]
    );
    assert_eq!(run(&mut machine, Event::Scaled(vec![3])), vec!["write [3]"]);
    assert_eq!(run(&mut machine, Event::Written(true)), vec!["poll"]);
}

#[test]
fn packets_reach_the_sink_in_the_order_of_the_decoder() {
    let mut machine = playing();
    machine.has_filter = true;
    let mut decoded: Vec<i16> = Vec::new();
    let mut written: Vec<Vec<i16>> = Vec::new();
    let mut effects = machine.run(Event::NoCommand);
    for step in 0..400i16 {
        let event = match effects.last().unwrap() {
            Effect::Wait(CommandWait::Poll) if step % 5 != 0 => Event::NoCommand,
            Effect::Wait(CommandWait::Timeout(_)) => Event::NoCommand,
            Effect::Wait(CommandWait::Poll) => Event::Command(PlayerCommand::Pause),
            Effect::Wait(CommandWait::Block) => Event::Command(PlayerCommand::Play),
            Effect::FetchToken(_) => Event::Token(None),
            Effect::StartSink => Event::SinkStarted(step % 3 != 0),
            Effect::NextPacket => {
                decoded.push(step);
                Event::Packet(Some(vec![step]))
            }
            // A filter that makes of each packet something else.
            Effect::Filter(packet) => {
                let number = decoded.len() as i16;
                Event::Filtered(vec![packet[0], number])
            }
            Effect::Write(packet) => {
                written.push(packet.clone());
                Event::Written(step % 7 != 0)
            }
            other => panic!("{} has no answer", show(other)),
        };
        assert!(machine.accepts(&event));
        effects = machine.run(event);
    }
    assert!(written.len() > 30);
    assert!(decoded.len() - written.len() <= 1);
    for (i, packet) in written.iter().enumerate() {
        assert_eq!(packet, &vec![decoded[i], i as i16 + 1]);
    }
}

#[test]
fn commands_are_carried_out_once_each_and_in_order() {
    let mut machine = playing();
    let mut done: Vec<String> = Vec::new();
    let commands = vec![
        PlayerCommand::Seek(1),
        PlayerCommand::Pause,
        PlayerCommand::Seek(2),
        PlayerCommand::Play,
        PlayerCommand::Seek(3),
        PlayerCommand::Stop,
        PlayerCommand::Load(SpotifyId(8), false, 5000, 80),
    ];
    for next in commands {
        run(&mut machine, Event::Command(next));
        // No other command is taken before this one is carried out.
        assert!(!machine.accepts(&Event::Command(PlayerCommand::Play)));
        assert!(!machine.accepts(&Event::Disconnected));
        let mut effects = machine.run(Event::Token(None));
        loop {
            for effect in &effects {
                match effect {
                    Effect::Seek(_)
                    | Effect::RunProgram(_)
                    | Effect::Cancel(_)
                    | Effect::Load(_) => done.push(show(effect)),
                    _ => {}
                }
            }
            let event = match effects.last().unwrap() {
                Effect::StartSink => Event::SinkStarted(true),
                Effect::NextPacket => Event::Packet(Some(vec![1])),
                Effect::Write(_) => Event::Written(true),
                _ => break,
            };
            effects = machine.run(event);
        }
    }
    assert_eq!(
        done,
        vec![
            "seek 1",
            "run stop.sh",
            "seek 2",
            "run start.sh",
            "seek 3",
            "run stop.sh",
            "cancel 70",
            "load track 8"
        ]
    );
}

#[test]
fn a_factor_of_one_is_not_applied() {
    assert_eq!(UNITY, 1.0f32.to_bits());
    let mut machine = playing();
    machine.config.normalization = true;
    run(&mut machine, Event::NoCommand);
    assert_eq!(
        run(&mut machine, Event::Packet(Some(vec![8]))),
        vec!["write [8]"]
    );
}

#[test]
fn programs_that_are_not_set_up_do_not_run() {
    let mut config = config();
    config.onstart = None;
    config.onstop = None;
    let mut machine: Machine = PlayerInternal::new(config, false);
    command(&mut machine, PlayerCommand::Load(SpotifyId(7), true, 5000, 70));
    assert_eq!(finish_load(&mut machine, 7), vec!["start"]);
    run(&mut machine, Event::SinkStarted(true));
    announce(&mut machine, 7);
    assert_eq!(
        run(&mut machine, Event::Packet(None)),
        vec!["stop", "send kSpDeviveInactive", "signal 70", "release decoder", "block"]
    );
}

#[test]
fn a_player_without_commands_to_come_ends() {
    let mut machine = playing();
    assert_eq!(run(&mut machine, Event::Disconnected), vec!["exit"]);
    assert!(!machine.accepts(&Event::Disconnected));
    assert!(!machine.accepts(&Event::Command(PlayerCommand::Play)));
}

#[test]
fn events_that_were_not_asked_for_are_not_accepted() {
    let mut machine: Machine = PlayerInternal::new(config(), false);
    assert!(!machine.accepts(&Event::SinkStarted(true)));
    assert!(!machine.accepts(&Event::Token(None)));
    command(&mut machine, PlayerCommand::Load(SpotifyId(7), true, 5000, 70));
    let mut nobody = track(7);
    nobody.artists = vec![];
    assert!(!machine.accepts(&Event::Load(LoadReply::Metadata(MetadataReply::Track(nobody)))));
    finish_load(&mut machine, 7);
    run(&mut machine, Event::SinkStarted(true));
    run(&mut machine, Event::Metadata(MetadataReply::Track(track(7))));
    run(&mut machine, Event::Metadata(MetadataReply::Artist(artist())));
    let mut bare = album();
    bare.covers.pop();
    assert!(!machine.accepts(&Event::Metadata(MetadataReply::Album(bare))));
    assert!(machine.accepts(&Event::Metadata(MetadataReply::Album(album()))));
}

#[test]
fn the_decoder_of_a_state_can_be_replaced_in_place() {
    let mut state: PlayerState<u8, u8> =
        PlayerState::Paused { decoder: 1, normalization_factor: 2, end_of_track: 3 };
    *state.decoder().unwrap() = 9;
    assert!(matches!(
        state,
        PlayerState::Paused { decoder: 9, normalization_factor: 2, end_of_track: 3 }
    ));
    state.paused_to_playing();
    assert!(state.is_playing());
    *state.decoder().unwrap() = 4;
    state.playing_to_paused();
    assert!(!state.is_playing());
    assert!(matches!(state, PlayerState::Paused { decoder: 4, .. }));
    let mut effects: Vec<Effect<u8, u8>> = Vec::new();
    state.signal_end_of_track(&mut effects);
    assert!(matches!(effects[..], [Effect::Signal(3), Effect::Release(4)]));
    let state: PlayerState<u8, u8> =
        PlayerState::Playing { decoder: 5, normalization_factor: 2, end_of_track: 6 };
    state.discard(&mut effects);
    assert!(matches!(effects[2..], [Effect::Release(5), Effect::Cancel(6)]));
    let mut stopped: PlayerState<u8, u8> = PlayerState::Stopped;
    assert!(stopped.decoder().is_none());
    stopped.signal_end_of_track(&mut effects);
    PlayerState::<u8, u8>::Stopped.discard(&mut effects);
    assert_eq!(effects.len(), 4);
}

#[test]
fn commands_have_a_text() {
    let id = SpotifyId(340282366920938463463374607431768211455);
    assert_eq!(
        PlayerCommand::Load(id, true, 1200, 1u8).fmt(),
        format!("Load({:?}, true, 1200)", id)
    );
    assert_eq!(
        PlayerCommand::Load(SpotifyId(0), false, 0, 1u8).fmt(),
        "Load(SpotifyId(0), false, 0)"
    );
    assert_eq!(PlayerCommand::<u8>::Play.fmt(), "Play");
    assert_eq!(PlayerCommand::<u8>::Pause.fmt(), "Pause");
    assert_eq!(PlayerCommand::<u8>::Stop.fmt(), "Stop");
    assert_eq!(PlayerCommand::<u8>::Seek(4294967295).fmt(), "Seek(4294967295)");
}
