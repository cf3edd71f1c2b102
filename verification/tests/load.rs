use playback::config::{Bitrate, PlayerConfig};
use playback::load::{file_format, FloatBytes, LoadProgress, LoadReply, LoadRequest, TrackLoader};
use playback::metadata::{
    find_available_alternative, first_available, track_id_to_json, Album, Artist, FileFormat,
    FileId, FileTable, Lookup, LookupProgress, MetadataReply, MetadataRequest, SpotifyId, Track,
    TrackInfo,
};
use playback::text::{base16, bytes_base16, decimal};

fn track(id: u128, available: bool) -> Track {
    let mut files = FileTable::new();
    files.insert(FileFormat::OGG_VORBIS_320, FileId([id as u8; 20]));
    Track {
        id: SpotifyId(id),
        name: format!("Song {}", id),
        duration: 1000,
        album: SpotifyId(300),
        artists: vec![SpotifyId(200)],
        files,
        alternatives: vec![SpotifyId(2), SpotifyId(3), SpotifyId(4)],
        available,
    }
}

fn loader(bitrate: Bitrate, normalization: bool) -> TrackLoader {
    let config = PlayerConfig {
        bitrate,
        onstart: None,
        onstop: None,
        normalization,
        normalization_pregain: 0x4000_0000,
    };
    let (loader, request) = TrackLoader::new(&config, SpotifyId(1), -5);
    assert!(matches!(
        request,
        LoadRequest::Metadata(MetadataRequest::Track(SpotifyId(1)))
    ));
    loader
}

fn look_up(loader: &mut TrackLoader, track: Track) -> LoadProgress<u8> {
    let artist = Artist { id: SpotifyId(200), name: "Band".to_string() };
    let album = Album { id: SpotifyId(300), name: "Disc".to_string(), covers: vec![] };
    let asked: LoadProgress<u8> = loader.supply(LoadReply::Metadata(MetadataReply::Track(track)));
    assert!(matches!(
        asked,
        LoadProgress::Ask(LoadRequest::Metadata(MetadataRequest::Artist(SpotifyId(200))))
    ));
    let asked: LoadProgress<u8> = loader.supply(LoadReply::Metadata(MetadataReply::Artist(artist)));
    assert!(matches!(
        asked,
        LoadProgress::Ask(LoadRequest::Metadata(MetadataRequest::Album(SpotifyId(300))))
    ));
    loader.supply(LoadReply::Metadata(MetadataReply::Album(album)))
}

#[test]
fn the_first_available_alternative_is_loaded() {
    let mut loader = loader(Bitrate::Bitrate320, false);
    match look_up(&mut loader, track(1, false)) {
        LoadProgress::Ask(LoadRequest::Tracks(ids)) => {
            assert_eq!(ids, vec![SpotifyId(2), SpotifyId(3), SpotifyId(4)])
        }
        _ => panic!("alternatives are needed"),
    }
    let found = vec![track(2, false), track(3, true), track(4, true)];
    match loader.supply::<u8>(LoadReply::Tracks(found)) {
        LoadProgress::Ask(LoadRequest::AudioKey { track, file }) => {
            assert_eq!(track, SpotifyId(3));
            assert_eq!(file, FileId([3; 20]));
        }
        _ => panic!("a key is needed"),
    }
    match loader.supply::<u8>(LoadReply::AudioKey) {
        LoadProgress::Ask(LoadRequest::AudioFile(file)) => assert_eq!(file, FileId([3; 20])),
        _ => panic!("a file is needed"),
    }
    assert!(matches!(
        loader.supply::<u8>(LoadReply::AudioFile),
        LoadProgress::Ask(LoadRequest::Decoder { offset: 0xa7, position: -5 })
    ));
    assert!(!loader.accepts::<u8>(&LoadReply::Factor(0)));
    assert!(matches!(
        loader.supply(LoadReply::Decoder(9)),
        LoadProgress::Loaded { decoder: 9, normalization_factor: 0x3f80_0000 }
    ));
    assert!(!loader.accepts(&LoadReply::Decoder(9)));
}

#[test]
fn a_track_without_the_format_is_unavailable() {
    let mut loader = loader(Bitrate::Bitrate96, false);
    assert!(matches!(look_up(&mut loader, track(1, true)), LoadProgress::Unavailable));
}

#[test]
fn a_track_without_available_alternatives_is_unavailable() {
    let mut loader = loader(Bitrate::Bitrate320, false);
    look_up(&mut loader, track(1, false));
    let found = vec![track(2, false), track(3, false)];
    assert!(matches!(
        loader.supply::<u8>(LoadReply::Tracks(found)),
        LoadProgress::Unavailable
    ));
}

#[test]
fn gain_and_peak_are_read_to_even_out_loudness() {
    let mut loader = loader(Bitrate::Bitrate320, true);
    look_up(&mut loader, track(1, true));
    loader.supply::<u8>(LoadReply::AudioKey);
    assert!(matches!(
        loader.supply::<u8>(LoadReply::AudioFile),
        LoadProgress::Ask(LoadRequest::Read(144))
    ));
    let gain = (-6.5f32).to_le_bytes().to_vec();
    assert!(matches!(
        loader.supply::<u8>(LoadReply::Read(gain)),
        LoadProgress::Ask(LoadRequest::Read(148))
    ));
    let peak = 0.75f32.to_le_bytes().to_vec();
    match loader.supply::<u8>(LoadReply::Read(peak)) {
        LoadProgress::Ask(LoadRequest::Factor { track_gain, pregain, track_peak }) => {
            assert_eq!(f32::from_bits(track_gain), -6.5);
            assert_eq!(f32::from_bits(pregain), 2.0);
            assert_eq!(f32::from_bits(track_peak), 0.75);
        }
        _ => panic!("a factor is needed"),
    }
    assert!(matches!(
        loader.supply::<u8>(LoadReply::Factor(77)),
        LoadProgress::Ask(LoadRequest::Read(152))
    ));
    assert!(matches!(
        loader.supply::<u8>(LoadReply::Read(vec![])),
        LoadProgress::Ask(LoadRequest::Read(156))
    ));
    assert!(matches!(
        loader.supply::<u8>(LoadReply::Read(vec![])),
        LoadProgress::Ask(LoadRequest::Decoder { offset: 0xa7, position: -5 })
    ));
    assert!(matches!(
        loader.supply(LoadReply::Decoder(9)),
        LoadProgress::Loaded { decoder: 9, normalization_factor: 77 }
    ));
}

#[test]
fn short_reads_leave_the_other_bytes() {
    let bytes = FloatBytes { b0: 1, b1: 2, b2: 3, b3: 4 };
    assert_eq!(bytes.bits(), 0x0403_0201);
    assert_eq!(bytes.overlay(&vec![]).bits(), 0x0403_0201);
    assert_eq!(bytes.overlay(&vec![0xff, 0xfe]).bits(), 0x0403_feff);
    assert_eq!(bytes.overlay(&vec![9, 8, 7, 6]).bits(), 0x0607_0809);
}

#[test]
fn bit_rates_stand_for_formats() {
    assert_eq!(file_format(Bitrate::Bitrate96), FileFormat::OGG_VORBIS_96);
    assert_eq!(file_format(Bitrate::Bitrate160), FileFormat::OGG_VORBIS_160);
    assert_eq!(file_format(Bitrate::Bitrate320), FileFormat::OGG_VORBIS_320);
}

#[test]
fn files_are_found_by_their_format() {
    let mut files = FileTable::new();
    assert!(files.get(FileFormat::OGG_VORBIS_96).is_none());
    files.insert(FileFormat::OGG_VORBIS_96, FileId([1; 20]));
    files.insert(FileFormat::Other(3), FileId([2; 20]));
    files.insert(FileFormat::OGG_VORBIS_96, FileId([3; 20]));
    assert_eq!(files.get(FileFormat::OGG_VORBIS_96), Some(FileId([3; 20])));
    assert_eq!(files.get(FileFormat::Other(3)), Some(FileId([2; 20])));
    assert_eq!(files.get(FileFormat::Other(4)), None);
}

#[test]
fn an_available_track_needs_no_alternative() {
    assert_eq!(find_available_alternative(track(1, true)).ok().unwrap().id, SpotifyId(1));
    assert_eq!(
        find_available_alternative(track(1, false)).err().unwrap(),
        vec![SpotifyId(2), SpotifyId(3), SpotifyId(4)]
    );
    assert!(first_available(vec![]).is_none());
    let found = vec![track(5, false), track(6, true), track(7, true)];
    assert_eq!(first_available(found).unwrap().id, SpotifyId(6));
}

#[test]
fn a_lookup_gives_track_artist_and_album() {
    let lookup = Lookup::Track(SpotifyId(1));
    assert!(matches!(lookup.request(), MetadataRequest::Track(SpotifyId(1))));
    let artist = Artist { id: SpotifyId(200), name: "Band".to_string() };
    assert!(!lookup.accepts(&MetadataReply::Artist(artist)));
    let lookup = match lookup.supply(MetadataReply::Track(track(1, true))) {
        LookupProgress::More(lookup) => lookup,
        LookupProgress::Found(_) => panic!("too early"),
    };
    assert!(matches!(lookup.request(), MetadataRequest::Artist(SpotifyId(200))));
    let artist = Artist { id: SpotifyId(200), name: "Band".to_string() };
    let lookup = match lookup.supply(MetadataReply::Artist(artist)) {
        LookupProgress::More(lookup) => lookup,
        LookupProgress::Found(_) => panic!("too early"),
    };
    assert!(matches!(lookup.request(), MetadataRequest::Album(SpotifyId(300))));
    let album = Album { id: SpotifyId(300), name: "Disc".to_string(), covers: vec![] };
    match lookup.supply(MetadataReply::Album(album)) {
        LookupProgress::Found(info) => {
            assert_eq!(info.track.id, SpotifyId(1));
            assert_eq!(info.artist.name, "Band");
            assert_eq!(info.album.name, "Disc");
        }
        LookupProgress::More(_) => panic!("too late"),
    }
}

#[test]
fn messages_escape_names_and_keep_signs() {
    let mut track = track(1, true);
    track.name = "a \"b\" \\ \n \u{e9}".to_string();
    track.duration = -1;
    let info = TrackInfo {
        track,
        artist: Artist { id: SpotifyId(0xab), name: String::new() },
        album: Album {
            id: SpotifyId(u128::MAX),
            name: "x".to_string(),
            covers: vec![FileId([0; 20]), FileId([0x0f; 20]), FileId([0xff; 20])],
        },
    };
    assert_eq!(
        track_id_to_json(SpotifyId(16), &info, u32::MAX),
        "{\"metadata\":{\
         \"album_id\":\"ffffffffffffffffffffffffffffffff\",\
         \"album_name\":\"x\",\
         \"albumartId\":\"0000000000000000000000000000000000000000\",\
         \"albumartId_LARGE\":\"ffffffffffffffffffffffffffffffffffffffff\",\
         \"albumartId_SMALL\":\"0f0f0f0f0f0f0f0f0f0f0f0f0f0f0f0f0f0f0f0f\",\
         \"artist_id\":\"000000000000000000000000000000ab\",\
         \"artist_name\":\"\",\
         \"duration\":-1,\
         \"pos\":4294967295,\
         \"track_id\":\"00000000000000000000000000000010\",\
         \"track_name\":\"a \\\"b\\\" \\\\ \\n \u{e9}\"}}"
    );
}

#[test]
fn numbers_are_written_in_base_ten_and_sixteen() {
    assert_eq!(decimal(0), "0");
    assert_eq!(decimal(10), "10");
    assert_eq!(decimal(u128::MAX), format!("{}", u128::MAX));
    assert_eq!(base16(0xbeef, 4), "beef");
    assert_eq!(base16(0xbeef, 6), "00beef");
    assert_eq!(base16(0x12345, 2), "45");
    assert_eq!(base16(7, 0), "");
    assert_eq!(bytes_base16(&[0, 0x1f, 0xa0]), "001fa0");
    assert_eq!(SpotifyId(0xdead).to_base16(), format!("{:032x}", 0xdead));
    assert!(SpotifyId(1).to_base16() != SpotifyId(2).to_base16());
}
