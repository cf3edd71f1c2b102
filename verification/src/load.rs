//! Loading a track: from its id to a decoder that is ready to play it.
use vstd::prelude::*;

use crate::config::{Bitrate, PlayerConfig};
use crate::metadata::{
    find_available_alternative, first_available, first_available_of, FileFormat, FileId, Lookup,
    LookupProgress, MetadataReply, MetadataRequest, SpotifyId, Track,
};

verus! {

/// Where a file holds the gain of its track, in decibels.
pub const TRACK_GAIN_OFFSET: u64 = 144;

/// Where a file holds the peak of its track; one stands for full scale.
pub const TRACK_PEAK_OFFSET: u64 = 148;

/// Where a file holds the gain of the album, in decibels.
pub const ALBUM_GAIN_OFFSET: u64 = 152;

/// Where a file holds the peak of the album; one stands for full scale.
pub const ALBUM_PEAK_OFFSET: u64 = 156;

/// Where the audio in a file begins.
pub const AUDIO_OFFSET: u64 = 0xa7;

/// The number one, as the bits of a single-precision number.
pub const UNITY: u32 = 0x3f80_0000;

/// A single-precision number as a file holds it: four bytes, the lowest first.
#[derive(Clone, Copy, Debug, PartialEq, Eq, Structural)]
pub struct FloatBytes {
    pub b0: u8,
    pub b1: u8,
    pub b2: u8,
    pub b3: u8,
}

impl FloatBytes {
    /// Four zero bytes.
    pub open spec fn zero() -> FloatBytes {
        FloatBytes { b0: 0, b1: 0, b2: 0, b3: 0 }
    }

    /// The bytes after a read that may come up short: those read take the place of the first
    /// ones, the others stay.
    pub open spec fn overlaid(self, read: Seq<u8>) -> FloatBytes {
        FloatBytes {
            b0: if read.len() > 0 { read[0] } else { self.b0 },
            b1: if read.len() > 1 { read[1] } else { self.b1 },
            b2: if read.len() > 2 { read[2] } else { self.b2 },
            b3: if read.len() > 3 { read[3] } else { self.b3 },
        }
    }

    /// The bits of the number.
    pub open spec fn bits_spec(self) -> int {
        self.b0 + 0x100 * self.b1 + 0x1_0000 * self.b2 + 0x100_0000 * self.b3
    }

    /// Reads into the bytes.
    pub fn overlay(&self, read: &Vec<u8>) -> (bytes: FloatBytes)
        ensures
            bytes == self.overlaid(read@),
    {
        FloatBytes {
            b0: if read.len() > 0 { read[0] } else { self.b0 },
            b1: if read.len() > 1 { read[1] } else { self.b1 },
            b2: if read.len() > 2 { read[2] } else { self.b2 },
            b3: if read.len() > 3 { read[3] } else { self.b3 },
        }
    }

    /// The bits of the number.
    pub fn bits(&self) -> (bits: u32)
        ensures
            bits == self.bits_spec(),
    {
        self.b0 as u32 + 0x100 * (self.b1 as u32) + 0x1_0000 * (self.b2 as u32) + 0x100_0000 * (
        self.b3 as u32)
    }
}

/// What a load needs from outside.
pub enum LoadRequest {
    /// An entry of the catalogue.
    Metadata(MetadataRequest),
    /// The catalogue's entries for several tracks, in that order.
    Tracks(Vec<SpotifyId>),
    /// The key that decrypts a file of a track.
    AudioKey { track: SpotifyId, file: FileId },
    /// The file itself, to be decrypted with that key.
    AudioFile(FileId),
    /// Up to four bytes of the decrypted file, from an offset on.
    Read(u64),
    /// The factor that a gain, a pre-gain and a peak call for. All are the bits of
    /// single-precision numbers.
    Factor { track_gain: u32, pregain: u32, track_peak: u32 },
    /// A decoder for what follows an offset in the decrypted file, moved to a position in
    /// milliseconds. That it cannot be moved is no failure.
    Decoder { offset: u64, position: i64 },
}

/// What came back.
pub enum LoadReply<D> {
    Metadata(MetadataReply),
    Tracks(Vec<Track>),
    AudioKey,
    AudioFile,
    Read(Vec<u8>),
    Factor(u32),
    Decoder(D),
}

/// Where a reply leads a load.
pub enum LoadProgress<D> {
    /// Something else is needed.
    Ask(LoadRequest),
    /// The track is ready. The factor by which its samples are to be multiplied is given as the
    /// bits of a single-precision number.
    Loaded { decoder: D, normalization_factor: u32 },
    /// The track cannot be played.
    Unavailable,
}

/// What a load is waiting for.
pub enum LoadStage {
    /// Entries of the catalogue on the track itself.
    Lookup(Lookup),
    /// The alternatives of a track that cannot be played itself.
    Alternatives,
    /// The key to a file.
    Key(FileId),
    /// The file.
    File,
    /// The track's gain.
    TrackGain,
    /// The track's peak; its gain is known.
    TrackPeak(FloatBytes),
    /// The factor that gain and peak call for.
    Factor,
    /// The album's gain; the factor is known.
    AlbumGain(u32),
    /// The album's peak; the factor is known.
    AlbumPeak(u32),
    /// The decoder; the factor is known.
    Decoder(u32),
    /// Nothing: the load is over.
    Finished,
}

/// A load that is under way.
pub struct TrackLoader {
    pub bitrate: Bitrate,
    pub normalization: bool,
    pub pregain: u32,
    pub position: i64,
    pub stage: LoadStage,
}

/// The format that a bit rate stands for.
pub open spec fn format_of(bitrate: Bitrate) -> FileFormat {
    match bitrate {
        Bitrate::Bitrate96 => FileFormat::OGG_VORBIS_96,
        Bitrate::Bitrate160 => FileFormat::OGG_VORBIS_160,
        Bitrate::Bitrate320 => FileFormat::OGG_VORBIS_320,
    }
}

/// The format that a bit rate stands for.
pub fn file_format(bitrate: Bitrate) -> (format: FileFormat)
    ensures
        format == format_of(bitrate),
{
    match bitrate {
        Bitrate::Bitrate96 => FileFormat::OGG_VORBIS_96,
        Bitrate::Bitrate160 => FileFormat::OGG_VORBIS_160,
        Bitrate::Bitrate320 => FileFormat::OGG_VORBIS_320,
    }
}

impl TrackLoader {
    /// The load at another stage.
    pub open spec fn at(self, stage: LoadStage) -> TrackLoader {
        TrackLoader { stage, ..self }
    }

    /// A lookup in progress is sound.
    pub open spec fn wf(self) -> bool {
        self.stage matches LoadStage::Lookup(lookup) ==> lookup.wf()
    }

    /// A load of a track, from a position in milliseconds, as the settings ask. The track is
    /// looked up first.
    pub open spec fn beginning(config: PlayerConfig, track_id: SpotifyId, position: i64)
        -> TrackLoader {
        TrackLoader {
            bitrate: config.bitrate,
            normalization: config.normalization,
            pregain: config.normalization_pregain,
            position,
            stage: LoadStage::Lookup(Lookup::Track(track_id)),
        }
    }

    /// Whether a reply is what the load is waiting for.
    pub open spec fn answered_by<D>(self, reply: LoadReply<D>) -> bool {
        match self.stage {
            LoadStage::Lookup(lookup) => reply matches LoadReply::Metadata(reply)
                && lookup.answered_by(reply),
            LoadStage::Alternatives => reply is Tracks,
            LoadStage::Key(_) => reply is AudioKey,
            LoadStage::File => reply is AudioFile,
            LoadStage::TrackGain => reply is Read,
            LoadStage::TrackPeak(_) => reply is Read,
            LoadStage::Factor => reply is Factor,
            LoadStage::AlbumGain(_) => reply is Read,
            LoadStage::AlbumPeak(_) => reply is Read,
            LoadStage::Decoder(_) => reply is Decoder,
            LoadStage::Finished => false,
        }
    }

    /// Where a track leads that can be played: to the key of its file in the format that the bit
    /// rate stands for, or to the end where it has none.
    pub open spec fn chosen<D>(self, track: Track) -> (TrackLoader, LoadProgress<D>) {
        let format = format_of(self.bitrate);
        if track.files@.dom().contains(format) {
            let file = track.files@[format];
            (
                self.at(LoadStage::Key(file)),
                LoadProgress::Ask(LoadRequest::AudioKey { track: track.id, file }),
            )
        } else {
            (self.at(LoadStage::Finished), LoadProgress::Unavailable)
        }
    }

    /// Where a known factor leads once nothing else is to be read: to the decoder.
    pub open spec fn ready<D>(self, factor: u32) -> (TrackLoader, LoadProgress<D>) {
        (
            self.at(LoadStage::Decoder(factor)),
            LoadProgress::Ask(
                LoadRequest::Decoder { offset: AUDIO_OFFSET, position: self.position },
            ),
        )
    }

    /// Where a reply leads.
    pub open spec fn after<D>(self, reply: LoadReply<D>) -> (TrackLoader, LoadProgress<D>)
        recommends
            self.answered_by(reply),
    {
        match self.stage {
            LoadStage::Lookup(lookup) => match lookup.after(reply->Metadata_0) {
                LookupProgress::More(next) => (
                    self.at(LoadStage::Lookup(next)),
                    LoadProgress::Ask(LoadRequest::Metadata(next.question())),
                ),
                LookupProgress::Found(info) => if info.track.available {
                    self.chosen(info.track)
                } else {
                    (
                        self.at(LoadStage::Alternatives),
                        LoadProgress::Ask(LoadRequest::Tracks(info.track.alternatives)),
                    )
                },
            },
            LoadStage::Alternatives => match first_available_of(reply->Tracks_0@) {
                Some(track) => self.chosen(track),
                None => (self.at(LoadStage::Finished), LoadProgress::Unavailable),
            },
            LoadStage::Key(file) => (
                self.at(LoadStage::File),
                LoadProgress::Ask(LoadRequest::AudioFile(file)),
            ),
            LoadStage::File => if self.normalization {
                (
                    self.at(LoadStage::TrackGain),
                    LoadProgress::Ask(LoadRequest::Read(TRACK_GAIN_OFFSET)),
                )
            } else {
                self.ready(UNITY)
            },
            LoadStage::TrackGain => (
                self.at(LoadStage::TrackPeak(FloatBytes::zero().overlaid(reply->Read_0@))),
                LoadProgress::Ask(LoadRequest::Read(TRACK_PEAK_OFFSET)),
            ),
            LoadStage::TrackPeak(gain) => (
                self.at(LoadStage::Factor),
                LoadProgress::Ask(
                    LoadRequest::Factor {
                        track_gain: gain.bits_spec() as u32,
                        pregain: self.pregain,
                        track_peak: gain.overlaid(reply->Read_0@).bits_spec() as u32,
                    },
                ),
            ),
            LoadStage::Factor => (
                self.at(LoadStage::AlbumGain(reply->Factor_0)),
                LoadProgress::Ask(LoadRequest::Read(ALBUM_GAIN_OFFSET)),
            ),
            LoadStage::AlbumGain(factor) => (
                self.at(LoadStage::AlbumPeak(factor)),
                LoadProgress::Ask(LoadRequest::Read(ALBUM_PEAK_OFFSET)),
            ),
            LoadStage::AlbumPeak(factor) => self.ready(factor),
            LoadStage::Decoder(factor) => (
                self.at(LoadStage::Finished),
                LoadProgress::Loaded {
                    decoder: reply->Decoder_0,
                    normalization_factor: factor,
                },
            ),
            LoadStage::Finished => (self, LoadProgress::Unavailable),
        }
    }

    /// Begins to load a track.
    pub fn new(config: &PlayerConfig, track_id: SpotifyId, position: i64) -> (started: (
        TrackLoader,
        LoadRequest,
    ))
        ensures
            started.0 == TrackLoader::beginning(*config, track_id, position),
            started.1 == LoadRequest::Metadata(MetadataRequest::Track(track_id)),
            started.0.wf(),
    {
        let loader = TrackLoader {
            bitrate: config.bitrate,
            normalization: config.normalization,
            pregain: config.normalization_pregain,
            position,
            stage: LoadStage::Lookup(Lookup::Track(track_id)),
        };
        (loader, LoadRequest::Metadata(MetadataRequest::Track(track_id)))
    }

    /// Whether a reply can be taken.
    pub fn accepts<D>(&self, reply: &LoadReply<D>) -> (accepted: bool)
        ensures
            accepted == self.answered_by(*reply),
    {
        match (&self.stage, reply) {
            (LoadStage::Lookup(lookup), LoadReply::Metadata(reply)) => lookup.accepts(reply),
            (LoadStage::Alternatives, LoadReply::Tracks(_)) => true,
            (LoadStage::Key(_), LoadReply::AudioKey) => true,
            (LoadStage::File, LoadReply::AudioFile) => true,
            (LoadStage::TrackGain, LoadReply::Read(_)) => true,
            (LoadStage::TrackPeak(_), LoadReply::Read(_)) => true,
            (LoadStage::Factor, LoadReply::Factor(_)) => true,
            (LoadStage::AlbumGain(_), LoadReply::Read(_)) => true,
            (LoadStage::AlbumPeak(_), LoadReply::Read(_)) => true,
            (LoadStage::Decoder(_), LoadReply::Decoder(_)) => true,
            _ => false,
        }
    }

    /// Goes on with a track that can be played.
    fn choose_file<D>(&mut self, track: Track) -> (progress: LoadProgress<D>)
        ensures
            (*final(self), progress) == old(self).chosen::<D>(track),
    {
        match track.files.get(file_format(self.bitrate)) {
            Some(file) => {
                self.stage = LoadStage::Key(file);
                LoadProgress::Ask(LoadRequest::AudioKey { track: track.id, file })
            },
            None => {
                self.stage = LoadStage::Finished;
                LoadProgress::Unavailable
            },
        }
    }

    /// Goes on to the decoder.
    fn open_decoder<D>(&mut self, factor: u32) -> (progress: LoadProgress<D>)
        ensures
            (*final(self), progress) == old(self).ready::<D>(factor),
    {
        self.stage = LoadStage::Decoder(factor);
        LoadProgress::Ask(LoadRequest::Decoder { offset: AUDIO_OFFSET, position: self.position })
    }

    /// Takes a reply.
    pub fn supply<D>(&mut self, reply: LoadReply<D>) -> (progress: LoadProgress<D>)
        requires
            old(self).wf(),
            old(self).answered_by(reply),
        ensures
            (*final(self), progress) == old(self).after(reply),
            final(self).wf(),
    {
        let mut stage = LoadStage::Finished;
        std::mem::swap(&mut stage, &mut self.stage);
        match (stage, reply) {
            (LoadStage::Lookup(lookup), LoadReply::Metadata(reply)) => match lookup.supply(reply) {
                LookupProgress::More(next) => {
                    let request = next.request();
                    self.stage = LoadStage::Lookup(next);
                    LoadProgress::Ask(LoadRequest::Metadata(request))
                },
                LookupProgress::Found(info) => match find_available_alternative(info.track) {
                    Ok(track) => self.choose_file(track),
                    Err(alternatives) => {
                        self.stage = LoadStage::Alternatives;
                        LoadProgress::Ask(LoadRequest::Tracks(alternatives))
                    },
                },
            },
            (LoadStage::Alternatives, LoadReply::Tracks(tracks)) => match first_available(tracks) {
                Some(track) => self.choose_file(track),
                None => LoadProgress::Unavailable,
            },
            (LoadStage::Key(file), LoadReply::AudioKey) => {
                self.stage = LoadStage::File;
                LoadProgress::Ask(LoadRequest::AudioFile(file))
            },
            (LoadStage::File, LoadReply::AudioFile) => {
                if self.normalization {
                    self.stage = LoadStage::TrackGain;
                    LoadProgress::Ask(LoadRequest::Read(TRACK_GAIN_OFFSET))
                } else {
                    self.open_decoder(UNITY)
                }
            },
            (LoadStage::TrackGain, LoadReply::Read(read)) => {
                let zero = FloatBytes { b0: 0, b1: 0, b2: 0, b3: 0 };
                self.stage = LoadStage::TrackPeak(zero.overlay(&read));
                LoadProgress::Ask(LoadRequest::Read(TRACK_PEAK_OFFSET))
            },
            (LoadStage::TrackPeak(gain), LoadReply::Read(read)) => {
                self.stage = LoadStage::Factor;
                LoadProgress::Ask(
                    LoadRequest::Factor {
                        track_gain: gain.bits(),
                        pregain: self.pregain,
                        track_peak: gain.overlay(&read).bits(),
                    },
                )
            },
            (LoadStage::Factor, LoadReply::Factor(factor)) => {
                self.stage = LoadStage::AlbumGain(factor);
                LoadProgress::Ask(LoadRequest::Read(ALBUM_GAIN_OFFSET))
            },
            (LoadStage::AlbumGain(factor), LoadReply::Read(_)) => {
                self.stage = LoadStage::AlbumPeak(factor);
                LoadProgress::Ask(LoadRequest::Read(ALBUM_PEAK_OFFSET))
            },
            (LoadStage::AlbumPeak(factor), LoadReply::Read(_)) => self.open_decoder(factor),
            (LoadStage::Decoder(factor), LoadReply::Decoder(decoder)) => LoadProgress::Loaded {
                decoder,
                normalization_factor: factor,
            },
            _ => LoadProgress::Unavailable,
        }
    }
}

} // verus!
