//! What holds of every load.
use vstd::arithmetic::div_mod::{lemma_div_denominator, lemma_fundamental_div_mod_converse};
use vstd::prelude::*;

use crate::config::{Bitrate, PlayerConfig};
use crate::load::{
    format_of, FloatBytes, LoadProgress, LoadReply, LoadRequest, LoadStage, TrackLoader,
    AUDIO_OFFSET, TRACK_GAIN_OFFSET, TRACK_PEAK_OFFSET, UNITY,
};
use crate::metadata::{
    first_available_of, the_first_available_is_picked, Album, Artist, FileFormat, FileId, Lookup,
    MetadataReply, MetadataRequest, SpotifyId, Track,
};

verus! {

/// How many replies a load takes at most from a stage on.
pub open spec fn replies_left(stage: LoadStage) -> nat {
    match stage {
        LoadStage::Lookup(Lookup::Track(_)) => 12,
        LoadStage::Lookup(Lookup::Artist(_)) => 11,
        LoadStage::Lookup(Lookup::Album(_, _)) => 10,
        LoadStage::Alternatives => 9,
        LoadStage::Key(_) => 8,
        LoadStage::File => 7,
        LoadStage::TrackGain => 6,
        LoadStage::TrackPeak(_) => 5,
        LoadStage::Factor => 4,
        LoadStage::AlbumGain(_) => 3,
        LoadStage::AlbumPeak(_) => 2,
        LoadStage::Decoder(_) => 1,
        LoadStage::Finished => 0,
    }
}

/// Every reply brings a load nearer to its end: it is over after twelve at most, and over only
/// once the track is loaded or known to be unavailable.
pub proof fn loads_come_to_an_end<D>(loader: TrackLoader, reply: LoadReply<D>)
    requires
        loader.answered_by(reply),
    ensures
        replies_left(loader.after(reply).0.stage) < replies_left(loader.stage),
        loader.after(reply).0.stage is Finished <==> !(loader.after(reply).1 is Ask),
{
}

/// What the audio of a load comes from: the track and the file that the key was asked for, and
/// the file that was opened with it.
pub ghost struct AudioSource {
    pub track: SpotifyId,
    pub key_file: FileId,
    pub file: FileId,
}

impl AudioSource {
    /// The source once a request was met.
    pub open spec fn after(self, request: LoadRequest) -> AudioSource {
        match request {
            LoadRequest::AudioKey { track, file } => AudioSource { track, key_file: file, ..self },
            LoadRequest::AudioFile(file) => AudioSource { file, ..self },
            _ => self,
        }
    }
}

/// What a load meets with outside: what the catalogue holds, what a source holds at an offset,
/// what factor three numbers call for, and what decoder the source gets from an offset on, moved
/// to a position.
pub ghost struct Surroundings<D> {
    pub track: spec_fn(SpotifyId) -> Track,
    pub artist: spec_fn(SpotifyId) -> Artist,
    pub album: spec_fn(SpotifyId) -> Album,
    pub tracks: spec_fn(Vec<SpotifyId>) -> Vec<Track>,
    pub read: spec_fn(AudioSource, u64) -> Vec<u8>,
    pub factor: spec_fn(u32, u32, u32) -> u32,
    pub decoder: spec_fn(AudioSource, u64, i64) -> D,
}

impl<D> Surroundings<D> {
    /// The entries for several tracks are those for each of them.
    pub open spec fn wf(self) -> bool {
        forall|ids: Vec<SpotifyId>|
            (#[trigger] (self.tracks)(ids))@ == ids@.map_values(|id: SpotifyId| (self.track)(id))
    }

    /// The reply to a request, where the audio comes from a source.
    pub open spec fn reply(self, source: AudioSource, request: LoadRequest) -> LoadReply<D> {
        match request {
            LoadRequest::Metadata(MetadataRequest::Track(id)) => LoadReply::Metadata(
                MetadataReply::Track((self.track)(id)),
            ),
            LoadRequest::Metadata(MetadataRequest::Artist(id)) => LoadReply::Metadata(
                MetadataReply::Artist((self.artist)(id)),
            ),
            LoadRequest::Metadata(MetadataRequest::Album(id)) => LoadReply::Metadata(
                MetadataReply::Album((self.album)(id)),
            ),
            LoadRequest::Tracks(ids) => LoadReply::Tracks((self.tracks)(ids)),
            LoadRequest::AudioKey { .. } => LoadReply::AudioKey,
            LoadRequest::AudioFile(_) => LoadReply::AudioFile,
            LoadRequest::Read(offset) => LoadReply::Read((self.read)(source, offset)),
            LoadRequest::Factor { track_gain, pregain, track_peak } => LoadReply::Factor(
                (self.factor)(track_gain, pregain, track_peak),
            ),
            LoadRequest::Decoder { offset, position } => LoadReply::Decoder(
                (self.decoder)(source, offset, position),
            ),
        }
    }
}

/// A load with its open request, and what its audio comes from so far.
pub ghost struct LoadRun<D> {
    pub loader: TrackLoader,
    pub request: LoadRequest,
    pub source: AudioSource,
    pub surroundings: Surroundings<D>,
}

impl<D> LoadRun<D> {
    /// A load from its beginning on.
    pub open spec fn beginning(
        config: PlayerConfig,
        id: SpotifyId,
        position: i64,
        source: AudioSource,
        surroundings: Surroundings<D>,
    ) -> LoadRun<D> {
        LoadRun {
            loader: TrackLoader::beginning(config, id, position),
            request: LoadRequest::Metadata(MetadataRequest::Track(id)),
            source,
            surroundings,
        }
    }

    /// Where the reply to the open request leads the load.
    pub open spec fn replied(self) -> (TrackLoader, LoadProgress<D>) {
        self.loader.after(self.surroundings.reply(self.source, self.request))
    }

    /// The load with its next request.
    pub open spec fn next(self) -> LoadRun<D> {
        LoadRun {
            loader: self.replied().0,
            request: self.replied().1->Ask_0,
            source: self.source.after(self.request),
            ..self
        }
    }

    /// Where the load is after some replies at most.
    pub open spec fn progress(self, replies: nat) -> LoadProgress<D>
        decreases replies,
    {
        if replies == 0 {
            LoadProgress::Ask(self.request)
        } else if self.replied().1 is Ask {
            self.next().progress((replies - 1) as nat)
        } else {
            self.replied().1
        }
    }

    /// The keys that are asked for until some replies came at most: of which track, to which
    /// file.
    pub open spec fn keys_asked(self, replies: nat) -> Seq<(SpotifyId, FileId)>
        decreases replies,
    {
        if replies == 0 {
            seq![]
        } else {
            let here = match self.request {
                LoadRequest::AudioKey { track, file } => seq![(track, file)],
                _ => seq![],
            };
            if self.replied().1 is Ask {
                here + self.next().keys_asked((replies - 1) as nat)
            } else {
                here
            }
        }
    }

    /// All that is asked for until some replies came at most, in order.
    pub open spec fn asked(self, replies: nat) -> Seq<LoadRequest>
        decreases replies,
    {
        if replies == 0 {
            seq![]
        } else if self.replied().1 is Ask {
            seq![self.request] + self.next().asked((replies - 1) as nat)
        } else {
            seq![self.request]
        }
    }

    /// The files that are asked for until some replies came at most.
    pub open spec fn files_asked(self, replies: nat) -> Seq<FileId>
        decreases replies,
    {
        if replies == 0 {
            seq![]
        } else {
            let here = match self.request {
                LoadRequest::AudioFile(file) => seq![file],
                _ => seq![],
            };
            if self.replied().1 is Ask {
                here + self.next().files_asked((replies - 1) as nat)
            } else {
                here
            }
        }
    }
}

/// The track that is played for an id: its own where that can be played, else the first of its
/// alternatives that can.
pub open spec fn playable<D>(id: SpotifyId, surroundings: Surroundings<D>) -> Option<Track> {
    let track = (surroundings.track)(id);
    if track.available {
        Some(track)
    } else {
        first_available_of(
            track.alternatives@.map_values(|id: SpotifyId| (surroundings.track)(id)),
        )
    }
}

/// The source of the audio that is played for an id: the file of the playable track in the
/// format that the bit rate stands for, with the key to that file of that track.
pub open spec fn source_for<D>(
    config: PlayerConfig,
    id: SpotifyId,
    surroundings: Surroundings<D>,
) -> Option<AudioSource> {
    let format = format_of(config.bitrate);
    match playable(id, surroundings) {
        Some(track) => if track.files@.dom().contains(format) {
            let file = track.files@[format];
            Some(AudioSource { track: track.id, key_file: file, file })
        } else {
            None
        },
        None => None,
    }
}

/// The factor for a source: one, unless loudness is evened out, when it is the one that the
/// track's gain, the pre-gain and the track's peak call for. What a read of the peak leaves out
/// is as the gain has it, and what a read of the gain leaves out is zero.
pub open spec fn factor_of<D>(
    config: PlayerConfig,
    source: AudioSource,
    surroundings: Surroundings<D>,
) -> u32 {
    let gain = FloatBytes::zero().overlaid((surroundings.read)(source, TRACK_GAIN_OFFSET)@);
    let peak = gain.overlaid((surroundings.read)(source, TRACK_PEAK_OFFSET)@);
    if config.normalization {
        (surroundings.factor)(
            gain.bits_spec() as u32,
            config.normalization_pregain,
            peak.bits_spec() as u32,
        )
    } else {
        UNITY
    }
}

/// A load gives a decoder for the audio of the playable track, at the position asked for, with
/// the factor for its file. It fails exactly where no track is playable or the one that is has
/// no file in the format that the bit rate stands for. Whatever the source was taken to be
/// before, one key is asked for, that of the playable track to its file, and one file, that one;
/// a load that fails asks for neither.
pub proof fn loads_give_the_playable_track<D>(
    config: PlayerConfig,
    id: SpotifyId,
    position: i64,
    before: AudioSource,
    surroundings: Surroundings<D>,
)
    requires
        surroundings.wf(),
        (surroundings.track)(id).artists@.len() > 0,
    ensures
        ({
            let run = LoadRun::beginning(config, id, position, before, surroundings);
            match source_for(config, id, surroundings) {
                Some(source) => {
                    &&& run.progress(12) == LoadProgress::Loaded {
                        decoder: (surroundings.decoder)(source, AUDIO_OFFSET, position),
                        normalization_factor: factor_of(config, source, surroundings),
                    }
                    &&& run.keys_asked(12) == seq![(source.track, source.file)]
                    &&& run.files_asked(12) == seq![source.file]
                },
                None => {
                    &&& run.progress(12) == LoadProgress::<D>::Unavailable
                    &&& run.keys_asked(12) == Seq::<(SpotifyId, FileId)>::empty()
                    &&& run.files_asked(12) == Seq::<FileId>::empty()
                },
            }
        }),
{
    let run = LoadRun::beginning(config, id, position, before, surroundings);
    lemma_other_request(run, 12);
    lemma_other_request(run.next(), 11);
    lemma_other_request(run.next().next(), 10);
    let looked_up = run.next().next();
    let key = if (surroundings.track)(id).available {
        looked_up.next()
    } else {
        lemma_other_request(looked_up.next(), 9);
        looked_up.next().next()
    };
    match source_for(config, id, surroundings) {
        Some(source) => {
            lemma_key_leads_to_decoder(config, key, source, 8);
            lemma_key_leads_to_decoder(config, key, source, 9);
        },
        None => {},
    }
}

/// A request that is not for audio adds nothing to what is asked for.
proof fn lemma_other_request<D>(run: LoadRun<D>, replies: nat)
    requires
        replies > 0,
        !(run.request is AudioKey),
        !(run.request is AudioFile),
    ensures
        run.replied().1 is Ask ==> {
            &&& run.progress(replies) == run.next().progress((replies - 1) as nat)
            &&& run.keys_asked(replies) == run.next().keys_asked((replies - 1) as nat)
            &&& run.files_asked(replies) == run.next().files_asked((replies - 1) as nat)
        },
        !(run.replied().1 is Ask) ==> {
            &&& run.progress(replies) == run.replied().1
            &&& run.keys_asked(replies) == Seq::<(SpotifyId, FileId)>::empty()
            &&& run.files_asked(replies) == Seq::<FileId>::empty()
        },
{
    assert(Seq::<(SpotifyId, FileId)>::empty() + run.next().keys_asked((replies - 1) as nat)
        =~= run.next().keys_asked((replies - 1) as nat));
    assert(Seq::<FileId>::empty() + run.next().files_asked((replies - 1) as nat)
        =~= run.next().files_asked((replies - 1) as nat));
}

/// From the key to a file on, a load gives the decoder for that file.
proof fn lemma_key_leads_to_decoder<D>(
    config: PlayerConfig,
    run: LoadRun<D>,
    source: AudioSource,
    replies: nat,
)
    requires
        run.loader.normalization == config.normalization,
        run.loader.pregain == config.normalization_pregain,
        run.loader.stage == LoadStage::Key(source.file),
        run.request == (LoadRequest::AudioKey { track: source.track, file: source.key_file }),
        replies >= 8,
    ensures
        run.progress(replies) == (LoadProgress::Loaded {
            decoder: (run.surroundings.decoder)(source, AUDIO_OFFSET, run.loader.position),
            normalization_factor: factor_of(config, source, run.surroundings),
        }),
        run.keys_asked(replies) == seq![(source.track, source.key_file)],
        run.files_asked(replies) == seq![source.file],
{
    let file = run.next();
    lemma_file_leads_to_decoder(config, file, source, (replies - 1) as nat);
    assert(seq![(source.track, source.key_file)] + Seq::<(SpotifyId, FileId)>::empty() =~= seq![
        (source.track, source.key_file),
    ]);
    assert(Seq::<FileId>::empty() + seq![source.file] =~= seq![source.file]);
}

/// From the file on, a load gives the decoder for it.
proof fn lemma_file_leads_to_decoder<D>(
    config: PlayerConfig,
    run: LoadRun<D>,
    source: AudioSource,
    replies: nat,
)
    requires
        run.loader.normalization == config.normalization,
        run.loader.pregain == config.normalization_pregain,
        run.loader.stage is File,
        run.request == LoadRequest::AudioFile(source.file),
        run.source.track == source.track,
        run.source.key_file == source.key_file,
        replies >= 7,
    ensures
        run.progress(replies) == (LoadProgress::Loaded {
            decoder: (run.surroundings.decoder)(source, AUDIO_OFFSET, run.loader.position),
            normalization_factor: factor_of(config, source, run.surroundings),
        }),
        run.keys_asked(replies) == Seq::<(SpotifyId, FileId)>::empty(),
        run.files_asked(replies) == seq![source.file],
{
    let opened = run.next();
    lemma_other_request(opened, (replies - 1) as nat);
    if run.loader.normalization {
        let peak = opened.next();
        lemma_other_request(peak, (replies - 2) as nat);
        let factor = peak.next();
        lemma_other_request(factor, (replies - 3) as nat);
        let album_gain = factor.next();
        lemma_other_request(album_gain, (replies - 4) as nat);
        let album_peak = album_gain.next();
        lemma_other_request(album_peak, (replies - 5) as nat);
        let decoder = album_peak.next();
        lemma_other_request(decoder, (replies - 6) as nat);
    }
    assert(Seq::<(SpotifyId, FileId)>::empty() + Seq::<(SpotifyId, FileId)>::empty()
        =~= Seq::<(SpotifyId, FileId)>::empty());
    assert(seq![source.file] + Seq::<FileId>::empty() =~= seq![source.file]);
}

/// The bits of a number hold its four bytes, the lowest first.
pub proof fn bits_hold_the_bytes(bytes: FloatBytes)
    ensures
        0 <= bytes.bits_spec() <= u32::MAX,
        bytes.bits_spec() % 0x100 == bytes.b0,
        bytes.bits_spec() / 0x100 % 0x100 == bytes.b1,
        bytes.bits_spec() / 0x1_0000 % 0x100 == bytes.b2,
        bytes.bits_spec() / 0x100_0000 == bytes.b3,
{
    let bits = bytes.bits_spec();
    let above = bytes.b1 + 0x100 * bytes.b2 + 0x1_0000 * bytes.b3;
    let high = bytes.b2 + 0x100 * bytes.b3;
    lemma_fundamental_div_mod_converse(bits, 0x100, above, bytes.b0 as int);
    lemma_fundamental_div_mod_converse(above, 0x100, high, bytes.b1 as int);
    lemma_fundamental_div_mod_converse(high, 0x100, bytes.b3 as int, bytes.b2 as int);
    lemma_div_denominator(bits, 0x100, 0x100);
    lemma_div_denominator(bits, 0x1_0000, 0x100);
}

/// What a row of four bytes holds after a read: what was read, and behind it what was there.
pub open spec fn read_into(bytes: Seq<u8>, read: Seq<u8>) -> Seq<u8> {
    Seq::new(
        4,
        |i: int|
            if i < read.len() {
                read[i]
            } else {
                bytes[i]
            },
    )
}

/// The number that four bytes stand for, the lowest first.
pub open spec fn number_in(bytes: Seq<u8>) -> int {
    bytes[0] + 0x100 * (bytes[1] + 0x100 * (bytes[2] + 0x100 * bytes[3]))
}

/// A read fills the bytes from the first one on and leaves the others, and the bits that come out
/// are the number that the bytes stand for.
pub proof fn reads_fill_from_the_front(bytes: FloatBytes, read: Seq<u8>)
    ensures
        ({
            let before = seq![bytes.b0, bytes.b1, bytes.b2, bytes.b3];
            let after = bytes.overlaid(read);
            &&& seq![after.b0, after.b1, after.b2, after.b3] == read_into(before, read)
            &&& bytes.bits_spec() == number_in(before)
            &&& after.bits_spec() == number_in(read_into(before, read))
        }),
{
    let before = seq![bytes.b0, bytes.b1, bytes.b2, bytes.b3];
    let after = bytes.overlaid(read);
    assert(seq![after.b0, after.b1, after.b2, after.b3] =~= read_into(before, read));
}

/// Four bytes that nothing was read into are zero.
pub proof fn nothing_read_is_zero()
    ensures
        FloatBytes::zero().bits_spec() == 0,
        FloatBytes::zero() == (FloatBytes { b0: 0, b1: 0, b2: 0, b3: 0 }),
{
}

/// Each bit rate stands for the format of that rate.
pub proof fn formats_follow_the_bit_rate(bitrate: Bitrate)
    ensures
        bitrate == Bitrate::Bitrate96 <==> format_of(bitrate) == FileFormat::OGG_VORBIS_96,
        bitrate == Bitrate::Bitrate160 <==> format_of(bitrate) == FileFormat::OGG_VORBIS_160,
        bitrate == Bitrate::Bitrate320 <==> format_of(bitrate) == FileFormat::OGG_VORBIS_320,
{
}

/// Whether a track is the one to be played for an id: the track of that id where it can be
/// played, else the alternative to it that can be and has none before it that can.
pub open spec fn stands_for<D>(
    track: Track,
    id: SpotifyId,
    surroundings: Surroundings<D>,
) -> bool {
    let own = (surroundings.track)(id);
    if own.available {
        track == own
    } else {
        exists|i: int|
            0 <= i < own.alternatives@.len() && track == #[trigger] (surroundings.track)(
                own.alternatives@[i],
            ) && track.available && (forall|j: int|
                0 <= j < i ==> !(#[trigger] (surroundings.track)(own.alternatives@[j])).available)
    }
}

/// Whether no track can be played for an id: neither its own nor any alternative to it.
pub open spec fn nothing_stands_for<D>(id: SpotifyId, surroundings: Surroundings<D>) -> bool {
    let own = (surroundings.track)(id);
    &&& !own.available
    &&& forall|i: int|
        0 <= i < own.alternatives@.len() ==> !(#[trigger] (surroundings.track)(
            own.alternatives@[i],
        )).available
}

proof fn lemma_playable_stands<D>(track: Track, id: SpotifyId, surroundings: Surroundings<D>)
    ensures
        stands_for(track, id, surroundings) ==> playable(id, surroundings) == Some(track),
        nothing_stands_for(id, surroundings) ==> playable(id, surroundings) is None,
{
    let own = (surroundings.track)(id);
    let row = own.alternatives@.map_values(|id: SpotifyId| (surroundings.track)(id));
    the_first_available_is_picked(row);
    if !own.available && stands_for(track, id, surroundings) {
        let i = choose|i: int|
            0 <= i < own.alternatives@.len() && track == #[trigger] (surroundings.track)(
                own.alternatives@[i],
            ) && track.available && (forall|j: int|
                0 <= j < i ==> !(#[trigger] (surroundings.track)(own.alternatives@[j])).available);
        assert(row[i] == track);
        assert forall|j: int| 0 <= j < i implies !(#[trigger] row[j]).available by {
            assert(!(surroundings.track)(own.alternatives@[j]).available);
        }
    }
    if nothing_stands_for(id, surroundings) {
        assert forall|i: int| 0 <= i < row.len() implies !(#[trigger] row[i]).available by {
            assert(!(surroundings.track)(own.alternatives@[i]).available);
        }
    }
}

/// What a load asks for first: the track, its first artist, its album, and where the track cannot
/// be played its alternatives.
pub open spec fn first_requests<D>(
    id: SpotifyId,
    surroundings: Surroundings<D>,
) -> Seq<LoadRequest> {
    let own = (surroundings.track)(id);
    seq![
        LoadRequest::Metadata(MetadataRequest::Track(id)),
        LoadRequest::Metadata(MetadataRequest::Artist(own.artists@[0])),
        LoadRequest::Metadata(MetadataRequest::Album(own.album)),
    ] + (if own.available {
        seq![]
    } else {
        seq![LoadRequest::Tracks(own.alternatives)]
    })
}

proof fn lemma_asked<D>(run: LoadRun<D>, replies: nat)
    requires
        replies > 0,
    ensures
        run.replied().1 is Ask ==> run.asked(replies) == seq![run.request] + run.next().asked(
            (replies - 1) as nat,
        ),
        !(run.replied().1 is Ask) ==> run.asked(replies) == seq![run.request],
{
}

/// What a load reads of an opened source where loudness is evened out: gain and peak of the
/// track, the factor that they call for, then gain and peak of the album. The number in the file
/// is four bytes, the lowest first; a gain that is cut short is filled up with zeros, and a peak
/// that is cut short with what stood there of the gain.
pub open spec fn loudness_requests(gain: Seq<u8>, peak: Seq<u8>, pregain: u32) -> Seq<LoadRequest> {
    let first = read_into(seq![0, 0, 0, 0], gain);
    let second = read_into(first, peak);
    seq![
        LoadRequest::Read(144),
        LoadRequest::Read(148),
        LoadRequest::Factor {
            track_gain: number_in(first) as u32,
            pregain,
            track_peak: number_in(second) as u32,
        },
        LoadRequest::Read(152),
        LoadRequest::Read(156),
    ]
}

proof fn lemma_loudness<D>(source: AudioSource, surroundings: Surroundings<D>, pregain: u32)
    ensures
        ({
            let gain = (surroundings.read)(source, 144)@;
            let peak = (surroundings.read)(source, 148)@;
            let bytes = FloatBytes::zero().overlaid(gain);
            loudness_requests(gain, peak, pregain)[2] == (LoadRequest::Factor {
                track_gain: bytes.bits_spec() as u32,
                pregain,
                track_peak: bytes.overlaid(peak).bits_spec() as u32,
            })
        }),
{
    let gain = (surroundings.read)(source, 144)@;
    let peak = (surroundings.read)(source, 148)@;
    let zero = FloatBytes::zero();
    let bytes = zero.overlaid(gain);
    reads_fill_from_the_front(zero, gain);
    reads_fill_from_the_front(bytes, peak);
    assert(seq![zero.b0, zero.b1, zero.b2, zero.b3] =~= seq![0u8, 0u8, 0u8, 0u8]);
}

proof fn lemma_key_asks<D>(run: LoadRun<D>, source: AudioSource, replies: nat)
    requires
        run.loader.stage == LoadStage::Key(source.file),
        run.request == (LoadRequest::AudioKey { track: source.track, file: source.key_file }),
        replies >= 8,
    ensures
        run.asked(replies) == seq![
            LoadRequest::AudioKey { track: source.track, file: source.key_file },
            LoadRequest::AudioFile(source.file),
        ] + (if run.loader.normalization {
            loudness_requests(
                (run.surroundings.read)(source, 144)@,
                (run.surroundings.read)(source, 148)@,
                run.loader.pregain,
            )
        } else {
            seq![]
        }) + seq![LoadRequest::Decoder { offset: 167, position: run.loader.position }],
{
    let file = run.next();
    let opened = file.next();
    lemma_asked(run, replies);
    lemma_asked(file, (replies - 1) as nat);
    lemma_asked(opened, (replies - 2) as nat);
    if run.loader.normalization {
        let peak = opened.next();
        let factor = peak.next();
        let album_gain = factor.next();
        let album_peak = album_gain.next();
        let decoder = album_peak.next();
        lemma_loudness(source, run.surroundings, run.loader.pregain);
        lemma_asked(peak, (replies - 3) as nat);
        lemma_asked(factor, (replies - 4) as nat);
        lemma_asked(album_gain, (replies - 5) as nat);
        lemma_asked(album_peak, (replies - 6) as nat);
        lemma_asked(decoder, (replies - 7) as nat);
        let reads = loudness_requests(
            (run.surroundings.read)(source, 144)@,
            (run.surroundings.read)(source, 148)@,
            run.loader.pregain,
        );
        assert(opened.source == source);
        assert(peak.source == source);
        assert(factor.request == reads[2]);
        assert(run.asked(replies) =~= seq![run.request, file.request] + reads + seq![
            decoder.request,
        ]);
    } else {
        assert(run.asked(replies) =~= seq![run.request, file.request] + Seq::empty() + seq![
            opened.request,
        ]);
    }
}

/// A load plays the track that stands for the id, and asks for what that takes and nothing else:
/// the entries of the catalogue, the key to the track's file in the format of the bit rate, that
/// file, its loudness where it is to be evened out, and a decoder for what follows the first 167
/// bytes, at the position. A track without such a file is not played, and no key is asked for.
pub proof fn loads_play_what_stands_for_the_id<D>(
    config: PlayerConfig,
    id: SpotifyId,
    position: i64,
    before: AudioSource,
    surroundings: Surroundings<D>,
    track: Track,
)
    requires
        surroundings.wf(),
        (surroundings.track)(id).artists@.len() > 0,
        stands_for(track, id, surroundings),
    ensures
        ({
            let run = LoadRun::beginning(config, id, position, before, surroundings);
            let format = match config.bitrate {
                Bitrate::Bitrate96 => FileFormat::OGG_VORBIS_96,
                Bitrate::Bitrate160 => FileFormat::OGG_VORBIS_160,
                Bitrate::Bitrate320 => FileFormat::OGG_VORBIS_320,
            };
            let file = track.files@[format];
            let source = AudioSource { track: track.id, key_file: file, file };
            let loudness = loudness_requests(
                (surroundings.read)(source, 144)@,
                (surroundings.read)(source, 148)@,
                config.normalization_pregain,
            );
            let factor = loudness[2];
            if track.files@.dom().contains(format) {
                &&& run.progress(12) == LoadProgress::Loaded {
                    decoder: (surroundings.decoder)(source, 167, position),
                    normalization_factor: if config.normalization {
                        (surroundings.factor)(
                            factor->Factor_track_gain,
                            factor->Factor_pregain,
                            factor->Factor_track_peak,
                        )
                    } else {
                        0x3f80_0000
                    },
                }
                &&& run.asked(12) == first_requests(id, surroundings) + seq![
                    LoadRequest::AudioKey { track: track.id, file },
                    LoadRequest::AudioFile(file),
                ] + (if config.normalization {
                    loudness
                } else {
                    seq![]
                }) + seq![LoadRequest::Decoder { offset: 167, position }]
            } else {
                &&& run.progress(12) == LoadProgress::<D>::Unavailable
                &&& run.asked(12) == first_requests(id, surroundings)
            }
        }),
{
    let run = LoadRun::beginning(config, id, position, before, surroundings);
    let own = (surroundings.track)(id);
    let format = format_of(config.bitrate);
    let file = track.files@[format];
    let source = AudioSource { track: track.id, key_file: file, file };
    lemma_playable_stands(track, id, surroundings);
    loads_give_the_playable_track(config, id, position, before, surroundings);
    lemma_loudness(source, surroundings, config.normalization_pregain);
    let artist = run.next();
    let album = artist.next();
    lemma_asked(run, 12);
    lemma_asked(artist, 11);
    lemma_asked(album, 10);
    let found = album.next();
    let has = track.files@.dom().contains(format);
    if own.available {
        if has {
            lemma_key_asks(found, source, 9);
        }
        assert(run.asked(12) =~= first_requests(id, surroundings) + (if has {
            found.asked(9)
        } else {
            seq![]
        }));
    } else {
        lemma_asked(found, 9);
        if has {
            lemma_key_asks(found.next(), source, 8);
        }
        assert(run.asked(12) =~= first_requests(id, surroundings) + (if has {
            found.next().asked(8)
        } else {
            seq![]
        }));
    }
    if has {
        let reads = if config.normalization {
            loudness_requests(
                (surroundings.read)(source, 144)@,
                (surroundings.read)(source, 148)@,
                config.normalization_pregain,
            )
        } else {
            seq![]
        };
        let audio = seq![
            LoadRequest::AudioKey { track: track.id, file },
            LoadRequest::AudioFile(file),
        ];
        let last = seq![LoadRequest::Decoder { offset: 167, position }];
        assert(first_requests(id, surroundings) + (audio + reads + last) =~= first_requests(
            id,
            surroundings,
        ) + audio + reads + last);
    }
}

/// Where nothing stands for an id the load fails, once the alternatives are known.
pub proof fn loads_fail_where_nothing_stands_for_the_id<D>(
    config: PlayerConfig,
    id: SpotifyId,
    position: i64,
    before: AudioSource,
    surroundings: Surroundings<D>,
)
    requires
        surroundings.wf(),
        (surroundings.track)(id).artists@.len() > 0,
        nothing_stands_for(id, surroundings),
    ensures
        ({
            let run = LoadRun::beginning(config, id, position, before, surroundings);
            &&& run.progress(12) == LoadProgress::<D>::Unavailable
            &&& run.asked(12) == first_requests(id, surroundings)
        }),
{
    let run = LoadRun::beginning(config, id, position, before, surroundings);
    lemma_playable_stands((surroundings.track)(id), id, surroundings);
    loads_give_the_playable_track(config, id, position, before, surroundings);
    lemma_asked(run, 12);
    lemma_asked(run.next(), 11);
    lemma_asked(run.next().next(), 10);
    lemma_asked(run.next().next().next(), 9);
    assert(run.asked(12) =~= first_requests(id, surroundings));
}

/// Of the alternatives that come back, whatever they are, the load goes on with the one that can
/// be played and has none before it that can: it asks for the key to its file in the format of
/// the bit rate, or fails where there is none. It fails too where none can be played.
pub proof fn alternatives_are_tried_in_order<D>(loader: TrackLoader, tracks: Vec<Track>, i: int)
    requires
        loader.stage is Alternatives,
    ensures
        ({
            let (next, progress) = loader.after::<D>(LoadReply::Tracks(tracks));
            let format = match loader.bitrate {
                Bitrate::Bitrate96 => FileFormat::OGG_VORBIS_96,
                Bitrate::Bitrate160 => FileFormat::OGG_VORBIS_160,
                Bitrate::Bitrate320 => FileFormat::OGG_VORBIS_320,
            };
            &&& (0 <= i < tracks@.len() && tracks@[i].available && forall|j: int|
                0 <= j < i ==> !(#[trigger] tracks@[j]).available) ==> {
                if tracks@[i].files@.dom().contains(format) {
                    let file = tracks@[i].files@[format];
                    &&& progress == LoadProgress::<D>::Ask(
                        LoadRequest::AudioKey { track: tracks@[i].id, file },
                    )
                    &&& next == TrackLoader { stage: LoadStage::Key(file), ..loader }
                } else {
                    progress is Unavailable
                }
            }
            &&& (forall|j: int| 0 <= j < tracks@.len() ==> !(#[trigger] tracks@[j]).available)
                ==> progress is Unavailable
        }),
{
    the_first_available_is_picked(tracks@);
}

/// A load takes every answer to what it asked for: any entry of the catalogue of the right kind
/// (a track needs an artist), any alternatives, any bytes, any factor, any decoder. It takes
/// nothing else.
pub proof fn loads_take_their_answers<D>(run: LoadRun<D>, reply: LoadReply<D>)
    requires
        crate::laws::load_awaits(run.loader, run.request),
    ensures
        run.loader.answered_by(reply) <==> load_answers(run.request, reply),
{
}

/// Whether a reply is an answer to a request.
pub open spec fn load_answers<D>(request: LoadRequest, reply: LoadReply<D>) -> bool {
    match (request, reply) {
        (
            LoadRequest::Metadata(MetadataRequest::Track(_)),
            LoadReply::Metadata(MetadataReply::Track(track)),
        ) => track.artists@.len() > 0,
        (
            LoadRequest::Metadata(MetadataRequest::Artist(_)),
            LoadReply::Metadata(MetadataReply::Artist(_)),
        ) => true,
        (
            LoadRequest::Metadata(MetadataRequest::Album(_)),
            LoadReply::Metadata(MetadataReply::Album(_)),
        ) => true,
        (LoadRequest::Tracks(_), LoadReply::Tracks(_)) => true,
        (LoadRequest::AudioKey { .. }, LoadReply::AudioKey) => true,
        (LoadRequest::AudioFile(_), LoadReply::AudioFile) => true,
        (LoadRequest::Read(_), LoadReply::Read(_)) => true,
        (LoadRequest::Factor { .. }, LoadReply::Factor(_)) => true,
        (LoadRequest::Decoder { .. }, LoadReply::Decoder(_)) => true,
        _ => false,
    }
}

} // verus!
