//! Tracks, artists and albums, and what the player tells others about them.
use vstd::arithmetic::power::pow;
use vstd::prelude::*;

use crate::json::{new_object, object_text, put_number, put_object, put_text, render, JsonValue};
use crate::text::{base16, base16_text, bytes_base16, bytes_text};

verus! {

/// The number that a track, an artist or an album goes by.
#[derive(Clone, Copy, Debug, PartialEq, Eq, Structural)]
pub struct SpotifyId(pub u128);

impl SpotifyId {
    /// The id as 32 digits in base 16.
    pub fn to_base16(&self) -> (text: String)
        ensures
            text@ == base16_text(self.0 as nat, 32),
            text@.len() == 32,
            forall|i: int|
                0 <= i < 32 ==> #[trigger] text@[i] == "0123456789abcdef"@[(self.0 as int / pow(
                    16,
                    (31 - i) as nat,
                )) % 16],
    {
        base16(self.0, 32)
    }
}

/// The number that a file goes by, as 20 bytes.
#[derive(Clone, Copy, Debug, PartialEq, Eq)]
pub struct FileId(pub [u8; 20]);

impl FileId {
    /// The id as 40 digits in base 16.
    pub fn to_base16(&self) -> (text: String)
        ensures
            text@ == bytes_text(self.0@),
            text@.len() == 40,
            forall|i: int|
                #![trigger self.0@[i]]
                0 <= i < 20 ==> {
                    &&& text@[2 * i] == "0123456789abcdef"@[self.0@[i] as int / 16]
                    &&& text@[2 * i + 1] == "0123456789abcdef"@[self.0@[i] as int % 16]
                },
    {
        bytes_base16(vstd::array::array_as_slice(&self.0))
    }
}

/// The encodings in which audio files come. Those that the player never asks for are told apart
/// by a number.
#[allow(non_camel_case_types)]
#[derive(Clone, Copy, Debug, PartialEq, Eq, Structural)]
pub enum FileFormat {
    OGG_VORBIS_96,
    OGG_VORBIS_160,
    OGG_VORBIS_320,
    Other(u32),
}

/// The files of a track, at most one in each format.
pub struct FileTable {
    entries: Vec<(FileFormat, FileId)>,
}

impl View for FileTable {
    type V = Map<FileFormat, FileId>;

    closed spec fn view(&self) -> Map<FileFormat, FileId> {
        Map::new(
            |format: FileFormat| exists|i: int|
                0 <= i < self.entries@.len() && (#[trigger] self.entries@[i]).0 == format,
            |format: FileFormat|
                self.entries@[choose|i: int|
                    0 <= i < self.entries@.len() && (#[trigger] self.entries@[i]).0 == format].1,
        )
    }
}

impl FileTable {
    /// No format occurs twice.
    #[verifier::type_invariant]
    spec fn distinct(self) -> bool {
        forall|i: int, j: int|
            0 <= i < self.entries@.len() && 0 <= j < self.entries@.len() && i != j
                ==> (#[trigger] self.entries@[i]).0 != (#[trigger] self.entries@[j]).0
    }

    /// A table without files.
    pub fn new() -> (table: FileTable)
        ensures
            table@ == Map::<FileFormat, FileId>::empty(),
    {
        let table = FileTable { entries: Vec::new() };
        assert(table@ =~= Map::<FileFormat, FileId>::empty());
        table
    }

    /// Notes the file for a format, in place of the one noted before.
    pub fn insert(&mut self, format: FileFormat, file: FileId)
        ensures
            final(self)@ == old(self)@.insert(format, file),
    {
        proof {
            use_type_invariant(&*self);
        }
        let ghost before = *self;
        let mut entries: Vec<(FileFormat, FileId)> = Vec::new();
        std::mem::swap(&mut entries, &mut self.entries);
        let mut i: usize = 0;
        while i < entries.len() && entries[i].0 != format
            invariant
                0 <= i <= entries@.len(),
                forall|j: int| 0 <= j < i ==> (#[trigger] entries@[j]).0 != format,
            decreases entries@.len() - i,
        {
            i += 1;
        }
        if i < entries.len() {
            entries.set(i, (format, file));
        } else {
            entries.push((format, file));
        }
        *self = FileTable { entries };
        proof {
            lemma_filled(before, *self, i as int, format, file);
        }
    }

    /// The file noted for a format.
    pub fn get(&self, format: FileFormat) -> (file: Option<FileId>)
        ensures
            file == (if self@.dom().contains(format) {
                Some(self@[format])
            } else {
                None
            }),
    {
        proof {
            use_type_invariant(self);
        }
        for i in 0..self.entries.len()
            invariant
                self.distinct(),
                forall|j: int| 0 <= j < i ==> (#[trigger] self.entries@[j]).0 != format,
        {
            if self.entries[i].0 == format {
                assert(self.entries@[i as int].0 == format);
                return Some(self.entries[i].1);
            }
        }
        None
    }
}

/// Writing an entry at the place of its format, or behind all others where the format is new,
/// is an insertion into the table.
proof fn lemma_filled(
    before: FileTable,
    after: FileTable,
    place: int,
    format: FileFormat,
    file: FileId,
)
    requires
        before.distinct(),
        0 <= place <= before.entries@.len(),
        forall|j: int| 0 <= j < place ==> (#[trigger] before.entries@[j]).0 != format,
        place < before.entries@.len() ==> before.entries@[place].0 == format
            && after.entries@ == before.entries@.update(place, (format, file)),
        place == before.entries@.len() ==> after.entries@ == before.entries@.push((format, file)),
    ensures
        after@ == before@.insert(format, file),
{
    let old_entries = before.entries@;
    let new_entries = after.entries@;
    assert(new_entries[place] == (format, file));
    assert forall|j: int| 0 <= j < new_entries.len() && j != place implies new_entries[j]
        == old_entries[j] && (#[trigger] new_entries[j]).0 != format by {}
    assert forall|f: FileFormat| after@.dom().contains(f) == before@.insert(
        format,
        file,
    ).dom().contains(f) by {
        if f == format {
            assert(new_entries[place].0 == f);
        } else if before@.dom().contains(f) {
            let i = choose|i: int| 0 <= i < old_entries.len() && (#[trigger] old_entries[i]).0 == f;
            assert(new_entries[i].0 == f);
        } else if after@.dom().contains(f) {
            let i = choose|i: int| 0 <= i < new_entries.len() && (#[trigger] new_entries[i]).0 == f;
            assert(old_entries[i].0 == f);
        }
    }
    assert forall|f: FileFormat| after@.dom().contains(f) implies after@[f] == before@.insert(
        format,
        file,
    )[f] by {
        let i = choose|i: int| 0 <= i < new_entries.len() && (#[trigger] new_entries[i]).0 == f;
        if f == format {
            assert(i == place);
        } else {
            let k = choose|k: int| 0 <= k < old_entries.len() && (#[trigger] old_entries[k]).0 == f;
            assert(old_entries[i].0 == f);
            assert(i == k);
        }
    }
    assert(after@ =~= before@.insert(format, file));
}

/// What is known of a track.
pub struct Track {
    pub id: SpotifyId,
    pub name: String,
    pub duration: i32,
    pub album: SpotifyId,
    pub artists: Vec<SpotifyId>,
    pub files: FileTable,
    pub alternatives: Vec<SpotifyId>,
    pub available: bool,
}

/// What is known of an artist.
pub struct Artist {
    pub id: SpotifyId,
    pub name: String,
}

/// What is known of an album. Its covers come in three sizes: default, small, large.
pub struct Album {
    pub id: SpotifyId,
    pub name: String,
    pub covers: Vec<FileId>,
}

/// A track with its first artist and its album.
pub struct TrackInfo {
    pub track: Track,
    pub artist: Artist,
    pub album: Album,
}

/// A question to the catalogue.
pub enum MetadataRequest {
    Track(SpotifyId),
    Artist(SpotifyId),
    Album(SpotifyId),
}

/// What the catalogue answered.
pub enum MetadataReply {
    Track(Track),
    Artist(Artist),
    Album(Album),
}

/// A look into the catalogue for a track, its first artist and its album, one after the other.
pub enum Lookup {
    /// The track is asked for.
    Track(SpotifyId),
    /// The track is known, its first artist is asked for.
    Artist(Track),
    /// Track and artist are known, the album is asked for.
    Album(Track, Artist),
}

/// Where an answer leads a lookup.
pub enum LookupProgress {
    More(Lookup),
    Found(TrackInfo),
}

impl Lookup {
    /// Once a track is known it has an artist.
    pub open spec fn wf(self) -> bool {
        self matches Lookup::Artist(track) ==> track.artists@.len() > 0
    }

    /// The question that is open.
    pub open spec fn question(self) -> MetadataRequest {
        match self {
            Lookup::Track(id) => MetadataRequest::Track(id),
            Lookup::Artist(track) => MetadataRequest::Artist(track.artists@[0]),
            Lookup::Album(track, _) => MetadataRequest::Album(track.album),
        }
    }

    /// Whether a reply answers the open question. A track without artists answers none.
    pub open spec fn answered_by(self, reply: MetadataReply) -> bool {
        match self {
            Lookup::Track(_) => reply matches MetadataReply::Track(track)
                && track.artists@.len() > 0,
            Lookup::Artist(_) => reply is Artist,
            Lookup::Album(_, _) => reply is Album,
        }
    }

    /// Where an answer leads.
    pub open spec fn after(self, reply: MetadataReply) -> LookupProgress
        recommends
            self.answered_by(reply),
    {
        match self {
            Lookup::Track(_) => LookupProgress::More(Lookup::Artist(reply->Track_0)),
            Lookup::Artist(track) => LookupProgress::More(Lookup::Album(track, reply->Artist_0)),
            Lookup::Album(track, artist) => LookupProgress::Found(
                TrackInfo { track, artist, album: reply->Album_0 },
            ),
        }
    }

    /// The question to put to the catalogue.
    pub fn request(&self) -> (request: MetadataRequest)
        requires
            self.wf(),
        ensures
            request == self.question(),
    {
        match self {
            Lookup::Track(id) => MetadataRequest::Track(*id),
            Lookup::Artist(track) => MetadataRequest::Artist(track.artists[0]),
            Lookup::Album(track, _) => MetadataRequest::Album(track.album),
        }
    }

    /// Whether a reply can be taken.
    pub fn accepts(&self, reply: &MetadataReply) -> (accepted: bool)
        ensures
            accepted == self.answered_by(*reply),
    {
        match (self, reply) {
            (Lookup::Track(_), MetadataReply::Track(track)) => track.artists.len() > 0,
            (Lookup::Artist(_), MetadataReply::Artist(_)) => true,
            (Lookup::Album(_, _), MetadataReply::Album(_)) => true,
            _ => false,
        }
    }

    /// Takes an answer.
    pub fn supply(self, reply: MetadataReply) -> (progress: LookupProgress)
        requires
            self.answered_by(reply),
        ensures
            progress == self.after(reply),
            progress matches LookupProgress::More(next) ==> next.wf(),
    {
        match (self, reply) {
            (Lookup::Track(_), MetadataReply::Track(track)) => LookupProgress::More(
                Lookup::Artist(track),
            ),
            (Lookup::Artist(track), MetadataReply::Artist(artist)) => LookupProgress::More(
                Lookup::Album(track, artist),
            ),
            (Lookup::Album(track, artist), MetadataReply::Album(album)) => LookupProgress::Found(
                TrackInfo { track, artist, album },
            ),
            (lookup, _) => LookupProgress::More(lookup),
        }
    }
}

/// A lookup asks for the track, for the first of its artists and for its album, in that order
/// and nothing else, and finds what it was given.
pub proof fn lookups_ask_for_track_artist_and_album(
    id: SpotifyId,
    track: Track,
    artist: Artist,
    album: Album,
)
    requires
        track.artists@.len() > 0,
    ensures
        ({
            let first = Lookup::Track(id);
            let second = first.after(MetadataReply::Track(track))->More_0;
            let third = second.after(MetadataReply::Artist(artist))->More_0;
            &&& first.question() == MetadataRequest::Track(id)
            &&& first.after(MetadataReply::Track(track)) is More
            &&& second.question() == MetadataRequest::Artist(track.artists@[0])
            &&& second.after(MetadataReply::Artist(artist)) is More
            &&& third.question() == MetadataRequest::Album(track.album)
            &&& third.after(MetadataReply::Album(album)) == LookupProgress::Found(
                TrackInfo { track, artist, album },
            )
        }),
{
}

/// A lookup takes every answer to its question: any track that has an artist, any artist, any
/// album, and nothing else.
pub proof fn lookups_take_their_answers(lookup: Lookup, reply: MetadataReply)
    ensures
        lookup.answered_by(reply) <==> (match (lookup.question(), reply) {
            (MetadataRequest::Track(_), MetadataReply::Track(track)) => track.artists@.len() > 0,
            (MetadataRequest::Artist(_), MetadataReply::Artist(_)) => true,
            (MetadataRequest::Album(_), MetadataReply::Album(_)) => true,
            _ => false,
        }),
{
}

/// The track itself where it can be played, else the ids of its alternatives, one of which may
/// be played in its place.
pub fn find_available_alternative(track: Track) -> (found: Result<Track, Vec<SpotifyId>>)
    ensures
        found == (if track.available {
            Ok(track)
        } else {
            Err::<Track, Vec<SpotifyId>>(track.alternatives)
        }),
{
    if track.available {
        Ok(track)
    } else {
        Err(track.alternatives)
    }
}

/// The first of some tracks that can be played.
pub open spec fn first_available_of(tracks: Seq<Track>) -> Option<Track>
    decreases tracks.len(),
{
    if tracks.len() == 0 {
        None
    } else if tracks[0].available {
        Some(tracks[0])
    } else {
        first_available_of(tracks.drop_first())
    }
}

/// Of a row of tracks, the one that can be played and has none before it that can is picked.
/// None is picked exactly where none of them can be played.
pub proof fn the_first_available_is_picked(tracks: Seq<Track>)
    ensures
        forall|i: int|
            0 <= i < tracks.len() && (#[trigger] tracks[i]).available && (forall|j: int|
                0 <= j < i ==> !(#[trigger] tracks[j]).available) ==> first_available_of(tracks)
                == Some(tracks[i]),
        (forall|i: int| 0 <= i < tracks.len() ==> !(#[trigger] tracks[i]).available)
            <==> first_available_of(tracks) is None,
        first_available_of(tracks) matches Some(track) ==> track.available && tracks.contains(
            track,
        ),
    decreases tracks.len(),
{
    if tracks.len() > 0 {
        let rest = tracks.drop_first();
        the_first_available_is_picked(rest);
        assert forall|i: int|
            0 <= i < tracks.len() && (#[trigger] tracks[i]).available && (forall|j: int|
                0 <= j < i ==> !(#[trigger] tracks[j]).available) implies first_available_of(tracks)
            == Some(tracks[i]) by {
            if i > 0 {
                assert(!tracks[0].available);
                assert(rest[i - 1] == tracks[i]);
                assert forall|j: int| 0 <= j < i - 1 implies !(#[trigger] rest[j]).available by {
                    assert(!tracks[j + 1].available);
                }
            }
        }
        if !tracks[0].available {
            if first_available_of(tracks) is None {
                assert forall|i: int| 0 <= i < tracks.len() implies !(
                #[trigger] tracks[i]).available by {
                    if i > 0 {
                        assert(rest[i - 1] == tracks[i]);
                    }
                }
            } else {
                let track = first_available_of(rest)->0;
                let i = choose|i: int| 0 <= i < rest.len() && rest[i] == track;
                assert(tracks[i + 1] == track);
            }
            if forall|i: int| 0 <= i < tracks.len() ==> !(#[trigger] tracks[i]).available {
                assert forall|i: int| 0 <= i < rest.len() implies !(
                #[trigger] rest[i]).available by {
                    assert(!tracks[i + 1].available);
                }
            }
        }
    }
}

/// Picks the first of some tracks that can be played.
#[verifier::loop_isolation(false)]
pub fn first_available(tracks: Vec<Track>) -> (found: Option<Track>)
    ensures
        found == first_available_of(tracks@),
        forall|i: int|
            0 <= i < tracks@.len() && (#[trigger] tracks@[i]).available && (forall|j: int|
                0 <= j < i ==> !(#[trigger] tracks@[j]).available) ==> found == Some(tracks@[i]),
        (forall|i: int| 0 <= i < tracks@.len() ==> !(#[trigger] tracks@[i]).available)
            <==> found is None,
{
    proof {
        the_first_available_is_picked(tracks@);
    }
    let ghost given = tracks@;
    let mut tracks = tracks;
    let mut i: usize = 0;
    assert(given.skip(0) =~= given);
    while i < tracks.len()
        invariant
            tracks@ == given,
            0 <= i <= given.len(),
            first_available_of(given) == first_available_of(given.skip(i as int)),
        decreases given.len() - i,
    {
        assert(given.skip(i as int)[0] == given[i as int]);
        if tracks[i].available {
            return Some(tracks.swap_remove(i));
        }
        assert(given.skip(i as int).drop_first() =~= given.skip(i + 1));
        i += 1;
    }
    None
}

/// What others are told when a track starts.
pub open spec fn metadata_entries(track_id: SpotifyId, info: TrackInfo, position: u32) -> Map<
    Seq<char>,
    JsonValue,
> {
    map![
        "track_id"@ => JsonValue::Text(base16_text(track_id.0 as nat, 32)),
        "track_name"@ => JsonValue::Text(info.track.name@),
        "artist_id"@ => JsonValue::Text(base16_text(info.artist.id.0 as nat, 32)),
        "artist_name"@ => JsonValue::Text(info.artist.name@),
        "album_id"@ => JsonValue::Text(base16_text(info.album.id.0 as nat, 32)),
        "album_name"@ => JsonValue::Text(info.album.name@),
        "duration"@ => JsonValue::Number(info.track.duration as int),
        "albumartId"@ => JsonValue::Text(bytes_text(info.album.covers@[0].0@)),
        "albumartId_SMALL"@ => JsonValue::Text(bytes_text(info.album.covers@[1].0@)),
        "albumartId_LARGE"@ => JsonValue::Text(bytes_text(info.album.covers@[2].0@)),
        "pos"@ => JsonValue::Number(position as int),
    ]
}

/// The message with which others are told: an object that holds the entries under `metadata`.
pub open spec fn metadata_text(track_id: SpotifyId, info: TrackInfo, position: u32) -> Seq<char> {
    object_text(
        map!["metadata"@ => JsonValue::Object(metadata_entries(track_id, info, position))],
    )
}

/// Writes the message that a track starts at a position.
pub fn track_id_to_json(track_id: SpotifyId, info: &TrackInfo, position: u32) -> (text: String)
    requires
        info.album.covers@.len() >= 3,
    ensures
        text@ == metadata_text(track_id, *info, position),
{
    let mut entries = new_object();
    put_text(&mut entries, "track_id", track_id.to_base16().as_str());
    put_text(&mut entries, "track_name", info.track.name.as_str());
    put_text(&mut entries, "artist_id", info.artist.id.to_base16().as_str());
    put_text(&mut entries, "artist_name", info.artist.name.as_str());
    put_text(&mut entries, "album_id", info.album.id.to_base16().as_str());
    put_text(&mut entries, "album_name", info.album.name.as_str());
    put_number(&mut entries, "duration", info.track.duration as i64);
    put_text(&mut entries, "albumartId", info.album.covers[0].to_base16().as_str());
    put_text(&mut entries, "albumartId_SMALL", info.album.covers[1].to_base16().as_str());
    put_text(&mut entries, "albumartId_LARGE", info.album.covers[2].to_base16().as_str());
    put_number(&mut entries, "pos", position as i64);
    let mut message = new_object();
    put_object(&mut message, "metadata", entries);
    render(message)
}

} // verus!
