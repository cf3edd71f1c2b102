//! What the messages and the log lines of a player hold.
use vstd::arithmetic::power::{lemma_pow1, lemma_pow_adds, pow};
use vstd::prelude::*;

use crate::command::PlayerCommand;
use crate::json::{object_text, JsonValue};
use crate::metadata::{metadata_text, FileId, SpotifyId, TrackInfo};
use crate::text::{
    base16_text, base16_text_holds_every_digit, base16_text_identifies, bytes_text,
    bytes_text_holds_every_byte, bytes_text_identifies, decimal_text,
    decimal_text_holds_every_digit,
};
use crate::token::{token_text, Token};

verus! {

/// Whether a text is a number in base 16 with a given count of digits, each at the place of its
/// weight.
pub open spec fn spells_number(text: Seq<char>, n: int, len: nat) -> bool {
    &&& text.len() == len
    &&& forall|i: int|
        0 <= i < len ==> #[trigger] text[i] == "0123456789abcdef"@[(n / pow(
            16,
            (len - 1 - i) as nat,
        )) % 16]
}

/// Whether a text is a row of bytes in base 16, with two digits for each, in order.
pub open spec fn spells_bytes(text: Seq<char>, bytes: Seq<u8>) -> bool {
    &&& text.len() == 2 * bytes.len()
    &&& forall|i: int|
        #![trigger bytes[i]]
        0 <= i < bytes.len() ==> {
            &&& text[2 * i] == "0123456789abcdef"@[bytes[i] as int / 16]
            &&& text[2 * i + 1] == "0123456789abcdef"@[bytes[i] as int % 16]
        }
}

/// Whether a text is a number in base 10, each digit at the place of its weight, without leading
/// zeros.
pub open spec fn spells_decimal(text: Seq<char>, n: int) -> bool {
    &&& text.len() >= 1
    &&& text.len() > 1 ==> n >= pow(10, (text.len() - 1) as nat)
    &&& n < pow(10, text.len())
    &&& forall|i: int|
        0 <= i < text.len() ==> #[trigger] text[i] == "0123456789abcdef"@[(n / pow(
            10,
            (text.len() - 1 - i) as nat,
        )) % 10]
}

/// The message that a track starts is an object with one entry, `metadata`, which is an object
/// with eleven: the ids of the track, of its artist and of its album and those of the first three
/// covers in base 16, the names, how long the track is, and the position.
pub proof fn messages_tell_of_the_track(
    track_id: SpotifyId,
    info: TrackInfo,
    position: u32,
) -> (entries: Map<Seq<char>, JsonValue>)
    requires
        info.album.covers@.len() >= 3,
    ensures
        metadata_text(track_id, info, position) == object_text(
            Map::empty().insert("metadata"@, JsonValue::Object(entries)),
        ),
        entries.dom() == set![
            "track_id"@,
            "track_name"@,
            "artist_id"@,
            "artist_name"@,
            "album_id"@,
            "album_name"@,
            "duration"@,
            "albumartId"@,
            "albumartId_SMALL"@,
            "albumartId_LARGE"@,
            "pos"@,
        ],
        entries["track_id"@] matches JsonValue::Text(text) && spells_number(
            text,
            track_id.0 as int,
            32,
        ),
        entries["track_name"@] == JsonValue::Text(info.track.name@),
        entries["artist_id"@] matches JsonValue::Text(text) && spells_number(
            text,
            info.artist.id.0 as int,
            32,
        ),
        entries["artist_name"@] == JsonValue::Text(info.artist.name@),
        entries["album_id"@] matches JsonValue::Text(text) && spells_number(
            text,
            info.album.id.0 as int,
            32,
        ),
        entries["album_name"@] == JsonValue::Text(info.album.name@),
        entries["duration"@] == JsonValue::Number(info.track.duration as int),
        entries["albumartId"@] matches JsonValue::Text(text) && spells_bytes(
            text,
            info.album.covers@[0].0@,
        ),
        entries["albumartId_SMALL"@] matches JsonValue::Text(text) && spells_bytes(
            text,
            info.album.covers@[1].0@,
        ),
        entries["albumartId_LARGE"@] matches JsonValue::Text(text) && spells_bytes(
            text,
            info.album.covers@[2].0@,
        ),
        entries["pos"@] == JsonValue::Number(position as int),
{
    reveal_strlit("track_id");
    reveal_strlit("track_name");
    reveal_strlit("artist_id");
    reveal_strlit("artist_name");
    reveal_strlit("album_id");
    reveal_strlit("album_name");
    reveal_strlit("duration");
    reveal_strlit("albumartId");
    reveal_strlit("albumartId_SMALL");
    reveal_strlit("albumartId_LARGE");
    reveal_strlit("pos");
    assert("track_id"@.len() == 8);
    assert("track_name"@.len() == 10);
    assert("artist_id"@.len() == 9);
    assert("artist_name"@.len() == 11);
    assert("album_id"@.len() == 8);
    assert("album_name"@.len() == 10);
    assert("duration"@.len() == 8);
    assert("albumartId"@.len() == 10);
    assert("albumartId_SMALL"@.len() == 16);
    assert("albumartId_LARGE"@.len() == 16);
    assert("pos"@.len() == 3);
    // Keys of the same length differ in a character.
    assert("track_id"@[0] != "album_id"@[0]);
    assert("track_id"@[0] != "duration"@[0]);
    assert("album_id"@[0] != "duration"@[0]);
    assert("track_name"@[0] != "album_name"@[0]);
    assert("track_name"@[0] != "albumartId"@[0]);
    assert("album_name"@[5] != "albumartId"@[5]);
    assert("albumartId_SMALL"@[11] != "albumartId_LARGE"@[11]);
    base16_text_holds_every_digit(track_id.0 as nat, 32);
    base16_text_holds_every_digit(info.artist.id.0 as nat, 32);
    base16_text_holds_every_digit(info.album.id.0 as nat, 32);
    bytes_text_holds_every_byte(info.album.covers@[0].0@);
    bytes_text_holds_every_byte(info.album.covers@[1].0@);
    bytes_text_holds_every_byte(info.album.covers@[2].0@);
    let entries = crate::metadata::metadata_entries(track_id, info, position);
    assert(entries.dom() =~= set![
        "track_id"@,
        "track_name"@,
        "artist_id"@,
        "artist_name"@,
        "album_id"@,
        "album_name"@,
        "duration"@,
        "albumartId"@,
        "albumartId_SMALL"@,
        "albumartId_LARGE"@,
        "pos"@,
    ]);
    entries
}

/// The message that holds a token is an object with one entry, `token`, which is an object with
/// the four fields of the token under their names.
pub proof fn messages_hold_the_token(token: Token) -> (entries: Map<Seq<char>, JsonValue>)
    ensures
        token_text(token) == object_text(
            Map::empty().insert("token"@, JsonValue::Object(entries)),
        ),
        entries.dom() == set!["access_token"@, "expires_in"@, "token_type"@, "scope"@],
        entries["access_token"@] == JsonValue::Text(token.access_token@),
        entries["expires_in"@] == JsonValue::Number(token.expires_in as int),
        entries["token_type"@] == JsonValue::Text(token.token_type@),
        entries["scope"@] matches JsonValue::List(parts) && parts.len() == token.scope@.len() && (
        forall|i: int| 0 <= i < parts.len() ==> #[trigger] parts[i] == token.scope@[i]@),
{
    reveal_strlit("access_token");
    reveal_strlit("expires_in");
    reveal_strlit("token_type");
    reveal_strlit("scope");
    assert("access_token"@.len() == 12);
    assert("expires_in"@.len() == 10);
    assert("token_type"@.len() == 10);
    assert("scope"@.len() == 5);
    assert("expires_in"@[0] != "token_type"@[0]);
    let entries = crate::token::token_entries(token);
    assert(entries.dom() =~= set!["access_token"@, "expires_in"@, "token_type"@, "scope"@]);
    entries
}

/// A blank token has nothing but blanks in it: no characters, no seconds, and two scopes without
/// characters.
pub proof fn a_blank_token_grants_nothing(token: Token)
    ensures
        token.is_blank() <==> {
            &&& token.access_token@.len() == 0
            &&& token.expires_in == 0
            &&& token.token_type@.len() == 0
            &&& token.scope@.len() == 2
            &&& forall|i: int| 0 <= i < 2 ==> (#[trigger] token.scope@[i])@.len() == 0
        },
{
    if token.access_token@.len() == 0 && token.token_type@.len() == 0 && token.scope@.len() == 2
        && (forall|i: int| 0 <= i < 2 ==> (#[trigger] token.scope@[i])@.len() == 0) {
        assert(token.access_token@ =~= Seq::<char>::empty());
        assert(token.token_type@ =~= Seq::<char>::empty());
        assert(token.scope@[0]@ =~= Seq::<char>::empty());
        assert(token.scope@[1]@ =~= Seq::<char>::empty());
    }
}

/// Tracks, artists and albums whose ids have the same text are the same.
pub proof fn ids_are_told_apart(a: SpotifyId, b: SpotifyId)
    requires
        base16_text(a.0 as nat, 32) == base16_text(b.0 as nat, 32),
    ensures
        a == b,
{
    lemma_pow1(16);
    lemma_pow_adds(16, 1, 1);
    lemma_pow_adds(16, 2, 2);
    lemma_pow_adds(16, 4, 4);
    lemma_pow_adds(16, 8, 8);
    lemma_pow_adds(16, 16, 16);
    assert(pow(16, 2) == 0x100);
    assert(0x100 * 0x100 == 0x1_0000);
    assert(pow(16, 4) == 0x1_0000);
    assert(0x1_0000 * 0x1_0000 == 0x1_0000_0000);
    assert(pow(16, 8) == 0x1_0000_0000);
    assert(0x1_0000_0000int * 0x1_0000_0000int == 0x1_0000_0000_0000_0000int);
    assert(pow(16, 16) == 0x1_0000_0000_0000_0000);
    assert(pow(16, 32) == 0x1_0000_0000_0000_0000 * 0x1_0000_0000_0000_0000);
    base16_text_identifies(a.0 as nat, b.0 as nat, 32);
}

/// Files whose ids have the same text are the same.
pub proof fn file_ids_are_told_apart(a: FileId, b: FileId)
    requires
        bytes_text(a.0@) == bytes_text(b.0@),
    ensures
        a.0@ == b.0@,
{
    bytes_text_identifies(a.0@, b.0@);
}

/// A command is written as its name, and what it holds in brackets: the id and the positions in
/// base 10, the flag as a word. What is signalled is left out.
pub proof fn commands_are_written_out<S>(command: PlayerCommand<S>) -> (digits: (
    Seq<char>,
    Seq<char>,
))
    ensures
        match command {
            PlayerCommand::Load(track, play, position, _) => {
                &&& spells_decimal(digits.0, track.0 as int)
                &&& spells_decimal(digits.1, position as int)
                &&& command.text() == "Load(SpotifyId("@ + digits.0 + "), "@ + (if play {
                    "true"@
                } else {
                    "false"@
                }) + ", "@ + digits.1 + ")"@
            },
            PlayerCommand::Play => command.text() == "Play"@,
            PlayerCommand::Pause => command.text() == "Pause"@,
            PlayerCommand::Stop => command.text() == "Stop"@,
            PlayerCommand::Seek(position) => {
                &&& spells_decimal(digits.0, position as int)
                &&& command.text() == "Seek("@ + digits.0 + ")"@
            },
        },
{
    match command {
        PlayerCommand::Load(track, _, position, _) => {
            decimal_text_holds_every_digit(track.0 as nat);
            decimal_text_holds_every_digit(position as nat);
            (decimal_text(track.0 as nat), decimal_text(position as nat))
        },
        PlayerCommand::Seek(position) => {
            decimal_text_holds_every_digit(position as nat);
            (decimal_text(position as nat), seq![])
        },
        _ => (seq![], seq![]),
    }
}

} // verus!
