//! What the player can be told to do.
use vstd::prelude::*;
use vstd::string::StringExecFns;

use crate::metadata::SpotifyId;
use crate::text::{decimal, decimal_text};

verus! {

/// A command to the player. Positions are in milliseconds.
pub enum PlayerCommand<S> {
    /// Load a track, at once playing or not, from a position on. The last field is signalled at
    /// the end of the track.
    Load(SpotifyId, bool, u32, S),
    Play,
    Pause,
    Stop,
    Seek(u32),
}

/// A flag as text.
pub open spec fn flag_text(flag: bool) -> Seq<char> {
    if flag {
        "true"@
    } else {
        "false"@
    }
}

impl<S> PlayerCommand<S> {
    /// The command as text: its name, then what it holds in brackets, but for what is signalled.
    pub open spec fn text(self) -> Seq<char> {
        match self {
            PlayerCommand::Load(track, play, position, _) => "Load(SpotifyId("@ + decimal_text(
                track.0 as nat,
            ) + "), "@ + flag_text(play) + ", "@ + decimal_text(position as nat) + ")"@,
            PlayerCommand::Play => "Play"@,
            PlayerCommand::Pause => "Pause"@,
            PlayerCommand::Stop => "Stop"@,
            PlayerCommand::Seek(position) => "Seek("@ + decimal_text(position as nat) + ")"@,
        }
    }

    /// Writes the command as text.
    pub fn fmt(&self) -> (text: String)
        ensures
            text@ == self.text(),
    {
        match self {
            PlayerCommand::Load(track, play, position, _) => {
                let mut text = "Load(SpotifyId(".to_owned();
                text.append(decimal(track.0).as_str());
                text.append("), ");
                text.append(if *play { "true" } else { "false" });
                text.append(", ");
                text.append(decimal(*position as u128).as_str());
                text.append(")");
                text
            },
            PlayerCommand::Play => "Play".to_owned(),
            PlayerCommand::Pause => "Pause".to_owned(),
            PlayerCommand::Stop => "Stop".to_owned(),
            PlayerCommand::Seek(position) => {
                let mut text = "Seek(".to_owned();
                text.append(decimal(*position as u128).as_str());
                text.append(")");
                text
            },
        }
    }
}

} // verus!
