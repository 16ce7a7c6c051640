//! The argument lists with which the backend is started.

use vstd::prelude::*;
use crate::players::names;
use crate::text::text_of;

verus! {

/// The name of the backend's executable.
pub const BACKEND: &'static str = "playerctl";

/// What the user asks of the current player.
#[derive(Debug, Clone, PartialEq, Eq)]
pub enum Request {
    /// Play if paused, pause if playing.
    Toggle,
    /// Start playing.
    Play,
    /// Stop playing, keeping the place.
    Pause,
    /// Skip to the next track.
    Next,
    /// Go back to the previous track.
    Previous,
    /// Print the volume, or set it to `value`.
    Volume { value: Option<String>, format: Option<String> },
    /// Print the position in the track, or set it to `value`.
    Position { value: Option<String>, format: Option<String> },
    /// Print the playback status, once or as it changes.
    Status { format: Option<String>, follow: bool },
    /// Print the track's metadata, all of it or one `key`, once or as it changes.
    Metadata { key: Option<String>, format: Option<String>, follow: bool },
}

/// The flag that points the backend at `player`.
pub open spec fn player_flag(player: Seq<char>) -> Seq<char> {
    "--player="@ + player
}

/// The flag that hands the backend an output format.
pub open spec fn format_flag(format: Seq<char>) -> Seq<char> {
    "--format="@ + format
}

/// One argument where there is a text, none where there is not.
pub open spec fn optional(text: Option<Seq<char>>) -> Seq<Seq<char>> {
    match text {
        Some(t) => seq![t],
        None => Seq::empty(),
    }
}

impl Request {
    /// The backend's word for the request.
    pub open spec fn word(self) -> Seq<char> {
        match self {
            Request::Toggle => "play-pause"@,
            Request::Play => "play"@,
            Request::Pause => "pause"@,
            Request::Next => "next"@,
            Request::Previous => "previous"@,
            Request::Volume { .. } => "volume"@,
            Request::Position { .. } => "position"@,
            Request::Status { .. } => "status"@,
            Request::Metadata { .. } => "metadata"@,
        }
    }

    /// The value or key that follows the word, if any.
    pub open spec fn operand(self) -> Option<Seq<char>> {
        match self {
            Request::Volume { value, .. } => text_of(value),
            Request::Position { value, .. } => text_of(value),
            Request::Metadata { key, .. } => text_of(key),
            _ => None,
        }
    }

    /// The output format, if one was asked for.
    pub open spec fn format(self) -> Option<Seq<char>> {
        match self {
            Request::Volume { format, .. } => text_of(format),
            Request::Position { format, .. } => text_of(format),
            Request::Status { format, .. } => text_of(format),
            Request::Metadata { format, .. } => text_of(format),
            _ => None,
        }
    }

    /// Whether the backend is to keep reporting until it is stopped.
    pub open spec fn follows(self) -> bool {
        match self {
            Request::Status { follow, .. } => follow,
            Request::Metadata { follow, .. } => follow,
            _ => false,
        }
    }

    /// Whether a follow-mode run of this request moves on to the new
    /// selection when the selection changes. Only metadata does.
    pub open spec fn tracks(self) -> bool {
        self is Metadata
    }

    /// The arguments of the backend for this request against `player`: the
    /// player flag, the word, then the operand, the format flag and the
    /// follow flag, each only where it applies.
    pub open spec fn arguments(self, player: Seq<char>) -> Seq<Seq<char>> {
        seq![player_flag(player), self.word()] + optional(self.operand()) + optional(
            match self.format() {
                Some(f) => Some(format_flag(f)),
                None => None,
            },
        ) + if self.follows() {
            seq!["--follow"@]
        } else {
            Seq::empty()
        }
    }

    /// The backend's word for the request.
    pub fn name(&self) -> (word: &'static str)
        ensures
            word@ == self.word(),
    {
        match self {
            Request::Toggle => "play-pause",
            Request::Play => "play",
            Request::Pause => "pause",
            Request::Next => "next",
            Request::Previous => "previous",
            Request::Volume { .. } => "volume",
            Request::Position { .. } => "position",
            Request::Status { .. } => "status",
            Request::Metadata { .. } => "metadata",
        }
    }

    /// The value or key that follows the word, if any.
    pub fn operand_text(&self) -> (operand: Option<&String>)
        ensures
            match operand {
                Some(text) => self.operand() == Some(text@),
                None => self.operand() is None,
            },
    {
        match self {
            Request::Volume { value: Some(v), .. } => Some(v),
            Request::Position { value: Some(v), .. } => Some(v),
            Request::Metadata { key: Some(k), .. } => Some(k),
            _ => None,
        }
    }

    /// The output format, if one was asked for.
    pub fn format_text(&self) -> (format: Option<&String>)
        ensures
            match format {
                Some(text) => self.format() == Some(text@),
                None => self.format() is None,
            },
    {
        match self {
            Request::Volume { format: Some(f), .. } => Some(f),
            Request::Position { format: Some(f), .. } => Some(f),
            Request::Status { format: Some(f), .. } => Some(f),
            Request::Metadata { format: Some(f), .. } => Some(f),
            _ => None,
        }
    }

    /// Whether the backend is to keep reporting until it is stopped.
    pub fn is_follow(&self) -> (follow: bool)
        ensures
            follow == self.follows(),
    {
        match self {
            Request::Status { follow, .. } => *follow,
            Request::Metadata { follow, .. } => *follow,
            _ => false,
        }
    }

    /// Whether a follow-mode run of this request moves on to the new
    /// selection when the selection changes.
    pub fn is_tracking(&self) -> (tracking: bool)
        ensures
            tracking == self.tracks(),
    {
        match self {
            Request::Metadata { .. } => true,
            _ => false,
        }
    }

    /// The arguments with which the backend serves this request against `player`.
    pub fn args(&self, player: &str) -> (args: Vec<String>)
        ensures
            names(args@) == self.arguments(player@),
    {
        let mut args: Vec<String> = Vec::new();
        let mut flag = "--player=".to_owned();
        flag.append(player);
        args.push(flag);
        args.push(self.name().to_owned());
        match self.operand_text() {
            Some(text) => {
                args.push(text.clone());
            },
            None => {},
        }
        match self.format_text() {
            Some(f) => {
                let mut flag = "--format=".to_owned();
                flag.append(f.as_str());
                args.push(flag);
            },
            None => {},
        }
        if self.is_follow() {
            args.push("--follow".to_owned());
        }
        assert(names(args@) =~= self.arguments(player@));
        args
    }
}

/// The arguments with which the backend lists the running players.
pub fn list_args() -> (args: Vec<String>)
    ensures
        names(args@) == seq!["-l"@],
{
    let mut args: Vec<String> = Vec::new();
    args.push("-l".to_owned());
    assert(names(args@) =~= seq!["-l"@]);
    args
}

} // verus!
