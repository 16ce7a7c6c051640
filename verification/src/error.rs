//! What can go wrong between the backend, the store and the selection.

use vstd::prelude::*;

verus! {

/// A failure that ends the current operation.
#[derive(Debug, Clone, PartialEq, Eq)]
pub enum Error {
    /// The backend could not be started at all.
    BackendUnavailable,
    /// The backend answered with something that is not text.
    BackendProtocolError,
    /// The persisted selection exists but could not be read; the field says why.
    StoreUnreadable(String),
    /// The persisted selection could not be written; the field says why.
    StoreUnwritable(String),
    /// A player was needed and none is running.
    NoPlayersAvailable,
    /// The change signal could not be listened for.
    NotifierUnavailable,
}

impl Error {
    /// The text in front of the detail, or the whole line where there is no detail.
    pub open spec fn headline(self) -> Seq<char> {
        match self {
            Error::BackendUnavailable => "Failed to execute playerctl. Are you sure it is installed?"@,
            Error::BackendProtocolError => "Failed to get player list: invalid UTF-8."@,
            Error::StoreUnreadable(_) => "Failed to read cache file: "@,
            Error::StoreUnwritable(_) => "Failed to write cache file: "@,
            Error::NoPlayersAvailable => "No players found!"@,
            Error::NotifierUnavailable => "Failed to listen for selection changes."@,
        }
    }

    /// The detail that the failure carries, empty where it carries none.
    pub open spec fn detail(self) -> Seq<char> {
        match self {
            Error::StoreUnreadable(why) => why@,
            Error::StoreUnwritable(why) => why@,
            _ => Seq::empty(),
        }
    }

    /// The one line shown to the user.
    pub open spec fn message_spec(self) -> Seq<char> {
        self.headline() + self.detail()
    }

    /// The line shown when a switch failed.
    pub fn switch_report(&self) -> (line: String)
        ensures
            line@ == "Failed to switch player: "@ + self.message_spec(),
    {
        let mut line = "Failed to switch player: ".to_owned();
        line.append(self.message().as_str());
        line
    }

    /// The one line shown to the user: the headline followed by the detail.
    pub fn message(&self) -> (line: String)
        ensures
            line@ == self.message_spec(),
    {
        match self {
            Error::BackendUnavailable => {
                "Failed to execute playerctl. Are you sure it is installed?".to_owned()
            },
            Error::BackendProtocolError => "Failed to get player list: invalid UTF-8.".to_owned(),
            Error::StoreUnreadable(why) => {
                let mut line = "Failed to read cache file: ".to_owned();
                line.append(why.as_str());
                line
            },
            Error::StoreUnwritable(why) => {
                let mut line = "Failed to write cache file: ".to_owned();
                line.append(why.as_str());
                line
            },
            Error::NoPlayersAvailable => "No players found!".to_owned(),
            Error::NotifierUnavailable => "Failed to listen for selection changes.".to_owned(),
        }
    }
}

} // verus!
