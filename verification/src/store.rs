//! The persisted selection: one flat piece of text, or nothing yet.

use vstd::prelude::*;
use crate::selection::Decision;

verus! {

/// Whether `id` can be told apart from "no selection" once it is stored.
pub open spec fn valid_id(id: Seq<char>) -> bool {
    id.len() > 0
}

/// The selection that stored text stands for: the text itself, unless it is
/// missing or empty.
pub open spec fn loaded(contents: Option<Seq<char>>) -> Option<Seq<char>> {
    match contents {
        Some(text) => if valid_id(text) {
            Some(text)
        } else {
            None
        },
        None => None,
    }
}

/// What the selection file holds.
///
/// The caller fills it from the file before a command and writes it back
/// after a `save`; the text is the raw identifier with nothing around it.
#[derive(Debug, Clone, PartialEq, Eq)]
pub struct Store {
    contents: Option<String>,
}

impl View for Store {
    type V = Option<Seq<char>>;

    closed spec fn view(&self) -> Option<Seq<char>> {
        match self.contents {
            Some(text) => Some(text@),
            None => None,
        }
    }
}

impl Store {
    /// The store before anything was ever saved.
    pub fn missing() -> (store: Store)
        ensures
            store@ is None,
    {
        Store { contents: None }
    }

    /// The store that holds `text`.
    pub fn holding(text: String) -> (store: Store)
        ensures
            store@ == Some(text@),
    {
        Store { contents: Some(text) }
    }

    /// The stored text as it is, for writing it out.
    pub fn contents(&self) -> (text: Option<&String>)
        ensures
            match text {
                Some(t) => self@ == Some(t@),
                None => self@ is None,
            },
    {
        match &self.contents {
            Some(text) => Some(text),
            None => None,
        }
    }

    /// The persisted selection; none where nothing or nothing but emptiness is stored.
    pub fn load(&self) -> (selection: Option<String>)
        ensures
            match selection {
                Some(id) => loaded(self@) == Some(id@),
                None => loaded(self@) is None,
            },
    {
        match &self.contents {
            Some(text) => {
                if text.as_str().is_empty() {
                    None
                } else {
                    Some(text.clone())
                }
            },
            None => None,
        }
    }

    /// Takes a decision in: saves its selection where it is to be persisted
    /// and says whether the store changed and has to be written out.
    pub fn record(&mut self, decision: &Decision) -> (written: bool)
        ensures
            written == decision.persist,
            final(self)@ == if decision.persist {
                Some(decision.selection@)
            } else {
                old(self)@
            },
    {
        if decision.persist {
            self.save(decision.selection.as_str());
        }
        decision.persist
    }

    /// Overwrites whatever is stored with `id`.
    pub fn save(&mut self, id: &str)
        ensures
            final(self)@ == Some(id@),
    {
        self.contents = Some(id.to_owned());
    }
}

/// Saving a valid identifier and loading again gives that identifier back:
/// a store that holds `id`, as every store does after `save(id)`, loads as `id`.
pub proof fn save_then_load(id: Seq<char>)
    requires
        valid_id(id),
    ensures
        loaded(Some(id)) == Some(id),
{
}

} // verus!
