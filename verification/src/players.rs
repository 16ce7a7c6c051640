//! The running players, in the order in which the backend reports them.

use vstd::prelude::*;
use vstd::utf8::{decode_utf8, valid_utf8};
use crate::error::Error;
use crate::text::{
    chars_of, is_space, line_end, line_end_at, line_end_bounds, slice_of, trim_bounds, trimmed,
    trimmed_is_tight,
};

verus! {

/// The players that a listing names: its lines, each without the white space
/// at its ends, the empty ones left out.
pub open spec fn player_lines(listing: Seq<char>) -> Seq<Seq<char>>
    decreases listing.len(),
{
    let end = line_end(listing) as int;
    let name = trimmed(listing.take(end));
    let head = if name.len() > 0 {
        seq![name]
    } else {
        Seq::empty()
    };
    if end >= listing.len() {
        head
    } else {
        head + player_lines(listing.skip(end + 1))
    }
}

/// The identifiers behind a list of strings.
pub open spec fn names(ids: Seq<String>) -> Seq<Seq<char>> {
    Seq::new(ids.len(), |i: int| ids[i]@)
}

/// Every player that a listing names has a name: at least one character, no
/// white space at either end and no line feed inside.
pub proof fn player_lines_are_names(listing: Seq<char>, i: int)
    requires
        0 <= i < player_lines(listing).len(),
    ensures
        player_lines(listing)[i].len() > 0,
        !is_space(player_lines(listing)[i].first()),
        !is_space(player_lines(listing)[i].last()),
        !player_lines(listing)[i].contains('\n'),
    decreases listing.len(),
{
    let end = line_end(listing) as int;
    let line = listing.take(end);
    let name = trimmed(line);
    line_end_bounds(listing);
    if name.len() > 0 && i == 0 {
        trimmed_is_tight(line);
        if name.contains('\n') {
            assert(line.contains('\n'));
            let k = choose|k: int| 0 <= k < line.len() && line[k] == '\n';
            assert(listing[k] == '\n');
        }
    } else {
        let shift: int = if name.len() > 0 {
            1
        } else {
            0
        };
        player_lines_are_names(listing.skip(end + 1), i - shift);
    }
}

/// The players that were running when the backend was last asked.
///
/// The order is the backend's and decides what "next" and "previous" mean.
/// An identifier may occur more than once.
#[derive(Debug, Clone, PartialEq, Eq)]
pub struct PlayerSet {
    ids: Vec<String>,
}

impl View for PlayerSet {
    type V = Seq<Seq<char>>;

    closed spec fn view(&self) -> Seq<Seq<char>> {
        names(self.ids@)
    }
}

impl PlayerSet {
    /// The set that holds `ids`, in their order.
    pub fn from_ids(ids: Vec<String>) -> (players: PlayerSet)
        ensures
            players@ == names(ids@),
    {
        PlayerSet { ids }
    }

    /// Reads the players out of the text of a backend listing.
    pub fn parse(listing: &str) -> (players: PlayerSet)
        ensures
            players@ == player_lines(listing@),
    {
        let chars = chars_of(listing);
        let n: usize = chars.len();
        let mut ids: Vec<String> = Vec::new();
        let mut start: usize = 0;
        proof {
            assert(listing@.skip(0) =~= listing@);
            assert(names(ids@) + player_lines(listing@) =~= player_lines(listing@));
        }
        loop
            invariant_except_break
                start <= n,
                names(ids@) + player_lines(listing@.skip(start as int)) == player_lines(listing@),
            invariant
                n == chars@.len(),
                chars@ == listing@,
            ensures
                names(ids@) == player_lines(listing@),
            decreases n - start,
        {
            let mut end: usize = start;
            while end < n && chars[end] != '\n'
                invariant
                    start <= end <= n == chars@.len(),
                    forall|j: int| start <= j < end ==> chars@[j] != '\n',
                decreases n - end,
            {
                end += 1;
            }
            let ghost rest = listing@.skip(start as int);
            proof {
                line_end_at(rest, end - start);
                assert(rest.take(end - start) =~= chars@.subrange(start as int, end as int));
            }
            let (a, b) = trim_bounds(&chars, start, end);
            let ghost before = names(ids@);
            let ghost head = if a < b {
                seq![trimmed(rest.take(end - start))]
            } else {
                Seq::<Seq<char>>::empty()
            };
            if a < b {
                ids.push(slice_of(listing, a, b));
            }
            assert(names(ids@) =~= before + head);
            if end >= n {
                break;
            }
            proof {
                assert(rest.skip(end - start + 1) =~= listing@.skip(end + 1));
                assert((before + head) + player_lines(listing@.skip(end + 1)) =~= before + (head
                    + player_lines(listing@.skip(end + 1))));
            }
            start = end + 1;
        }
        PlayerSet { ids }
    }

    /// Reads the players out of what the backend wrote when asked to list them.
    ///
    /// Fails exactly when the bytes are not valid UTF-8.
    pub fn from_backend(output: Vec<u8>) -> (outcome: Result<PlayerSet, Error>)
        ensures
            match outcome {
                Ok(players) => valid_utf8(output@) && players@ == player_lines(
                    decode_utf8(output@),
                ),
                Err(e) => !valid_utf8(output@) && e == Error::BackendProtocolError,
            },
    {
        match String::from_utf8(output) {
            Ok(listing) => Ok(PlayerSet::parse(listing.as_str())),
            Err(_) => Err(Error::BackendProtocolError),
        }
    }

    /// The identifiers, in order.
    pub fn ids(&self) -> (ids: &Vec<String>)
        ensures
            names(ids@) == self@,
    {
        &self.ids
    }

    /// How many players there are.
    pub fn len(&self) -> (n: usize)
        ensures
            n == self@.len(),
    {
        self.ids.len()
    }

    /// Whether no player is running.
    pub fn is_empty(&self) -> (empty: bool)
        ensures
            empty == (self@.len() == 0),
    {
        self.ids.len() == 0
    }

    /// The player at place `i`.
    pub fn get(&self, i: usize) -> (id: Option<&String>)
        ensures
            match id {
                Some(s) => i < self@.len() && s@ == self@[i as int],
                None => i >= self@.len(),
            },
    {
        if i < self.ids.len() {
            Some(&self.ids[i])
        } else {
            None
        }
    }

    /// The player at place `i`, which must exist.
    pub(crate) fn at(&self, i: usize) -> (id: &String)
        requires
            i < self@.len(),
        ensures
            id@ == self@[i as int],
    {
        &self.ids[i]
    }

    /// The first place at which `id` stands.
    pub fn position(&self, id: &str) -> (place: Option<usize>)
        ensures
            match place {
                Some(i) => i < self@.len() && self@.index_of_first(id@) == Some(i as int),
                None => !self@.contains(id@) && self@.index_of_first(id@) is None,
            },
    {
        let wanted = id.to_owned();
        let mut i: usize = 0;
        while i < self.ids.len()
            invariant
                i <= self.ids.len(),
                wanted@ == id@,
                forall|j: int| 0 <= j < i ==> self@[j] != id@,
            decreases self.ids.len() - i,
        {
            if self.ids[i] == wanted {
                proof {
                    assert(self@[i as int] == id@);
                    self@.index_of_first_ensures(id@);
                }
                return Some(i);
            }
            i += 1;
        }
        proof {
            self@.index_of_first_ensures(id@);
        }
        None
    }

    /// Whether `id` is one of the players.
    pub fn has(&self, id: &str) -> (found: bool)
        ensures
            found == self@.contains(id@),
    {
        proof {
            self@.index_of_first_ensures(id@);
        }
        self.position(id).is_some()
    }
}

} // verus!
