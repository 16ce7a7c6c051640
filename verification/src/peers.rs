//! Finding the other running instances of this program in a listing of the
//! process table.

use vstd::prelude::*;
use crate::text::{chars_of, slice_of};

verus! {

/// The name under which this program runs, and by which its instances are found.
pub const PROGRAM_NAME: &'static str = "multiplayerctl";

/// Whether `c` is one of the ten decimal digits.
pub open spec fn is_digit(c: char) -> bool {
    '0' <= c <= '9'
}

/// Whether `s` is made of decimal digits only.
pub open spec fn all_digits(s: Seq<char>) -> bool {
    forall|i: int| 0 <= i < s.len() ==> is_digit(#[trigger] s[i])
}

/// The number that the decimal digits `s` write.
pub open spec fn decimal(s: Seq<char>) -> nat
    decreases s.len(),
{
    if s.len() == 0 {
        0
    } else {
        decimal(s.drop_last()) * 10 + (s.last() as nat - '0' as nat) as nat
    }
}

/// The digits of a number written with or without a plus sign in front.
pub open spec fn unsigned(s: Seq<char>) -> Seq<char> {
    if s.len() > 0 && s[0] == '+' {
        s.drop_first()
    } else {
        s
    }
}

/// The process identifier that `name` writes: at least one decimal digit,
/// after an optional plus sign, of a value that fits 32 bits.
pub open spec fn pid_of(name: Seq<char>) -> Option<u32> {
    let digits = unsigned(name);
    if digits.len() > 0 && all_digits(digits) && decimal(digits) <= u32::MAX {
        Some(decimal(digits) as u32)
    } else {
        None
    }
}

/// One entry of the process table, as far as it was read.
#[derive(Debug, Clone, PartialEq, Eq)]
pub struct ProcessEntry {
    /// The entry's name in the table.
    pub name: String,
    /// Whether the entry is a directory.
    pub is_dir: bool,
    /// The name of the program that runs there, where it could be read.
    pub comm: Option<String>,
}

/// The program name that the text of a `comm` file gives: the text, less
/// the line feed that ends it.
pub open spec fn program_name(comm: Seq<char>) -> Seq<char> {
    if comm.len() > 0 && comm.last() == '\n' {
        comm.drop_last()
    } else {
        comm
    }
}

/// Whether the text of a `comm` file names this very program.
pub open spec fn is_own_name(comm: Seq<char>) -> bool {
    program_name(comm) == PROGRAM_NAME@
}

/// The process identifier of `entry`, if it is an instance of this program:
/// a directory named by a process identifier whose program name could be
/// read and is this program's own.
pub open spec fn peer_of(entry: ProcessEntry) -> Option<u32> {
    match entry.comm {
        Some(comm) => if entry.is_dir && is_own_name(comm@) {
            pid_of(entry.name@)
        } else {
            None
        },
        None => None,
    }
}

/// The process identifiers of the instances among `entries`, in their order.
pub open spec fn peers_among(entries: Seq<ProcessEntry>) -> Seq<u32>
    decreases entries.len(),
{
    if entries.len() == 0 {
        Seq::empty()
    } else {
        let before = peers_among(entries.drop_last());
        match peer_of(entries.last()) {
            Some(pid) => before.push(pid),
            None => before,
        }
    }
}

/// A number does not shrink when more digits are written behind it.
proof fn decimal_grows(s: Seq<char>, k: int)
    requires
        0 <= k <= s.len(),
        all_digits(s),
    ensures
        decimal(s.take(k)) <= decimal(s),
    decreases s.len() - k,
{
    if k < s.len() {
        let longer = s.take(k + 1);
        assert(longer.drop_last() =~= s.take(k));
        assert(is_digit(s[k]));
        assert(longer.last() == s[k]);
        decimal_grows(s, k + 1);
    } else {
        assert(s.take(k) =~= s);
    }
}

/// Reads a process identifier out of the name of a process table entry.
pub fn parse_pid(name: &str) -> (pid: Option<u32>)
    ensures
        pid == pid_of(name@),
{
    let chars = chars_of(name);
    let n: usize = chars.len();
    let start: usize = if n > 0 && chars[0] == '+' {
        1
    } else {
        0
    };
    if start == n {
        return None;
    }
    let ghost digits = unsigned(name@);
    assert(digits =~= chars@.subrange(start as int, n as int));
    let mut value: u32 = 0;
    let mut i: usize = start;
    while i < n
        invariant
            start <= i <= n == chars@.len(),
            start < n,
            digits == unsigned(name@),
            digits == chars@.subrange(start as int, n as int),
            all_digits(digits.take(i - start)),
            value == decimal(digits.take(i - start)),
        decreases n - i,
    {
        let c: char = chars[i];
        assert(digits[i - start] == c);
        if !('0' <= c && c <= '9') {
            assert(!is_digit(digits[i - start]));
            return None;
        }
        let digit: u32 = c as u32 - '0' as u32;
        let ghost longer = digits.take(i - start + 1);
        proof {
            assert(longer.drop_last() =~= digits.take(i - start));
            assert(longer.last() == c);
            assert(all_digits(longer)) by {
                assert forall|j: int| 0 <= j < longer.len() implies is_digit(
                    #[trigger] longer[j],
                ) by {
                    if j < i - start {
                        assert(longer[j] == digits.take(i - start)[j]);
                    }
                }
            }
        }
        assert(decimal(longer) == value * 10 + digit);
        if value > (u32::MAX - digit) / 10 {
            proof {
                assert(decimal(longer) > u32::MAX);
                if all_digits(digits) {
                    decimal_grows(digits, i - start + 1);
                }
            }
            return None;
        }
        value = value * 10 + digit;
        i += 1;
    }
    assert(digits.take(n - start) =~= digits);
    Some(value)
}

/// The number under which a process can be signalled alone: its identifier,
/// unless that is zero or too large, which would address a group of
/// processes instead.
pub open spec fn target_of(pid: u32) -> Option<i32> {
    if 0 < pid <= i32::MAX {
        Some(pid as i32)
    } else {
        None
    }
}

/// The number by which to signal process `pid` and no other, if there is one.
pub fn signal_target(pid: u32) -> (target: Option<i32>)
    ensures
        target == target_of(pid),
{
    if 0 < pid && pid <= 0x7fff_ffff {
        Some(pid as i32)
    } else {
        None
    }
}

/// Whether the text of a `comm` file names this program, and so an instance of it.
pub fn names_peer(comm: &str) -> (peer: bool)
    ensures
        peer == is_own_name(comm@),
{
    let chars = chars_of(comm);
    let n: usize = chars.len();
    let name: String = if n > 0 && chars[n - 1] == '\n' {
        assert(comm@.subrange(0, n - 1) =~= comm@.drop_last());
        slice_of(comm, 0, n - 1)
    } else {
        comm.to_owned()
    };
    name == PROGRAM_NAME.to_owned()
}

/// The process identifier of `entry`, if it is an instance of this program.
pub fn peer_pid(entry: &ProcessEntry) -> (pid: Option<u32>)
    ensures
        pid == peer_of(*entry),
{
    if !entry.is_dir {
        return None;
    }
    match &entry.comm {
        Some(comm) => {
            if names_peer(comm.as_str()) {
                parse_pid(entry.name.as_str())
            } else {
                None
            }
        },
        None => None,
    }
}

/// The instances of this program among the entries of the process table:
/// the processes to which a change of selection is broadcast.
pub fn peer_pids(entries: &Vec<ProcessEntry>) -> (pids: Vec<u32>)
    ensures
        pids@ == peers_among(entries@),
{
    let mut pids: Vec<u32> = Vec::new();
    let mut i: usize = 0;
    while i < entries.len()
        invariant
            i <= entries@.len(),
            pids@ == peers_among(entries@.take(i as int)),
        decreases entries@.len() - i,
    {
        assert(entries@.take(i + 1).drop_last() =~= entries@.take(i as int));
        match peer_pid(&entries[i]) {
            Some(pid) => {
                pids.push(pid);
            },
            None => {},
        }
        i += 1;
    }
    assert(entries@.take(entries@.len() as int) =~= entries@);
    pids
}

} // verus!
