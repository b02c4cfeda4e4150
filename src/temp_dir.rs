//! A temporary directory owned by a test, named `<prefix>_NNNNN` under the
//! temporary root and removed when its owner is done with it.
//!
//! Creating and removing the directory is left to the caller; this module
//! picks the names, decides what to do with the outcome of each attempt, and
//! keeps the path and the cleanup flag.

use vstd::prelude::*;
use crate::path::{joined, push_segment, sep, PathBuilder};

verus! {

/// The decimal digit for `d` in `0..10`.
pub open spec fn digit_char(d: int) -> char {
    seq!['0', '1', '2', '3', '4', '5', '6', '7', '8', '9'][d]
}

/// The last five decimal digits of `n`, zero padded: `n` itself for every
/// `n` below 100000, which holds every `u16`.
pub open spec fn five_digits(n: nat) -> Seq<char> {
    seq![
        digit_char(((n / 10000) % 10) as int),
        digit_char(((n / 1000) % 10) as int),
        digit_char(((n / 100) % 10) as int),
        digit_char(((n / 10) % 10) as int),
        digit_char((n % 10) as int),
    ]
}

/// The directory name `<prefix>_NNNNN` for the number `n`.
pub open spec fn dir_name(prefix: Seq<char>, n: nat) -> Seq<char> {
    prefix + seq!['_'] + five_digits(n)
}

/// The full path tried for `prefix` and `n` under `root`.
pub open spec fn candidate_path(root: Seq<char>, prefix: Seq<char>, n: nat) -> Seq<char> {
    joined(root, dir_name(prefix, n))
}

/// `s` holds no separator.
pub open spec fn no_sep(s: Seq<char>) -> bool {
    forall|i: int| 0 <= i < s.len() ==> s[i] != sep()
}

/// The last segment of `path` is `seg`: `path` ends with `seg`, `seg` holds no
/// separator, and what comes before it is empty or ends with a separator.
pub open spec fn has_final_segment(path: Seq<char>, seg: Seq<char>) -> bool {
    &&& seg.len() <= path.len()
    &&& path.subrange(path.len() - seg.len(), path.len() as int) == seg
    &&& no_sep(seg)
    &&& (seg.len() == path.len() || path[path.len() - seg.len() - 1] == sep())
}

/// `s` is made of decimal digits only.
pub open spec fn all_digits(s: Seq<char>) -> bool {
    forall|i: int| 0 <= i < s.len() ==> '0' <= #[trigger] s[i] <= '9'
}

/// Every `n` is written with five decimal digits.
pub proof fn lemma_five_digits(n: nat)
    ensures
        five_digits(n).len() == 5,
        all_digits(five_digits(n)),
{
    let d = five_digits(n);
    assert forall|i: int| 0 <= i < d.len() implies '0' <= #[trigger] d[i] <= '9' by {
        assert(0 <= i < 5);
    }
}

/// For a prefix without separators, the last segment of every candidate path
/// is the prefix, an underscore and exactly five decimal digits.
pub proof fn lemma_candidate_final_segment(root: Seq<char>, prefix: Seq<char>, n: u16)
    requires
        no_sep(prefix),
    ensures
        has_final_segment(candidate_path(root, prefix, n as nat), dir_name(prefix, n as nat)),
        dir_name(prefix, n as nat) == prefix + seq!['_'] + five_digits(n as nat),
        five_digits(n as nat).len() == 5,
        all_digits(five_digits(n as nat)),
{
    lemma_five_digits(n as nat);
    let name = dir_name(prefix, n as nat);
    let path = candidate_path(root, prefix, n as nat);
    assert forall|i: int| 0 <= i < name.len() implies name[i] != sep() by {
        if i < prefix.len() {
            assert(name[i] == prefix[i]);
        } else if i == prefix.len() {
            assert(name[i] == '_');
        } else {
            assert(name[i] == five_digits(n as nat)[i - prefix.len() - 1]);
        }
    }
    assert(name[0] != sep());
    assert(path.subrange(path.len() - name.len(), path.len() as int) =~= name);
}

/// Relies on rand::random: a number drawn from the thread-local generator.
/// Every `u16` may come back.
#[verifier::external_body]
fn random_u16() -> (r: u16) {
    rand::random::<u16>()
}

const DIGITS: &'static str = "0123456789";

/// Appends the digit `d` to `s`.
fn append_digit(s: &mut String, d: u16)
    requires
        d < 10,
    ensures
        final(s)@ == old(s)@ + seq![digit_char(d as int)],
{
    proof {
        reveal_strlit("0123456789");
    }
    let digit = DIGITS.substring_char(d as usize, d as usize + 1);
    s.append(digit);
    proof {
        assert(digit@ =~= seq![digit_char(d as int)]);
    }
}

/// The directory name `<prefix>_NNNNN` for `number`, zero padded to five digits.
pub fn dir_name_for(prefix: &str, number: u16) -> (r: String)
    ensures
        r@ == dir_name(prefix@, number as nat),
{
    let mut s = String::from_str(prefix);
    s.append("_");
    proof {
        reveal_strlit("_");
    }
    append_digit(&mut s, (number / 10000) % 10);
    append_digit(&mut s, (number / 1000) % 10);
    append_digit(&mut s, (number / 100) % 10);
    append_digit(&mut s, (number / 10) % 10);
    append_digit(&mut s, number % 10);
    proof {
        assert(s@ =~= dir_name(prefix@, number as nat));
    }
    s
}

/// The path `<temp_root>/<prefix>_NNNNN` to try for `number`.
pub fn candidate_for(temp_root: &str, prefix: &str, number: u16) -> (r: String)
    ensures
        r@ == candidate_path(temp_root@, prefix@, number as nat),
{
    let name = dir_name_for(prefix, number);
    let mut p = String::from_str(temp_root);
    push_segment(&mut p, name.as_str());
    p
}

/// Why creating a candidate directory failed.
pub enum CreateDirError<E> {
    /// Something already has that name: another attempt is in order.
    AlreadyExists,
    /// Any other failure, handed back unchanged.
    Other(E),
}

/// What to do after an attempt to create a candidate directory.
pub enum Allocation<E> {
    /// The name was taken: draw another one.
    Retry,
    /// Creation failed for another reason: give up and report it.
    Failed(E),
    /// The directory exists now and belongs to the handle.
    Created(TempDir),
}

/// What a temporary directory handle holds: its path, and whether the
/// directory is removed when the handle is dropped.
pub ghost struct TempDirView {
    pub path: Seq<char>,
    pub cleanup: bool,
}

/// A temporary directory that this handle created and owns.
#[derive(Debug)]
pub struct TempDir {
    path: String,
    do_drop: bool,
}

impl View for TempDir {
    type V = TempDirView;

    closed spec fn view(&self) -> TempDirView {
        TempDirView { path: self.path@, cleanup: self.do_drop }
    }
}

impl TempDir {
    /// Draws a random number and gives the path to try for it under `temp_root`.
    pub fn next_candidate(temp_root: &str, prefix: &str) -> (r: String)
        ensures
            exists|n: u16| r@ == candidate_path(temp_root@, prefix@, n as nat),
    {
        let number = random_u16();
        candidate_for(temp_root, prefix, number)
    }

    /// Decides on the outcome of creating the directory `candidate`: a name
    /// that is taken asks for a retry, any other failure is passed on, and
    /// success gives a handle that removes the directory when dropped.
    pub fn settle<E>(candidate: String, created: Result<(), CreateDirError<E>>) -> (r: Allocation<E>)
        ensures
            match created {
                Ok(()) => r matches Allocation::Created(d) && d@ == (TempDirView {
                    path: candidate@,
                    cleanup: true,
                }),
                Err(CreateDirError::AlreadyExists) => r is Retry,
                Err(CreateDirError::Other(e)) => r == Allocation::<E>::Failed(e),
            },
    {
        match created {
            Ok(()) => Allocation::Created(TempDir { path: candidate, do_drop: true }),
            Err(CreateDirError::AlreadyExists) => Allocation::Retry,
            Err(CreateDirError::Other(e)) => Allocation::Failed(e),
        }
    }

    /// The absolute path of the directory.
    pub fn path(&self) -> (r: &str)
        ensures
            r@ == self@.path,
    {
        self.path.as_str()
    }

    /// A builder that starts at the directory's path.
    pub fn build(&self) -> (r: PathBuilder)
        ensures
            r@ == self@.path,
    {
        PathBuilder::from_path(self.path.as_str())
    }

    /// Keeps the directory when the handle is dropped, so that its contents
    /// can be inspected after a failing test.
    pub fn do_not_drop(&mut self)
        ensures
            final(self)@ == (TempDirView { path: old(self)@.path, cleanup: false }),
    {
        self.do_drop = false;
    }

    /// Whether dropping the handle must remove the directory.
    pub fn cleanup_on_drop(&self) -> (r: bool)
        ensures
            r == self@.cleanup,
    {
        self.do_drop
    }
}

} // verus!
