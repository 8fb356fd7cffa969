use vstd::prelude::*;
use std::cmp::Ordering;
use crate::checksum::ChecksumEngine;
use crate::generation::{generation_order, lemma_successor_is_newer, wrapping_cmp, Generation};
use crate::writer::BufferedFileWriter;

verus! {

#[verifier::external_type_specification]
#[verifier::external_body]
pub struct ExIoError(std::io::Error);

/// The number of slots behind one logical file.
pub const BUFFER_COUNT: usize = 2;

/// The errors of this library.
#[derive(Debug)]
pub enum BufferedFileErrors {
    /// The underlying filesystem reported an error.
    IoError(std::io::Error),
    /// Either no slot exists, or all existing slots are invalid.
    AllFilesInvalidError,
}

/// Relies on `String::push_str`: appends `tail` to `s`.
#[verifier::external_body]
fn push_str(s: &mut String, tail: &str)
    ensures
        final(s)@ == old(s)@ + tail@,
{
    s.push_str(tail)
}

/// The path of the first slot of a logical path.
pub open spec fn first_slot_path(path: Seq<char>) -> Seq<char> {
    path + ".1"@
}

/// The path of the second slot of a logical path.
pub open spec fn second_slot_path(path: Seq<char>) -> Seq<char> {
    path + ".2"@
}

/// Which slot holds the newest valid generation, if any: between two valid
/// slots the first one only when its generation is strictly newer.
pub open spec fn newest_slot(a: Generation, b: Generation) -> Option<int> {
    match (a, b) {
        (Generation::Valid(x), Generation::Valid(y)) => if generation_order(x, y) == Ordering::Greater {
            Some(0)
        } else {
            Some(1)
        },
        (Generation::Valid(_), Generation::Invalid) => Some(0),
        (Generation::Invalid, Generation::Valid(_)) => Some(1),
        (Generation::Invalid, Generation::Invalid) => None,
    }
}

/// Which slot a write overwrites: the least current one. An invalid slot is
/// less current than a valid one; between equals the first slot is taken.
pub open spec fn write_target(a: Generation, b: Generation) -> int {
    match (a, b) {
        (Generation::Valid(x), Generation::Valid(y)) => if generation_order(x, y) == Ordering::Greater {
            1
        } else {
            0
        },
        (Generation::Valid(_), Generation::Invalid) => 1,
        _ => 0,
    }
}

/// The generation a write stamps: one past the newest valid generation, or 1
/// when no slot is valid.
pub open spec fn next_generation(a: Generation, b: Generation) -> u8 {
    match newest_slot(a, b) {
        Some(i) => {
            let g = if i == 0 { a->Valid_0 } else { b->Valid_0 };
            ((g as int + 1) % 256) as u8
        },
        None => 1,
    }
}

/// The statuses of both slots once a write planned on `s` has completed: the
/// target slot holds the next generation, the other slot is untouched.
pub open spec fn after_write(s: (Generation, Generation)) -> (Generation, Generation) {
    let g = Generation::Valid(next_generation(s.0, s.1));
    if write_target(s.0, s.1) == 0 {
        (g, s.1)
    } else {
        (s.0, g)
    }
}

/// The statuses of both slots after `n` completed writes on a fresh path.
pub open spec fn statuses_after(n: nat) -> (Generation, Generation)
    decreases n,
{
    if n == 0 {
        (Generation::Invalid, Generation::Invalid)
    } else {
        after_write(statuses_after((n - 1) as nat))
    }
}

/// A write never targets the newest valid slot, so an interrupted write leaves
/// the last complete generation readable.
pub proof fn lemma_write_spares_newest(a: Generation, b: Generation)
    ensures
        newest_slot(a, b) matches Some(i) ==> write_target(a, b) != i,
{
}

/// Reading survives the loss of one slot: when one slot is invalid and the
/// other valid, the valid one is read; when both are invalid, nothing is.
pub proof fn lemma_read_survivor(a: Generation, b: Generation)
    ensures
        a is Invalid && b is Valid ==> newest_slot(a, b) == Some(1int),
        a is Valid && b is Invalid ==> newest_slot(a, b) == Some(0int),
        a is Invalid && b is Invalid ==> newest_slot(a, b) is None,
{
}

/// On a path where neither slot is present, nothing can be read, and a write
/// goes to the first slot stamped with generation 1.
pub proof fn lemma_fresh_path()
    ensures
        newest_slot(Generation::Invalid, Generation::Invalid) is None,
        write_target(Generation::Invalid, Generation::Invalid) == 0,
        next_generation(Generation::Invalid, Generation::Invalid) == 1,
{
}

/// The statuses after `n` writes on a fresh path, one write past `n - 1`.
proof fn lemma_statuses_after(n: nat)
    requires
        n >= 1,
    ensures
        n == 1 ==> statuses_after(n) == (Generation::Valid(1), Generation::Invalid),
        n >= 2 && n % 2 == 1 ==> statuses_after(n) == (
            Generation::Valid((n % 256) as u8),
            Generation::Valid(((n - 1) % 256) as u8),
        ),
        n % 2 == 0 ==> statuses_after(n) == (
            Generation::Valid(((n - 1) % 256) as u8),
            Generation::Valid((n % 256) as u8),
        ),
    decreases n,
{
    if n >= 2 {
        lemma_statuses_after((n - 1) as nat);
        let m = ((n - 1) % 256) as u8;
        let m1 = (n % 256) as u8;
        assert(m1 as int == (m as int + 1) % 256);
        lemma_successor_is_newer(m);
        if n >= 3 {
            let m0 = ((n - 2) % 256) as u8;
            assert(m as int == (m0 as int + 1) % 256);
            lemma_successor_is_newer(m0);
        }
    } else {
        assert(statuses_after(0) == (Generation::Invalid, Generation::Invalid));
    }
}

/// Successive writes on a fresh path alternate slots: write `n` (counting from
/// 1) goes to the first slot when `n` is odd and to the second when it is even,
/// stamped with generation `n mod 256`.
pub proof fn lemma_alternation(n: nat)
    requires
        n >= 1,
    ensures
        write_target(statuses_after((n - 1) as nat).0, statuses_after((n - 1) as nat).1) == (
        if n % 2 == 1 {
            0int
        } else {
            1int
        }),
        next_generation(statuses_after((n - 1) as nat).0, statuses_after((n - 1) as nat).1) as int
            == n % 256,
{
    if n >= 2 {
        lemma_statuses_after((n - 1) as nat);
        let m = ((n - 1) % 256) as u8;
        assert((m as int + 1) % 256 == n % 256);
        lemma_successor_is_newer(m);
        if n >= 3 {
            let m0 = ((n - 2) % 256) as u8;
            assert(m as int == (m0 as int + 1) % 256);
            lemma_successor_is_newer(m0);
        }
    }
}

/// A logical file: the paths and statuses of its two slots, taken once when it
/// was opened and never refreshed. It is consumed by `read` or `write`.
#[derive(Debug)]
pub struct BufferedFile {
    files: Vec<(String, Generation)>,
}

impl View for BufferedFile {
    type V = Seq<(Seq<char>, Generation)>;

    /// Each slot's path and status, the first slot first.
    closed spec fn view(&self) -> Seq<(Seq<char>, Generation)> {
        self.files@.map_values(|f: (String, Generation)| (f.0@, f.1))
    }
}

impl BufferedFile {
    /// A logical file always has two slots.
    pub closed spec fn wf(&self) -> bool {
        self.files@.len() == BUFFER_COUNT
    }

    /// The paths of the two slots of a logical path: the path with `.1` and
    /// with `.2` appended, siblings of the logical path itself.
    pub fn find_files(path: &str) -> (r: Vec<String>)
        ensures
            r@.len() == BUFFER_COUNT,
            r@[0]@ == first_slot_path(path@),
            r@[1]@ == second_slot_path(path@),
    {
        let mut first = path.to_owned();
        push_str(&mut first, ".1");
        let mut second = path.to_owned();
        push_str(&mut second, ".2");
        let mut result: Vec<String> = Vec::new();
        result.push(first);
        result.push(second);
        result
    }

    /// Builds the logical file at `path` from what probing each of its slots
    /// gave: a status, or the I/O failure that stopped the probe. A slot file
    /// that does not exist is no failure: its status is `Generation::Invalid`.
    /// The first failure, if any, is returned.
    pub fn new(
        path: &str,
        first: Result<Generation, std::io::Error>,
        second: Result<Generation, std::io::Error>,
    ) -> (r: Result<Self, BufferedFileErrors>)
        ensures
            first is Ok && second is Ok ==> r is Ok,
            r is Ok ==> {
                let f = r->Ok_0;
                &&& f.wf()
                &&& f@[0] == (first_slot_path(path@), first->Ok_0)
                &&& f@[1] == (second_slot_path(path@), second->Ok_0)
            },
            first is Err ==> r == Err::<Self, BufferedFileErrors>(
                BufferedFileErrors::IoError(first->Err_0),
            ),
            first is Ok && second is Err ==> r == Err::<Self, BufferedFileErrors>(
                BufferedFileErrors::IoError(second->Err_0),
            ),
    {
        let first = match first {
            Ok(g) => g,
            Err(e) => return Err(BufferedFileErrors::IoError(e)),
        };
        let second = match second {
            Ok(g) => g,
            Err(e) => return Err(BufferedFileErrors::IoError(e)),
        };
        let mut paths = Self::find_files(path);
        let second_path = paths.pop().unwrap();
        let first_path = paths.pop().unwrap();
        let mut files: Vec<(String, Generation)> = Vec::new();
        files.push((first_path, first));
        files.push((second_path, second));
        let f = BufferedFile { files };
        assert(f@[0] == (first_slot_path(path@), first));
        Ok(f)
    }

    /// The index of the slot with the newest valid generation, if any.
    fn newest_index(&self) -> (r: Option<usize>)
        requires
            self.wf(),
        ensures
            r matches Some(i) ==> newest_slot(self@[0].1, self@[1].1) == Some(i as int),
            r is None ==> newest_slot(self@[0].1, self@[1].1) is None,
    {
        match (self.files[0].1, self.files[1].1) {
            (Generation::Valid(x), Generation::Valid(y)) => match wrapping_cmp(x, y) {
                Ordering::Greater => Some(0),
                _ => Some(1),
            },
            (Generation::Valid(_), Generation::Invalid) => Some(0),
            (Generation::Invalid, Generation::Valid(_)) => Some(1),
            (Generation::Invalid, Generation::Invalid) => None,
        }
    }

    /// Selects the newest valid slot.
    pub fn select_newest_valid(&self) -> (r: Result<&String, BufferedFileErrors>)
        requires
            self.wf(),
        ensures
            newest_slot(self@[0].1, self@[1].1) matches Some(i) ==> r is Ok && r->Ok_0@ == self@[i].0,
            newest_slot(self@[0].1, self@[1].1) is None ==> r matches Err(
                BufferedFileErrors::AllFilesInvalidError,
            ),
    {
        match self.newest_index() {
            Some(i) => Ok(&self.files[i].0),
            None => Err(BufferedFileErrors::AllFilesInvalidError),
        }
    }

    /// Opens the logical file for reading: the path of the slot to read, the
    /// one with the newest valid generation.
    pub fn read(self) -> (r: Result<String, BufferedFileErrors>)
        requires
            self.wf(),
        ensures
            newest_slot(self@[0].1, self@[1].1) matches Some(i) ==> r is Ok && r->Ok_0@ == self@[i].0,
            newest_slot(self@[0].1, self@[1].1) is None ==> r matches Err(
                BufferedFileErrors::AllFilesInvalidError,
            ),
    {
        match self.select_newest_valid() {
            Ok(p) => Ok(p.clone()),
            Err(e) => Err(e),
        }
    }

    /// Opens the logical file for writing: the path of the slot to overwrite,
    /// the least current one, and a writer stamped with the next generation.
    /// The newest valid slot is never the one overwritten.
    pub fn write<'a>(self, engine: &'a ChecksumEngine) -> (r: (String, BufferedFileWriter<'a>))
        requires
            self.wf(),
        ensures
            r.0@ == self@[write_target(self@[0].1, self@[1].1)].0,
            r.1.wf(),
            r.1.stamp() == next_generation(self@[0].1, self@[1].1),
            r.1@ == Seq::<u8>::empty(),
    {
        let target: usize = match (self.files[0].1, self.files[1].1) {
            (Generation::Valid(x), Generation::Valid(y)) => match wrapping_cmp(x, y) {
                Ordering::Greater => 1,
                _ => 0,
            },
            (Generation::Valid(_), Generation::Invalid) => 1,
            _ => 0,
        };
        let current: u8 = match self.newest_index() {
            Some(i) => match self.files[i].1 {
                Generation::Valid(g) => g,
                Generation::Invalid => 0,
            },
            None => 0,
        };
        let mut files = self.files;
        let (path, _) = files.remove(target);
        (path, BufferedFileWriter::new(engine, current.wrapping_add(1)))
    }
}

} // verus!
