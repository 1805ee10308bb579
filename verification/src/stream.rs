//! The position of a byte stream over one object, and how it moves.
//!
//! Reading and writing advance the position by what was transferred; seeking
//! sets it from the start of the object, from its end, or from where it is.
//! A position is a `u64`: a move that would leave that range is refused.

use vstd::prelude::*;

verus! {

/// Where to seek: to an offset from the start of the object, or to a signed
/// distance from its end or from the current position.
#[derive(Clone, Copy, Debug, PartialEq, Eq, Structural, Hash)]
pub enum SeekFrom {
    Start(u64),
    End(i64),
    Current(i64),
}

impl SeekFrom {
    /// Whether the target depends on the length of the object, which then has
    /// to be asked of the store.
    pub open spec fn spec_needs_length(self) -> bool {
        self is End
    }

    /// Whether the target depends on the length of the object, which then has
    /// to be asked of the store.
    #[verifier::when_used_as_spec(spec_needs_length)]
    pub fn needs_length(self) -> (needed: bool)
        ensures
            needed == self.spec_needs_length(),
    {
        match self {
            SeekFrom::End(_) => true,
            _ => false,
        }
    }
}

/// The position that a seek aims at, as a mathematical integer, from the
/// current position `offset` in an object of `length` bytes.
pub open spec fn seek_target(offset: u64, length: u64, from: SeekFrom) -> int {
    match from {
        SeekFrom::Start(start) => start as int,
        SeekFrom::End(distance) => length + distance,
        SeekFrom::Current(distance) => offset + distance,
    }
}

/// Whether a mathematical integer is a position.
pub open spec fn is_position(target: int) -> bool {
    0 <= target <= u64::MAX
}

/// The position after `count` bytes were transferred at `offset`.
pub open spec fn advanced(offset: u64, count: usize) -> int {
    offset + count
}

fn displaced(base: u64, distance: i64) -> (position: Option<u64>)
    ensures
        position is Some <==> is_position(base + distance),
        position is Some ==> position == Some((base + distance) as u64),
{
    let target: i128 = base as i128 + distance as i128;
    if 0 <= target && target <= u64::MAX as i128 {
        Some(target as u64)
    } else {
        None
    }
}

/// The position of a stream over one object.
#[derive(Clone, Copy, Debug, PartialEq, Eq, Structural, Hash)]
pub struct Position {
    offset: u64,
}

impl View for Position {
    type V = u64;

    closed spec fn view(&self) -> u64 {
        self.offset
    }
}

impl Position {
    /// The start of the object.
    pub fn new() -> (position: Self)
        ensures
            position@ == 0,
    {
        Position { offset: 0 }
    }

    /// The offset from the start of the object.
    pub fn offset(&self) -> (offset: u64)
        ensures
            offset == self@,
    {
        self.offset
    }

    /// Moves on by the `count` bytes that were read or written, and returns
    /// `count`. If the position would leave the range of `u64`, it stays where
    /// it is and `None` is returned.
    pub fn advance(&mut self, count: usize) -> (moved: Option<usize>)
        ensures
            moved is Some <==> is_position(advanced(old(self)@, count)),
            moved is Some ==> moved == Some(count) && final(self)@ == advanced(old(self)@, count),
            moved is None ==> final(self)@ == old(self)@,
    {
        match self.offset.checked_add(count as u64) {
            Some(next) => {
                self.offset = next;
                Some(count)
            },
            None => None,
        }
    }

    /// Seeks in an object of `length` bytes, and returns the new position. The
    /// length matters only for a seek from the end. If the target is not a
    /// position, the stream stays where it is and `None` is returned.
    pub fn seek(&mut self, length: u64, from: SeekFrom) -> (position: Option<u64>)
        ensures
            position is Some <==> is_position(seek_target(old(self)@, length, from)),
            position is Some ==> position == Some(final(self)@) && final(self)@ == seek_target(
                old(self)@,
                length,
                from,
            ),
            position is None ==> final(self)@ == old(self)@,
    {
        let target = match from {
            SeekFrom::Start(start) => Some(start),
            SeekFrom::End(distance) => displaced(length, distance),
            SeekFrom::Current(distance) => displaced(self.offset, distance),
        };
        match target {
            Some(offset) => {
                self.offset = offset;
                Some(offset)
            },
            None => None,
        }
    }
}

} // verus!
