//! Byte signatures with wildcard positions, and the scan that finds them.
//!
//! A pattern is matched against raw bytes, position by position, with no
//! assumption of alignment. That a pattern is absent is an ordinary outcome:
//! the scan reports it as [`ScanError::NotFound`].

use crate::memory::MemoryImage;
use vstd::prelude::*;

verus! {

/// One position of a signature: a byte that must be there, or any byte.
#[derive(Clone, Copy, Debug, PartialEq, Eq, Structural)]
pub enum PatternByte {
    Exact(u8),
    Any,
}

impl PatternByte {
    /// Whether `byte` may stand at this position.
    pub open spec fn accepts(self, byte: u8) -> bool {
        match self {
            PatternByte::Exact(wanted) => wanted == byte,
            PatternByte::Any => true,
        }
    }

    pub fn matches(&self, byte: u8) -> (accepted: bool)
        ensures
            accepted == self.accepts(byte),
    {
        match self {
            PatternByte::Exact(wanted) => *wanted == byte,
            PatternByte::Any => true,
        }
    }
}

/// Why a scan gave no address.
#[derive(Clone, Copy, Debug, PartialEq, Eq, Structural)]
pub enum ScanError {
    /// No position of the scanned bytes matches the pattern.
    NotFound,
}

/// Whether `pattern` matches the bytes of `data` that start at `pos`.
pub open spec fn matches_at(pattern: Seq<PatternByte>, data: Seq<u8>, pos: int) -> bool {
    &&& 0 <= pos
    &&& pos + pattern.len() <= data.len()
    &&& forall|k: int| 0 <= k < pattern.len() ==> (#[trigger] pattern[k]).accepts(data[pos + k])
}

/// Whether `pos` is the lowest position of `data` at which `pattern` matches.
pub open spec fn is_first_match(pattern: Seq<PatternByte>, data: Seq<u8>, pos: int) -> bool {
    &&& matches_at(pattern, data, pos)
    &&& forall|earlier: int| 0 <= earlier < pos ==> !matches_at(pattern, data, earlier)
}

/// Whether `pattern` matches nowhere in `data`.
pub open spec fn matches_nowhere(pattern: Seq<PatternByte>, data: Seq<u8>) -> bool {
    forall|pos: int| !matches_at(pattern, data, pos)
}

/// The lowest position of `data` at which `pattern` matches, if there is one.
pub open spec fn first_match(pattern: Seq<PatternByte>, data: Seq<u8>) -> Option<int> {
    if exists|pos: int| is_first_match(pattern, data, pos) {
        Some(choose|pos: int| is_first_match(pattern, data, pos))
    } else {
        None
    }
}

/// There is one lowest match at most, so a position that is one is the one
/// that [`first_match`] names.
pub proof fn lemma_first_match_is(pattern: Seq<PatternByte>, data: Seq<u8>, pos: int)
    requires
        is_first_match(pattern, data, pos),
    ensures
        first_match(pattern, data) == Some(pos),
{
    let chosen = choose|p: int| is_first_match(pattern, data, p);
    assert(is_first_match(pattern, data, chosen));
    if chosen < pos {
        assert(!matches_at(pattern, data, chosen));
    } else if pos < chosen {
        assert(!matches_at(pattern, data, pos));
    }
}

/// A pattern that matches nowhere has no first match.
pub proof fn lemma_first_match_none(pattern: Seq<PatternByte>, data: Seq<u8>)
    requires
        matches_nowhere(pattern, data),
    ensures
        first_match(pattern, data).is_none(),
{
}

/// What a scan of `data`, found at address `base`, returns.
pub open spec fn scan_result(pattern: Seq<PatternByte>, base: int, data: Seq<u8>) -> Result<
    usize,
    ScanError,
> {
    match first_match(pattern, data) {
        Some(pos) => Ok((base + pos) as usize),
        None => Err(ScanError::NotFound),
    }
}

/// Whether `found` lists, in rising order, `offset` plus each position of
/// `data` at which `pattern` matches, and nothing else.
pub open spec fn lists_all_matches(
    pattern: Seq<PatternByte>,
    data: Seq<u8>,
    offset: int,
    found: Seq<usize>,
) -> bool {
    &&& forall|i: int|
        0 <= i < found.len() ==> matches_at(pattern, data, #[trigger] found[i] - offset)
    &&& forall|i: int, j: int| 0 <= i < j < found.len() ==> found[i] < found[j]
    &&& forall|pos: int| #[trigger]
        matches_at(pattern, data, pos) ==> exists|i: int|
            0 <= i < found.len() && #[trigger] found[i] == offset + pos
}

/// An ordered list of bytes and wildcards.
#[derive(Debug)]
pub struct BytePattern {
    pub slots: Vec<PatternByte>,
}

impl View for BytePattern {
    type V = Seq<PatternByte>;

    open spec fn view(&self) -> Seq<PatternByte> {
        self.slots@
    }
}

impl BytePattern {
    pub fn new(slots: Vec<PatternByte>) -> (pattern: BytePattern)
        ensures
            pattern@ == slots@,
    {
        BytePattern { slots }
    }

    /// The pattern that matches exactly `bytes`.
    pub fn from_bytes(bytes: &[u8]) -> (pattern: BytePattern)
        ensures
            pattern@.len() == bytes@.len(),
            forall|k: int| 0 <= k < bytes@.len() ==> pattern@[k] == PatternByte::Exact(bytes@[k]),
    {
        let mut slots: Vec<PatternByte> = Vec::new();
        let mut k: usize = 0;
        while k < bytes.len()
            invariant
                k <= bytes@.len(),
                slots@.len() == k,
                forall|j: int| 0 <= j < k ==> slots@[j] == PatternByte::Exact(bytes@[j]),
            decreases bytes@.len() - k,
        {
            slots.push(PatternByte::Exact(bytes[k]));
            k = k + 1;
        }
        BytePattern { slots }
    }

    pub fn len(&self) -> (n: usize)
        ensures
            n == self@.len(),
    {
        self.slots.len()
    }

    /// Whether the pattern matches the bytes of `data` that start at `pos`.
    pub fn matches_at(&self, data: &[u8], pos: usize) -> (matched: bool)
        ensures
            matched == matches_at(self@, data@, pos as int),
    {
        let n: usize = self.slots.len();
        if pos > data.len() || n > data.len() - pos {
            return false;
        }
        let mut k: usize = 0;
        while k < n
            invariant
                k <= n,
                n == self.slots@.len(),
                pos + n <= data.len(),
                forall|j: int| 0 <= j < k ==> (#[trigger] self.slots@[j]).accepts(data@[pos + j]),
            decreases n - k,
        {
            if !self.slots[k].matches(data[pos + k]) {
                return false;
            }
            k = k + 1;
        }
        true
    }

    /// The lowest position of `data` at which the pattern matches.
    pub fn find(&self, data: &[u8]) -> (found: Option<usize>)
        ensures
            match found {
                Some(pos) => is_first_match(self@, data@, pos as int),
                None => matches_nowhere(self@, data@),
            },
            match found {
                Some(pos) => first_match(self@, data@) == Some(pos as int),
                None => first_match(self@, data@).is_none(),
            },
    {
        let n: usize = self.slots.len();
        if n > data.len() {
            proof {
                lemma_first_match_none(self@, data@);
            }
            return None;
        }
        let last: usize = data.len() - n;
        let mut pos: usize = 0;
        loop
            invariant
                pos <= last,
                last + n == data@.len(),
                n == self@.len(),
                forall|earlier: int| 0 <= earlier < pos ==> !matches_at(self@, data@, earlier),
            decreases last - pos,
        {
            if self.matches_at(data, pos) {
                proof {
                    lemma_first_match_is(self@, data@, pos as int);
                }
                return Some(pos);
            }
            if pos == last {
                proof {
                    lemma_first_match_none(self@, data@);
                }
                return None;
            }
            pos = pos + 1;
        }
    }

    /// Every position of `data` at which the pattern matches, lowest first,
    /// each raised by `offset`.
    pub fn find_all(&self, data: &[u8], offset: usize) -> (found: Vec<usize>)
        requires
            offset + data@.len() <= usize::MAX,
        ensures
            lists_all_matches(self@, data@, offset as int, found@),
    {
        let mut found: Vec<usize> = Vec::new();
        let n: usize = self.slots.len();
        if n > data.len() {
            return found;
        }
        let last: usize = data.len() - n;
        let mut pos: usize = 0;
        let mut more: bool = true;
        while more
            invariant
                pos <= last,
                !more ==> pos == last,
                last + n == data@.len(),
                n == self@.len(),
                offset + data@.len() <= usize::MAX,
                forall|i: int|
                    0 <= i < found@.len() ==> matches_at(
                        self@,
                        data@,
                        #[trigger] found@[i] - offset,
                    ),
                forall|i: int|
                    0 <= i < found@.len() ==> #[trigger] found@[i] < offset + pos + if more {
                        0int
                    } else {
                        1int
                    },
                forall|i: int, j: int| 0 <= i < j < found@.len() ==> found@[i] < found@[j],
                forall|p: int|
                    0 <= p < pos + if more {
                        0int
                    } else {
                        1int
                    } && #[trigger] matches_at(self@, data@, p) ==> exists|i: int|
                        0 <= i < found@.len() && #[trigger] found@[i] == offset + p,
            decreases last - pos + if more { 1int } else { 0int },
        {
            if self.matches_at(data, pos) {
                let ghost before = found@;
                found.push(offset + pos);
                proof {
                    let at: int = before.len() as int;
                    assert(found@[at] == offset + pos);
                    assert forall|p: int|
                        0 <= p < pos + 1 && #[trigger] matches_at(self@, data@, p) implies exists|
                        i: int,
                    |
                        0 <= i < found@.len() && #[trigger] found@[i] == offset + p by {
                        if p < pos {
                            let i = choose|i: int|
                                0 <= i < before.len() && #[trigger] before[i] == offset + p;
                            assert(found@[i] == offset + p);
                        } else {
                            assert(found@[at] == offset + p);
                        }
                    }
                }
            }
            if pos == last {
                more = false;
            } else {
                pos = pos + 1;
            }
        }
        found
    }

    /// The address of the first match of the pattern in `image`.
    pub fn scan(&self, image: &MemoryImage) -> (found: Result<usize, ScanError>)
        ensures
            match found {
                Ok(addr) => is_first_match(self@, image@.bytes, addr - image@.base),
                Err(error) => error == ScanError::NotFound && matches_nowhere(
                    self@,
                    image@.bytes,
                ),
            },
            found == scan_result(self@, image@.base as int, image@.bytes),
    {
        let region = image.region();
        match self.find(image.as_bytes()) {
            Some(pos) => Ok(region.base_address + pos),
            None => Err(ScanError::NotFound),
        }
    }

    /// The addresses of all matches of the pattern in `image`, lowest first.
    pub fn scan_all(&self, image: &MemoryImage) -> (found: Vec<usize>)
        ensures
            lists_all_matches(self@, image@.bytes, image@.base as int, found@),
    {
        let region = image.region();
        self.find_all(image.as_bytes(), region.base_address)
    }
}

} // verus!
