//! Boot-time initialization of memory regions: copy-in from a load image,
//! or zero-fill.
//!
//! Memory is reached through [`WordMemory`], a store of 32-bit words keyed by
//! their byte address; [`RamImage`] implements it over a vector of words.
//! Code that initializes RAM on a target performs the word transfers that
//! [`RegionDescriptor::transfer`] lists, in order.
use vstd::prelude::*;

verus! {

/// Size of a machine word in bytes.
pub const WORD_BYTES: usize = 4;

/// Word-granular memory.
pub trait WordMemory {
    /// The words the memory holds, keyed by their byte address.
    spec fn words(&self) -> Map<usize, u32>;

    /// Reads the word at `addr`.
    fn read_word(&self, addr: usize) -> (r: u32)
        requires
            self.words().contains_key(addr),
        ensures
            r == self.words()[addr],
    ;

    /// Writes `value` to the word at `addr`; no other word changes.
    fn write_word(&mut self, addr: usize, value: u32)
        requires
            old(self).words().contains_key(addr),
        ensures
            final(self).words() == old(self).words().insert(addr, value),
    ;
}

/// A region that boot code initializes: the destination range
/// `[dest_start, dest_end)` and, for a region with a load image, the address
/// the image starts at. A region without a source is zero-filled.
#[derive(Clone, Copy, Debug, PartialEq, Eq, Structural)]
pub struct RegionDescriptor {
    pub dest_start: usize,
    pub dest_end: usize,
    pub source: Option<usize>,
}

impl RegionDescriptor {
    /// Length of the destination range in bytes.
    pub open spec fn len(&self) -> int {
        self.dest_end - self.dest_start
    }

    /// Number of words in the destination range.
    pub open spec fn word_count(&self) -> int {
        self.len() / WORD_BYTES as int
    }

    /// The descriptor's invariant: a word-aligned destination range that does
    /// not run backwards, and a word-aligned source whose range fits the
    /// address space.
    pub open spec fn wf(&self) -> bool {
        &&& self.dest_start <= self.dest_end
        &&& self.dest_start % WORD_BYTES == 0
        &&& self.dest_end % WORD_BYTES == 0
        &&& match self.source {
            Some(s) => s % WORD_BYTES == 0 && s + self.len() <= usize::MAX,
            None => true,
        }
    }

    /// Whether `a` is the address of a word in the destination range.
    pub open spec fn covers(&self, a: usize) -> bool {
        self.dest_start <= a < self.dest_end && (a - self.dest_start) % WORD_BYTES as int == 0
    }

    /// The source address of the word that lands at destination address `a`.
    pub open spec fn source_of(&self, s: usize, a: usize) -> usize {
        (a - self.dest_start + s) as usize
    }

    /// Every destination word, and every source word, is present in `m`.
    pub open spec fn fits(&self, m: Map<usize, u32>) -> bool {
        forall|a: usize| #[trigger] self.covers(a) ==> {
            &&& m.contains_key(a)
            &&& match self.source {
                Some(s) => m.contains_key(self.source_of(s, a)),
                None => true,
            }
        }
    }

    /// A forward word-by-word copy reads every source word before it is
    /// overwritten: the source starts at or after the destination, or ends
    /// before it.
    pub open spec fn copy_in_order(&self) -> bool {
        match self.source {
            Some(s) => s >= self.dest_start || s + self.len() <= self.dest_start,
            None => true,
        }
    }

    /// Whether the destination range is empty.
    pub open spec fn is_empty_spec(&self) -> bool {
        self.dest_start == self.dest_end
    }

    /// What memory `m` holds after the region is initialized: each destination
    /// word holds the source word at the same offset, or zero; every other word
    /// keeps its value.
    pub open spec fn initialized(&self, m: Map<usize, u32>) -> Map<usize, u32> {
        Map::new(
            |a: usize| m.contains_key(a),
            |a: usize|
                if self.covers(a) {
                    match self.source {
                        Some(s) => m[self.source_of(s, a)],
                        None => 0u32,
                    }
                } else {
                    m[a]
                },
        )
    }

    /// A region copied from `source` to `[dest_start, dest_end)`.
    pub fn copy_in(dest_start: usize, dest_end: usize, source: usize) -> (r: RegionDescriptor)
        ensures
            r == (RegionDescriptor { dest_start, dest_end, source: Some(source) }),
    {
        RegionDescriptor { dest_start, dest_end, source: Some(source) }
    }

    /// A region zero-filled over `[dest_start, dest_end)`.
    pub fn zero_fill(dest_start: usize, dest_end: usize) -> (r: RegionDescriptor)
        ensures
            r == (RegionDescriptor { dest_start, dest_end, source: None }),
    {
        RegionDescriptor { dest_start, dest_end, source: None }
    }

    /// Whether the destination range is empty.
    pub fn is_empty(&self) -> (r: bool)
        ensures
            r == self.is_empty_spec(),
    {
        self.dest_start == self.dest_end
    }

    /// Whether the descriptor is well formed and can be copied forward.
    pub fn is_valid(&self) -> (r: bool)
        ensures
            r == (self.wf() && self.copy_in_order()),
    {
        if self.dest_start > self.dest_end || self.dest_start % WORD_BYTES != 0 || self.dest_end
            % WORD_BYTES != 0 {
            return false;
        }
        let len: usize = self.dest_end - self.dest_start;
        match self.source {
            None => true,
            Some(s) => s % WORD_BYTES == 0 && s <= usize::MAX - len && (s >= self.dest_start || s
                + len <= self.dest_start),
        }
    }

    /// Number of words in the destination range.
    pub fn len_words(&self) -> (r: usize)
        requires
            self.wf(),
        ensures
            r == self.word_count(),
    {
        (self.dest_end - self.dest_start) / WORD_BYTES
    }

    /// The `k`-th word transfer of the initialization: the destination
    /// address, and the source address it is copied from, if any.
    pub fn transfer(&self, k: usize) -> (r: (usize, Option<usize>))
        requires
            self.wf(),
            k < self.word_count(),
        ensures
            r.0 == word_addr(self.dest_start, k as int),
            self.covers(r.0),
            r.1 == match self.source {
                Some(s) => Some(word_addr(s, k as int)),
                None => None::<usize>,
            },
            self.source is Some ==> r.1 == Some(self.source_of(self.source->0, r.0)),
    {
        let dst: usize = self.dest_start + WORD_BYTES * k;
        match self.source {
            Some(s) => (dst, Some(s + WORD_BYTES * k)),
            None => (dst, None),
        }
    }

    /// Initializes the region in `mem`: copies the source words to the
    /// destination in order of increasing address, or zero-fills it.
    /// Returns the number of words written; an empty region writes none and
    /// leaves memory as it was.
    pub fn initialize<M: WordMemory>(&self, mem: &mut M) -> (r: usize)
        requires
            self.wf(),
            self.copy_in_order(),
            self.fits(old(mem).words()),
        ensures
            r == self.word_count(),
            final(mem).words() == self.initialized(old(mem).words()),
    {
        let n: usize = (self.dest_end - self.dest_start) / WORD_BYTES;
        let mut i: usize = 0;
        while i < n
            invariant
                self.wf(),
                self.copy_in_order(),
                self.fits(old(mem).words()),
                n == self.word_count(),
                i <= n,
                mem.words().dom() == old(mem).words().dom(),
                forall|a: usize| #[trigger] mem.words().contains_key(a) ==> mem.words()[a] == (
                    if self.covers(a) && a < self.dest_start + WORD_BYTES * i {
                        self.initialized(old(mem).words())[a]
                    } else {
                        old(mem).words()[a]
                    }),
            decreases n - i,
        {
            let dst: usize = self.dest_start + WORD_BYTES * i;
            assert(self.covers(dst));
            let value: u32 = match self.source {
                Some(s) => {
                    let src: usize = s + WORD_BYTES * i;
                    assert(self.source_of(s, dst) == src);
                    assert(mem.words().contains_key(src));
                    mem.read_word(src)
                },
                None => 0,
            };
            mem.write_word(dst, value);
            i = i + 1;
        }
        assert(mem.words() =~= self.initialized(old(mem).words()));
        n
    }
}

/// The address of the `k`-th word of a range that starts at `base`.
pub open spec fn word_addr(base: usize, k: int) -> usize {
    (base + WORD_BYTES * k) as usize
}

/// After a region with a source is initialized, each word of the destination
/// equals the source word at the same offset, as the source read before the
/// call.
pub proof fn lemma_copy_fidelity(r: RegionDescriptor, m: Map<usize, u32>)
    requires
        r.wf(),
        r.fits(m),
        r.source is Some,
        r.dest_start < r.dest_end,
    ensures
        forall|k: int|
            0 <= k < r.word_count() ==> #[trigger] r.initialized(m)[word_addr(r.dest_start, k)]
                == m[word_addr(r.source->0, k)],
{
    let s = r.source->0;
    assert forall|k: int| 0 <= k < r.word_count() implies #[trigger] r.initialized(m)[word_addr(
        r.dest_start,
        k,
    )] == m[word_addr(s, k)] by {
        let a = word_addr(r.dest_start, k);
        assert(r.covers(a));
        assert(r.source_of(s, a) == word_addr(s, k));
    }
}

/// After a zero-fill region is initialized, every word of its destination
/// reads as zero.
pub proof fn lemma_zero_fill(r: RegionDescriptor, m: Map<usize, u32>)
    requires
        r.wf(),
        r.fits(m),
        r.source is None,
    ensures
        forall|k: int|
            0 <= k < r.word_count() ==> #[trigger] r.initialized(m)[word_addr(r.dest_start, k)] == 0,
{
    assert forall|k: int| 0 <= k < r.word_count() implies #[trigger] r.initialized(m)[word_addr(
        r.dest_start,
        k,
    )] == 0 by {
        assert(r.covers(word_addr(r.dest_start, k)));
    }
}

/// An empty region has no words to write, leaves memory unchanged, and
/// initializing it again changes nothing.
pub proof fn lemma_empty_region(r: RegionDescriptor, m: Map<usize, u32>)
    requires
        r.is_empty_spec(),
    ensures
        r.word_count() == 0,
        r.initialized(m) == m,
        r.initialized(r.initialized(m)) == r.initialized(m),
{
    assert(r.initialized(m) =~= m);
}

/// Memory held in a vector of words, the first of which is at byte address
/// `base`.
#[derive(Debug)]
pub struct RamImage {
    pub base: usize,
    pub cells: Vec<u32>,
}

impl RamImage {
    /// Whether `a` is the address of one of the image's words.
    pub open spec fn holds(&self, a: usize) -> bool {
        &&& a >= self.base
        &&& (a - self.base) % WORD_BYTES as int == 0
        &&& (a - self.base) / (WORD_BYTES as int) < self.cells@.len()
    }

    /// An image of `cells`, the first of which is at `base`.
    pub fn new(base: usize, cells: Vec<u32>) -> (r: RamImage)
        ensures
            r.base == base,
            r.cells@ == cells@,
    {
        RamImage { base, cells }
    }
}

impl WordMemory for RamImage {
    open spec fn words(&self) -> Map<usize, u32> {
        Map::new(
            |a: usize| self.holds(a),
            |a: usize| self.cells@[(a - self.base) / WORD_BYTES as int],
        )
    }

    fn read_word(&self, addr: usize) -> (r: u32) {
        self.cells[(addr - self.base) / WORD_BYTES]
    }

    fn write_word(&mut self, addr: usize, value: u32) {
        let i: usize = (addr - self.base) / WORD_BYTES;
        self.cells.set(i, value);
        assert(self.words() =~= old(self).words().insert(addr, value));
    }
}

} // verus!
