//! Where practice text comes from: the capability the engine reads through,
//! and a source that hands out bytes held in memory.

use vstd::prelude::*;

verus! {

/// What one read of a text source hands back.
#[derive(Debug, PartialEq, Eq)]
pub enum ReadOutcome {
    /// Some bytes of text; none at all means the same as `Eof`.
    Bytes(Vec<u8>),
    /// The source has no more text.
    Eof,
    /// The source could not be read.
    Failed,
}

impl ReadOutcome {
    /// The bytes that a read handed back; none for `Eof` and `Failed`.
    pub open spec fn bytes(self) -> Seq<u8> {
        match self {
            ReadOutcome::Bytes(b) => b@,
            _ => Seq::empty(),
        }
    }
}

/// A supply of practice text, read a bounded piece at a time.
///
/// `may_yield` is each source's own account of its reads: the outcomes that a
/// read of at most `max` bytes can have, each with the source as it is left.
/// Nothing is asked of it, and of a source that gives no account every
/// outcome is taken to be possible.
pub trait TextSource: Sized {
    /// Whether a read of at most `max` bytes can end in `outcome` and leave the source as `after`.
    open spec fn may_yield(&self, max: usize, outcome: ReadOutcome, after: Self) -> bool {
        true
    }

    /// Reads up to `max` bytes, blocking as needed.
    fn read(&mut self, max: usize) -> (outcome: ReadOutcome)
        ensures
            old(self).may_yield(max, outcome, *final(self)),
    ;
}

/// A text source over bytes held in memory, handed out front to back.
pub struct MemorySource {
    data: Vec<u8>,
    taken: usize,
}

impl View for MemorySource {
    type V = Seq<u8>;

    /// The bytes not handed out yet.
    closed spec fn view(&self) -> Seq<u8> {
        if self.taken <= self.data.len() {
            self.data@.skip(self.taken as int)
        } else {
            Seq::empty()
        }
    }
}

/// What a read of at most `max` bytes hands back when `rest` is left in memory.
pub open spec fn memory_read(rest: Seq<u8>, max: usize) -> Seq<u8> {
    if max <= rest.len() {
        rest.take(max as int)
    } else {
        rest
    }
}

impl MemorySource {
    /// A source that will hand out `data`, first byte first.
    pub fn new(data: Vec<u8>) -> (src: MemorySource)
        ensures
            src@ == data@,
    {
        let src = MemorySource { data, taken: 0 };
        src
    }

    /// How many bytes are still to be handed out.
    pub fn remaining(&self) -> (n: usize)
        ensures
            n == self@.len(),
    {
        if self.taken <= self.data.len() {
            self.data.len() - self.taken
        } else {
            0
        }
    }
}

impl TextSource for MemorySource {
    /// A read hands back the first `max` bytes left, or all of them where fewer
    /// are left, and `Eof` once none is left.
    open spec fn may_yield(&self, max: usize, outcome: ReadOutcome, after: Self) -> bool {
        if self@.len() == 0 {
            outcome == ReadOutcome::Eof && after@ == self@
        } else {
            &&& outcome is Bytes
            &&& outcome.bytes() == memory_read(self@, max)
            &&& after@ == self@.skip(memory_read(self@, max).len() as int)
        }
    }

    fn read(&mut self, max: usize) -> (outcome: ReadOutcome) {
        let left = self.remaining();
        if left == 0 {
            return ReadOutcome::Eof;
        }
        let n = if max <= left { max } else { left };
        let mut out: Vec<u8> = Vec::new();
        let mut i: usize = 0;
        while i < n
            invariant
                i <= n,
                n <= left,
                self.taken + left == self.data.len(),
                out@ == self.data@.subrange(self.taken as int, self.taken + i),
            decreases n - i,
        {
            out.push(self.data[self.taken + i]);
            i = i + 1;
        }
        proof {
            assert(out@ =~= memory_read(old(self)@, max));
            assert(self.data@.skip(self.taken + n) =~= old(self)@.skip(n as int));
        }
        self.taken = self.taken + n;
        ReadOutcome::Bytes(out)
    }
}

} // verus!
