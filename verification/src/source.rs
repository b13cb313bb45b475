//! A byte source held in memory: a stream of bytes together with the sizes in
//! which it hands them out, so that every way in which a source may fragment
//! its reads can be written down.

use vstd::prelude::*;
use vstd::slice::{slice_subrange, slice_to_vec};

verus! {

/// A byte source as a value: the bytes that it has not delivered yet, and the
/// caps on the sizes of its coming reads.
pub struct SourceView {
    pub rest: Seq<u8>,
    pub sizes: Seq<usize>,
}

impl SourceView {
    /// The number of bytes that the next read delivers when asked for up to
    /// `limit`: as many as are asked for and left, but no more than the cap
    /// on that read, where there is one. A cap of zero counts as one, so a
    /// read that asks for a byte while one is left delivers at least one.
    pub open spec fn next_len(self, limit: usize) -> nat {
        let want = if limit <= self.rest.len() {
            limit as nat
        } else {
            self.rest.len()
        };
        if self.sizes.len() > 0 {
            let cap = if self.sizes[0] == 0 {
                1nat
            } else {
                self.sizes[0] as nat
            };
            if cap < want {
                cap
            } else {
                want
            }
        } else {
            want
        }
    }

    /// The bytes that the next read delivers when asked for up to `limit`.
    pub open spec fn next_chunk(self, limit: usize) -> Seq<u8> {
        self.rest.take(self.next_len(limit) as int)
    }

    /// The source after a read of up to `limit` bytes.
    pub open spec fn after_read(self, limit: usize) -> SourceView {
        SourceView {
            rest: self.rest.skip(self.next_len(limit) as int),
            sizes: if self.sizes.len() > 0 {
                self.sizes.skip(1)
            } else {
                self.sizes
            },
        }
    }

    /// The source after everything left was read in one piece.
    pub open spec fn drained(self) -> SourceView {
        SourceView { rest: Seq::empty(), sizes: self.sizes }
    }
}

/// A sequential producer of bytes. It can be read, and nothing else: there is
/// no way back and no way to ask how much is left.
#[derive(Debug)]
pub struct ByteSource {
    data: Vec<u8>,
    pos: usize,
    sizes: Vec<usize>,
    turn: usize,
}

impl View for ByteSource {
    type V = SourceView;

    closed spec fn view(&self) -> SourceView {
        SourceView {
            rest: self.data@.skip(self.pos as int),
            sizes: self.sizes@.skip(self.turn as int),
        }
    }
}

impl ByteSource {
    /// The read position and the place in the list of caps lie within bounds.
    pub closed spec fn wf(&self) -> bool {
        &&& self.pos <= self.data@.len()
        &&& self.turn <= self.sizes@.len()
    }

    /// A source that delivers `data` and gives each read as much as it asks
    /// for.
    pub fn from_memory(data: Vec<u8>) -> (source: ByteSource)
        ensures
            source.wf(),
            source@ == (SourceView { rest: data@, sizes: Seq::empty() }),
    {
        let source = ByteSource { data, pos: 0, sizes: Vec::new(), turn: 0 };
        assert(source@.rest =~= data@);
        assert(source@.sizes =~= Seq::empty());
        source
    }

    /// A source that delivers `data` in fragments: its first read delivers at
    /// most `sizes[0]` bytes, its second at most `sizes[1]`, and so on; reads
    /// after the last cap get as much as they ask for.
    pub fn fragmented(data: Vec<u8>, sizes: Vec<usize>) -> (source: ByteSource)
        ensures
            source.wf(),
            source@ == (SourceView { rest: data@, sizes: sizes@ }),
    {
        let source = ByteSource { data, pos: 0, sizes, turn: 0 };
        assert(source@.rest =~= data@);
        assert(source@.sizes =~= sizes@);
        source
    }

    /// Reads up to `limit` bytes. An empty chunk means that nothing is left,
    /// unless `limit` is zero.
    pub fn read(&mut self, limit: usize) -> (chunk: Vec<u8>)
        requires
            old(self).wf(),
        ensures
            final(self).wf(),
            chunk@ == old(self)@.next_chunk(limit),
            final(self)@ == old(self)@.after_read(limit),
    {
        let left = self.data.len() - self.pos;
        let mut n = if limit <= left {
            limit
        } else {
            left
        };
        if self.turn < self.sizes.len() {
            let cap = if self.sizes[self.turn] == 0 {
                1
            } else {
                self.sizes[self.turn]
            };
            if cap < n {
                n = cap;
            }
            self.turn = self.turn + 1;
        }
        let start = self.pos;
        let chunk = slice_to_vec(slice_subrange(self.data.as_slice(), start, start + n));
        self.pos = start + n;
        proof {
            assert(self@.rest =~= old(self)@.after_read(limit).rest);
            assert(self@.sizes =~= old(self)@.after_read(limit).sizes);
        }
        chunk
    }

    /// Reads everything that is left, in one piece.
    pub fn read_to_end(&mut self) -> (rest: Vec<u8>)
        requires
            old(self).wf(),
        ensures
            final(self).wf(),
            rest@ == old(self)@.rest,
            final(self)@ == old(self)@.drained(),
    {
        let start = self.pos;
        let end = self.data.len();
        let rest = slice_to_vec(slice_subrange(self.data.as_slice(), start, end));
        self.pos = end;
        proof {
            assert(self@.rest =~= Seq::<u8>::empty());
        }
        rest
    }
}

/// A read that asks for at least one byte while at least one is left delivers
/// at least one and leaves fewer; a read from an exhausted source delivers
/// none. What is delivered and what is left make up what was there.
pub proof fn lemma_read_advances(source: SourceView, limit: usize)
    ensures
        source.next_len(limit) <= limit,
        source.next_len(limit) <= source.rest.len(),
        limit > 0 && source.rest.len() > 0 ==> source.next_len(limit) > 0,
        source.next_chunk(limit).len() == source.next_len(limit),
        source.next_chunk(limit) + source.after_read(limit).rest == source.rest,
        source.after_read(limit).rest.len() == source.rest.len() - source.next_len(limit),
{
}

} // verus!
