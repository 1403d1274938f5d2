//! Copy-in discipline: bytes forwarded verbatim, finish commits, anything
//! else aborts.
//!
//! A copy-in writer receives row data as raw bytes and forwards them
//! uninterpreted. The protocol demands an explicit terminator that tells
//! success from failure, so implicit completion is never safe: only
//! [`CopyIn::finish`] commits the transferred bytes, and a writer abandoned
//! mid-stream sends an abort instead — the target is left exactly as it
//! was. For text-format data, where each well-formed row ends in a newline,
//! the committed row count is the newline count of the bytes written, and
//! [`lemma_row_count_append`] lets it be summed chunk by chunk.
//!
//! The copy-out side mirrors it: [`CopyOut`] buffers the chunks the server
//! sent and hands them to the caller verbatim and in order — what the reads
//! deliver, followed by what is still buffered, is exactly what arrived
//! ([`lemma_copy_out_verbatim`]).

use vstd::prelude::*;

verus! {

/// The newline of text-format copy data, ending each well-formed row.
pub const ROW_TERMINATOR: u8 = 10;

/// How many newline-terminated rows a byte sequence holds.
pub open spec fn row_count(data: Seq<u8>) -> nat
    decreases data.len(),
{
    if data.len() == 0 {
        0
    } else {
        row_count(data.drop_last()) + if data.last() == ROW_TERMINATOR {
            1nat
        } else {
            0nat
        }
    }
}

/// Row counting distributes over concatenation: counting chunk by chunk and
/// counting the whole buffer agree.
pub proof fn lemma_row_count_append(a: Seq<u8>, b: Seq<u8>)
    ensures
        row_count(a + b) == row_count(a) + row_count(b),
    decreases b.len(),
{
    if b.len() == 0 {
        assert(a + b =~= a);
    } else {
        lemma_row_count_append(a, b.drop_last());
        assert((a + b).drop_last() =~= a + b.drop_last());
        assert((a + b).last() == b.last());
    }
}

/// A byte sequence never holds more rows than bytes.
pub proof fn lemma_row_count_le_len(data: Seq<u8>)
    ensures
        row_count(data) <= data.len(),
    decreases data.len(),
{
    if data.len() > 0 {
        lemma_row_count_le_len(data.drop_last());
    }
}

/// One copy-in transfer: everything written so far, not yet committed.
pub struct CopyIn {
    data: Vec<u8>,
}

impl CopyIn {
    /// The bytes written so far, verbatim and in order.
    pub closed spec fn buffered(self) -> Seq<u8> {
        self.data@
    }

    /// Start a copy-in transfer with nothing written.
    pub fn begin() -> (writer: CopyIn)
        ensures
            writer.buffered() == Seq::<u8>::empty(),
    {
        let writer = CopyIn { data: Vec::new() };
        proof {
            assert(writer.data@ =~= Seq::<u8>::empty());
        }
        writer
    }

    /// Forward one chunk of row data: appended verbatim, uninterpreted —
    /// matching the server-declared format is the caller's responsibility.
    pub fn write(&mut self, chunk: &Vec<u8>)
        ensures
            final(self).buffered() == old(self).buffered() + chunk@,
    {
        let mut i: usize = 0;
        while i < chunk.len()
            invariant
                0 <= i <= chunk@.len(),
                self.data@ == old(self).data@ + chunk@.take(i as int),
            decreases chunk@.len() - i,
        {
            self.data.push(chunk[i]);
            proof {
                assert(chunk@.take(i + 1) =~= chunk@.take(i as int).push(chunk@[i as int]));
                assert(old(self).data@ + chunk@.take(i + 1) =~= (old(self).data@ + chunk@.take(
                    i as int,
                )).push(chunk@[i as int]));
            }
            i = i + 1;
        }
        proof {
            assert(chunk@.take(chunk@.len() as int) =~= chunk@);
        }
    }

    /// Complete the copy: the explicit terminator that commits the
    /// transferred bytes. Every byte written lands in the target, in order,
    /// and the reported row count is exactly the count of newline-terminated
    /// rows in what was written.
    pub fn finish(self, target: &mut Vec<u8>) -> (count: u64)
        ensures
            final(target)@ == old(target)@ + self.buffered(),
            count == row_count(self.buffered()),
    {
        proof {
            lemma_row_count_le_len(self.data@);
        }
        let data = self.data;
        let ghost written = data@;
        let mut count: u64 = 0;
        let mut i: usize = 0;
        while i < data.len()
            invariant
                0 <= i <= written.len(),
                data@ == written,
                target@ == old(target)@ + written.take(i as int),
                count == row_count(written.take(i as int)),
                count <= i,
            decreases written.len() - i,
        {
            let byte = data[i];
            target.push(byte);
            if byte == ROW_TERMINATOR {
                count = count + 1;
            }
            proof {
                assert(written.take(i + 1).drop_last() =~= written.take(i as int));
                assert(written.take(i + 1).last() == written[i as int]);
                assert(old(target)@ + written.take(i + 1) =~= (old(target)@ + written.take(
                    i as int,
                )).push(written[i as int]));
            }
            i = i + 1;
        }
        proof {
            assert(written.take(written.len() as int) =~= written);
        }
        count
    }

    /// Abandon the copy mid-stream: the abort frame is sent instead of the
    /// terminator, and the target is left exactly as it was — no byte
    /// written to the abandoned writer ever lands.
    pub fn abandon(self, target: &mut Vec<u8>)
        ensures
            final(target)@ == old(target)@,
    {
    }
}

/// The receiving half of a copy: the server's bytes that arrived but were
/// not yet delivered to the caller.
pub struct CopyOut {
    data: Vec<u8>,
}

impl CopyOut {
    /// The bytes that arrived and were not yet read, verbatim and in order.
    pub closed spec fn buffered(self) -> Seq<u8> {
        self.data@
    }

    /// Start a copy-out transfer with nothing received.
    pub fn begin() -> (reader: CopyOut)
        ensures
            reader.buffered() == Seq::<u8>::empty(),
    {
        let reader = CopyOut { data: Vec::new() };
        proof {
            assert(reader.data@ =~= Seq::<u8>::empty());
        }
        reader
    }

    /// Whether everything that arrived so far was delivered.
    pub fn is_drained(&self) -> (drained: bool)
        ensures
            drained == (self.buffered().len() == 0),
    {
        self.data.len() == 0
    }

    /// One chunk from the server: appended verbatim, uninterpreted.
    pub fn arrive(&mut self, chunk: &Vec<u8>)
        ensures
            final(self).buffered() == old(self).buffered() + chunk@,
    {
        let mut i: usize = 0;
        while i < chunk.len()
            invariant
                0 <= i <= chunk@.len(),
                self.data@ == old(self).data@ + chunk@.take(i as int),
            decreases chunk@.len() - i,
        {
            self.data.push(chunk[i]);
            proof {
                assert(chunk@.take(i + 1) =~= chunk@.take(i as int).push(chunk@[i as int]));
                assert(old(self).data@ + chunk@.take(i + 1) =~= (old(self).data@ + chunk@.take(
                    i as int,
                )).push(chunk@[i as int]));
            }
            i = i + 1;
        }
        proof {
            assert(chunk@.take(chunk@.len() as int) =~= chunk@);
        }
    }

    /// Deliver up to `limit` bytes to the caller: the front of the buffer,
    /// verbatim; what remains is exactly the rest.
    pub fn read_into(&mut self, limit: usize) -> (delivered: Vec<u8>)
        ensures
            delivered@.len() == if limit <= old(self).buffered().len() {
                limit as int
            } else {
                old(self).buffered().len() as int
            },
            delivered@ == old(self).buffered().take(delivered@.len() as int),
            final(self).buffered() == old(self).buffered().skip(delivered@.len() as int),
    {
        let count = if limit <= self.data.len() {
            limit
        } else {
            self.data.len()
        };
        let mut delivered: Vec<u8> = Vec::new();
        let mut i: usize = 0;
        while i < count
            invariant
                0 <= i <= count <= self.data@.len(),
                self.data@ == old(self).data@,
                delivered@ == self.data@.take(i as int),
            decreases count - i,
        {
            delivered.push(self.data[i]);
            proof {
                assert(self.data@.take(i + 1) =~= self.data@.take(i as int).push(
                    self.data@[i as int],
                ));
            }
            i = i + 1;
        }
        let mut rest: Vec<u8> = Vec::new();
        let mut j: usize = count;
        while j < self.data.len()
            invariant
                count <= j <= self.data@.len(),
                self.data@ == old(self).data@,
                rest@ == self.data@.subrange(count as int, j as int),
            decreases self.data@.len() - j,
        {
            rest.push(self.data[j]);
            proof {
                assert(self.data@.subrange(count as int, j + 1) =~= self.data@.subrange(
                    count as int,
                    j as int,
                ).push(self.data@[j as int]));
            }
            j = j + 1;
        }
        proof {
            assert(rest@ =~= old(self).data@.skip(count as int));
        }
        self.data = rest;
        delivered
    }
}

/// Reads return the stream verbatim: the bytes delivered so far, followed
/// by what is still buffered, are exactly the bytes that arrived, in order.
pub proof fn lemma_copy_out_verbatim(arrived: Seq<u8>, delivered: int)
    requires
        0 <= delivered <= arrived.len(),
    ensures
        arrived.take(delivered) + arrived.skip(delivered) == arrived,
{
    assert(arrived.take(delivered) + arrived.skip(delivered) =~= arrived);
}

} // verus!
