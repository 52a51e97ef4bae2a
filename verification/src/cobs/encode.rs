//! Byte-stuffing encoder.
//!
//! The encoder partitions its input payload into blocks of at most 254
//! literal bytes. A block that ends just before an embedded zero byte
//! consumes that zero; a block of exactly 254 literal bytes is prefixed
//! with 0xFF and consumes nothing. Each block is emitted as a length
//! prefix (`block length + 1`) followed by its literal bytes, and a single
//! zero byte terminates the whole encoding.

use vstd::prelude::*;

verus! {

/// Scans `p` forward from `i` for the end of the block that starts at
/// index 0: the least index (at least `i`) of a zero byte, capped at 254
/// and at the end of the sequence.
pub open spec fn scan_block(p: Seq<u8>, i: int) -> int
    decreases p.len() - i,
{
    if i >= p.len() || i >= 254 {
        i
    } else if p[i] == 0 {
        i
    } else {
        scan_block(p, i + 1)
    }
}

/// The number of literal bytes in the first block of `p`.
pub open spec fn block_len(p: Seq<u8>) -> int {
    scan_block(p, 0)
}

/// True when the first block of `p` ends because of an embedded zero
/// byte, which the encoding elides.
pub open spec fn zero_found(p: Seq<u8>) -> bool {
    block_len(p) < p.len() && block_len(p) < 254
}

/// The index at which the remainder of the payload continues after the
/// first block: past the elided zero when one was found.
pub open spec fn rest_start(p: Seq<u8>) -> int {
    block_len(p) + if zero_found(p) {
        1int
    } else {
        0int
    }
}

proof fn lemma_scan_block(p: Seq<u8>, i: int)
    requires
        0 <= i <= p.len(),
    ensures
        i <= scan_block(p, i),
        scan_block(p, i) <= p.len(),
        i <= 254 ==> scan_block(p, i) <= 254,
        forall|k: int| i <= k < scan_block(p, i) ==> p[k] != 0,
        scan_block(p, i) < p.len() && scan_block(p, i) < 254 ==> p[scan_block(p, i)] == 0,
    decreases p.len() - i,
{
    if i >= p.len() || i >= 254 || p[i] == 0 {
    } else {
        lemma_scan_block(p, i + 1);
    }
}

/// The properties of the first-block split of a payload.
pub proof fn lemma_block_split(p: Seq<u8>)
    ensures
        0 <= block_len(p) <= 254,
        block_len(p) <= p.len(),
        forall|k: int| 0 <= k < block_len(p) ==> p[k] != 0,
        zero_found(p) ==> p[block_len(p)] == 0,
        !zero_found(p) ==> block_len(p) == if p.len() >= 254 {
            254int
        } else {
            p.len() as int
        },
        block_len(p) <= rest_start(p) <= p.len(),
        zero_found(p) || block_len(p) < p.len() ==> rest_start(p) >= 1,
{
    lemma_scan_block(p, 0);
}

/// The body of the encoding of `p`: every block of `p` as a length prefix
/// followed by its literal bytes, without the final terminator byte.
pub open spec fn cobs_body(p: Seq<u8>) -> Seq<u8>
    decreases p.len(),
{
    let n = block_len(p);
    let blk = seq![(n + 1) as u8] + p.take(n);
    if !zero_found(p) && n == p.len() {
        blk
    } else {
        proof {
            lemma_block_split(p);
        }
        blk + cobs_body(p.skip(rest_start(p)))
    }
}

/// The complete encoding of a payload: its body followed by the single
/// terminating zero byte.
pub open spec fn spec_encode(p: Seq<u8>) -> Seq<u8> {
    cobs_body(p).push(0u8)
}

/// No byte of the encoding's body is zero.
pub proof fn lemma_body_nonzero(p: Seq<u8>)
    ensures
        cobs_body(p).len() > 0,
        forall|i: int| 0 <= i < cobs_body(p).len() ==> cobs_body(p)[i] != 0,
    decreases p.len(),
{
    lemma_block_split(p);
    let n = block_len(p);
    let blk = seq![(n + 1) as u8] + p.take(n);
    assert(blk[0] == (n + 1) as u8);
    assert((n + 1) as u8 != 0);
    if !zero_found(p) && n == p.len() {
        assert forall|i: int| 0 <= i < cobs_body(p).len() implies cobs_body(p)[i] != 0 by {
            if i > 0 {
                assert(cobs_body(p)[i] == p.take(n)[i - 1]);
            }
        }
    } else {
        lemma_body_nonzero(p.skip(rest_start(p)));
        assert forall|i: int| 0 <= i < cobs_body(p).len() implies cobs_body(p)[i] != 0 by {
            if 0 < i < blk.len() {
                assert(cobs_body(p)[i] == p.take(n)[i - 1]);
            } else if i >= blk.len() {
                assert(cobs_body(p)[i] == cobs_body(p.skip(rest_start(p)))[i - blk.len()]);
            }
        }
    }
}

/// State of the lazy encoder: not yet started, inside a block whose
/// literal bytes occupy `pos..end` of the input (`zero` marking whether
/// the block consumed an elided zero byte), or finished.
#[derive(Clone, Copy)]
enum EncState {
    Start,
    Block { pos: usize, end: usize, zero: bool },
    End,
}

/// Lazy byte-stuffing encoder over a fixed input payload.
///
/// Each call to [`Encoder::pull`] yields the next byte of the encoding,
/// until the whole encoding (terminator included) has been produced.
pub struct Encoder {
    data: Vec<u8>,
    state: EncState,
}

impl Encoder {
    /// The input payload being encoded.
    pub closed spec fn input(self) -> Seq<u8> {
        self.data@
    }

    /// The bytes of the encoding not yet produced.
    closed spec fn remaining(self) -> Seq<u8> {
        match self.state {
            EncState::Start => spec_encode(self.data@),
            EncState::Block { pos, end, zero } => self.data@.subrange(pos as int, end as int)
                + block_tail(self.data@, end as int, zero),
            EncState::End => seq![],
        }
    }

    /// How many bytes of the encoding have been produced so far.
    pub closed spec fn pulled(self) -> int {
        spec_encode(self.data@).len() - self.remaining().len()
    }

    /// Well-formedness: the state indexes real positions of the input and
    /// the bytes still owed are exactly the unproduced suffix of the
    /// encoding.
    pub closed spec fn wf(self) -> bool {
        &&& (self.state matches EncState::Block { pos, end, zero } ==> pos <= end
            <= self.data@.len() && (zero ==> end < self.data@.len()))
        &&& self.remaining().len() <= spec_encode(self.data@).len()
        &&& spec_encode(self.data@).skip(self.pulled()) == self.remaining()
    }

    /// Creates a new encoder with the provided input data.
    pub fn new(data: &[u8]) -> (e: Encoder)
        ensures
            e.wf(),
            e.input() == data@,
            e.pulled() == 0,
    {
        let mut v: Vec<u8> = Vec::new();
        let mut i: usize = 0;
        while i < data.len()
            invariant
                i <= data.len(),
                v@ == data@.take(i as int),
            decreases data.len() - i,
        {
            v.push(data[i]);
            proof {
                assert(v@ =~= data@.take(i as int + 1));
            }
            i += 1;
        }
        proof {
            assert(v@ =~= data@);
        }
        let e = Encoder { data: v, state: EncState::Start };
        proof {
            assert(spec_encode(e.data@).skip(0) =~= spec_encode(e.data@));
        }
        e
    }

    /// Produces the next byte of the encoding, or `None` once the whole
    /// encoding (terminator included) has been produced.
    pub fn pull(&mut self) -> (r: Option<u8>)
        requires
            old(self).wf(),
        ensures
            final(self).wf(),
            final(self).input() == old(self).input(),
            old(self).pulled() < spec_encode(old(self).input()).len() ==> r == Some(
                spec_encode(old(self).input())[old(self).pulled()],
            ) && final(self).pulled() == old(self).pulled() + 1,
            old(self).pulled() == spec_encode(old(self).input()).len() ==> r is None && final(self).pulled() == old(self).pulled(),
    {
        match self.state {
            EncState::Start => {
                let (end, zero) = split_first_block(&self.data, 0);
                let prefix = (end + 1) as u8;
                self.state = EncState::Block { pos: 0, end, zero };
                proof {
                    let d = self.data@;
                    assert(d.skip(0) =~= d);
                    lemma_block_step(d, 0);
                    assert(self.remaining() == spec_encode(d).drop_first());
                    lemma_remaining_step(old(self).remaining(), self.remaining(), spec_encode(d),
                        old(self).pulled());
                }
                Some(prefix)
            },
            EncState::Block { pos, end, zero } => {
                if pos < end {
                    let b = self.data[pos];
                    self.state = EncState::Block { pos: pos + 1, end, zero };
                    proof {
                        let d = self.data@;
                        assert(old(self).remaining().drop_first() =~= self.remaining());
                        lemma_remaining_step(old(self).remaining(), self.remaining(),
                            spec_encode(d), old(self).pulled());
                        assert(old(self).remaining()[0] == d.subrange(pos as int, end as int)[0]);
                    }
                    Some(b)
                } else {
                    let len = self.data.len();
                    let rs = if zero {
                        end + 1
                    } else {
                        end
                    };
                    if !zero && rs == len {
                        self.state = EncState::End;
                        proof {
                            let d = self.data@;
                            assert(old(self).remaining() =~= seq![0u8]);
                            assert(old(self).remaining().drop_first() =~= self.remaining());
                            lemma_remaining_step(old(self).remaining(), self.remaining(),
                                spec_encode(d), old(self).pulled());
                        }
                        Some(0)
                    } else {
                        let (end2, zero2) = split_first_block(&self.data, rs);
                        let prefix = (end2 - rs + 1) as u8;
                        self.state = EncState::Block { pos: rs, end: end2, zero: zero2 };
                        proof {
                            let d = self.data@;
                            lemma_block_step(d, rs as int);
                            assert(old(self).remaining() =~= spec_encode(d.skip(rs as int)));
                            assert(self.remaining() == spec_encode(d.skip(rs as int)).drop_first());
                            lemma_remaining_step(old(self).remaining(), self.remaining(),
                                spec_encode(d), old(self).pulled());
                        }
                        Some(prefix)
                    }
                }
            },
            EncState::End => None,
        }
    }
}

/// Unfolding of the encoding at a block boundary: the bytes still owed
/// for the remainder `d.skip(rs)` of the payload start with the next
/// block's length prefix, followed by that block's literal bytes and the
/// bytes owed after them.
proof fn lemma_block_step(d: Seq<u8>, rs: int)
    requires
        0 <= rs <= d.len(),
    ensures
        ({
            let s = d.skip(rs);
            let n = block_len(s);
            &&& spec_encode(s).len() > 0
            &&& spec_encode(s)[0] == (n + 1) as u8
            &&& spec_encode(s).drop_first() == d.subrange(rs, rs + n) + block_tail(
                d,
                rs + n,
                zero_found(s),
            )
        }),
{
    let s = d.skip(rs);
    lemma_block_split(s);
    let n = block_len(s);
    assert(s.take(n) =~= d.subrange(rs, rs + n));
    if !zero_found(s) && n == s.len() {
        assert(rs + n == d.len());
        assert(spec_encode(s).drop_first() =~= d.subrange(rs, rs + n) + block_tail(
            d,
            rs + n,
            zero_found(s),
        ));
    } else {
        let rs2 = rest_start(s);
        assert(s.skip(rs2) =~= d.skip(rs + rs2));
        assert(spec_encode(s).drop_first() =~= d.subrange(rs, rs + n) + block_tail(
            d,
            rs + n,
            zero_found(s),
        ));
    }
}

/// The bytes of the encoding owed after the literal bytes of the block
/// ending at `end`: the terminator alone when nothing of the payload is
/// left and no zero was elided, otherwise the encoding of the remainder.
spec fn block_tail(d: Seq<u8>, end: int, zero: bool) -> Seq<u8> {
    let rs = end + if zero {
        1int
    } else {
        0int
    };
    if !zero && rs == d.len() {
        seq![0u8]
    } else {
        spec_encode(d.skip(rs))
    }
}

/// A pull step is correct when the new remainder is the old remainder
/// without its first byte: the byte produced is then the next byte of the
/// encoding.
proof fn lemma_remaining_step(old_rem: Seq<u8>, new_rem: Seq<u8>, enc: Seq<u8>, pulled: int)
    requires
        old_rem.len() <= enc.len(),
        enc.skip(pulled) == old_rem,
        pulled == enc.len() - old_rem.len(),
        old_rem.len() > 0,
        new_rem == old_rem.drop_first(),
    ensures
        old_rem[0] == enc[pulled],
        enc.skip(pulled + 1) == new_rem,
        new_rem.len() <= enc.len(),
        enc.len() - new_rem.len() == pulled + 1,
{
    assert(enc.skip(pulled + 1) =~= enc.skip(pulled).drop_first());
}

/// Finds the end of the block beginning at `start` in `data`: scans
/// forward for at most 254 bytes looking for a zero byte.
fn split_first_block(data: &Vec<u8>, start: usize) -> (r: (usize, bool))
    requires
        start <= data@.len(),
    ensures
        ({
            let s = data@.skip(start as int);
            &&& r.0 == start + block_len(s)
            &&& r.1 == zero_found(s)
            &&& start <= r.0 <= data@.len()
            &&& r.0 - start <= 254
        }),
{
    let ghost s = data@.skip(start as int);
    let mut i: usize = start;
    while i < data.len() && i - start < 254 && data[i] != 0
        invariant
            start <= i <= data@.len(),
            i - start <= 254,
            scan_block(s, 0) == scan_block(s, i - start),
            s == data@.skip(start as int),
        decreases data@.len() - i,
    {
        proof {
            assert(s[i - start] == data@[i as int]);
        }
        i += 1;
    }
    proof {
        lemma_scan_block(s, 0);
        if i < data.len() && i - start < 254 {
            assert(s[i - start] == data@[i as int]);
        }
        assert(scan_block(s, i - start) == i - start);
    }
    let zero = i < data.len() && i - start < 254;
    (i, zero)
}

} // verus!
