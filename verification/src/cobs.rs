//! Byte-stuffing codec.
//!
//! Encodes arbitrary byte payloads so that the zero byte can serve as an
//! exclusive frame delimiter on a serial link: embedded zero bytes are
//! elided and replaced by per-block length prefixes, and a single zero
//! byte terminates each encoded frame. The encoder produces the encoded
//! stream lazily one byte at a time; the decoder consumes one raw byte at
//! a time and reconstructs the payload incrementally.
//!
//! This module also states and proves the two laws that make the codec a
//! codec: the encoding of any payload contains no zero byte except its
//! terminator, and decoding an encoding yields the original payload.

use vstd::prelude::*;

pub use self::decode::{DecodeError, Decoder};
pub use self::encode::Encoder;

pub mod decode;
pub mod encode;

use self::decode::{run_decoder, spec_feed, DecodeRun, DecoderState, FeedResult};
use self::encode::{block_len, cobs_body, rest_start, spec_encode, zero_found};

verus! {

/// True for the decoder states from which the next input byte is expected
/// to be either a frame terminator or the length prefix of a further block.
pub open spec fn between_blocks(s: DecoderState) -> bool {
    s == DecoderState::Block(0u8) || s == DecoderState::PartialBlock(0u8)
}

/// The byte the decoder re-inserts when a further block follows: leaving
/// `Block(0)` re-inserts the zero byte that the encoder elided, while
/// leaving `Idle` or `PartialBlock(0)` inserts nothing.
pub open spec fn reinserted(s: DecoderState) -> Seq<u8> {
    if s == DecoderState::Block(0u8) {
        seq![0u8]
    } else {
        seq![]
    }
}

/// Feeding a run of `i` non-zero literal bytes into a decoder expecting
/// `i` more literal bytes of a block emits exactly those bytes.
proof fn lemma_literal_run(i: u8, u: Seq<u8>, partial: bool)
    requires
        u.len() == i,
        forall|k: int| 0 <= k < u.len() ==> u[k] != 0,
    ensures
        ({
            let s = if partial {
                DecoderState::PartialBlock(i)
            } else {
                DecoderState::Block(i)
            };
            let done = if partial {
                DecoderState::PartialBlock(0u8)
            } else {
                DecoderState::Block(0u8)
            };
            run_decoder(s, u) == (DecodeRun { state: done, out: u, failed: false, frames: 0nat })
        }),
    decreases i,
{
    let s = if partial {
        DecoderState::PartialBlock(i)
    } else {
        DecoderState::Block(i)
    };
    let done = if partial {
        DecoderState::PartialBlock(0u8)
    } else {
        DecoderState::Block(0u8)
    };
    if i == 0 {
        assert(u =~= Seq::<u8>::empty());
        assert(run_decoder(s, u) =~= (DecodeRun {
            state: done,
            out: u,
            failed: false,
            frames: 0nat,
        }));
    } else {
        lemma_literal_run((i - 1) as u8, u.drop_first(), partial);
        assert(u[0] != 0);
        assert(run_decoder(s, u) =~= (DecodeRun {
            state: done,
            out: u,
            failed: false,
            frames: 0nat,
        }));
    }
}

/// Feeding the body of the encoding of `t` into a decoder that stands
/// idle or between blocks emits the re-inserted byte owed by that state
/// followed by the payload `t`, without error, and leaves the decoder
/// expecting a terminator or a further block.
proof fn lemma_body_decode(m: DecoderState, t: Seq<u8>)
    requires
        m is Idle || between_blocks(m),
    ensures
        ({
            let r = run_decoder(m, cobs_body(t));
            &&& between_blocks(r.state)
            &&& r.out == reinserted(m) + t
            &&& !r.failed
            &&& r.frames == 0
        }),
    decreases t.len(),
{
    encode::lemma_block_split(t);
    let n = block_len(t);
    let prefix = (n + 1) as u8;
    let data = t.take(n);
    let rs = rest_start(t);
    assert(prefix != 0);
    assert(prefix == 0xFF <==> n == 254);
    assert forall|k: int| 0 <= k < data.len() implies data[k] != 0 by {
        assert(data[k] == t[k]);
    }
    // The length prefix starts a block (re-inserting any owed zero) and
    // leaves the decoder expecting `n` literal bytes.
    let (s1, eff1) = spec_feed(m, prefix);
    let expecting = if prefix == 0xFF {
        DecoderState::PartialBlock(0xFE)
    } else {
        DecoderState::Block((prefix - 1) as u8)
    };
    assert(s1 == expecting);
    assert(decode::effect_out(eff1) == reinserted(m));
    lemma_literal_run(n as u8, data, prefix == 0xFF);
    let after_data = if prefix == 0xFF {
        DecoderState::PartialBlock(0u8)
    } else {
        DecoderState::Block(0u8)
    };
    let ra = run_decoder(s1, data);
    assert(ra.state == after_data);
    if !zero_found(t) && n == t.len() {
        // Final block: the body is exactly the prefix plus the literals.
        assert(cobs_body(t) == seq![prefix] + data);
        assert(cobs_body(t)[0] == prefix);
        assert(cobs_body(t).drop_first() =~= data);
        let r = run_decoder(m, cobs_body(t));
        assert(r.out =~= reinserted(m) + t);
    } else {
        // A further block follows the literals of this one.
        let rest = cobs_body(t.skip(rs));
        assert(cobs_body(t) == (seq![prefix] + data) + rest);
        assert(cobs_body(t)[0] == prefix);
        assert(cobs_body(t).drop_first() =~= data + rest);
        lemma_body_decode(after_data, t.skip(rs));
        decode::lemma_run_append(s1, data, rest);
        let r = run_decoder(m, cobs_body(t));
        let rb = run_decoder(after_data, rest);
        assert(r.out =~= decode::effect_out(eff1) + (data + (reinserted(after_data) + t.skip(rs))));
        if zero_found(t) {
            assert(t[n] == 0);
            assert(t =~= t.take(n) + seq![0u8] + t.skip(n + 1));
            assert(reinserted(after_data) == seq![0u8]);
            assert(r.out =~= reinserted(m) + t);
        } else {
            assert(n == 254 && rs == n);
            assert(reinserted(after_data) =~= Seq::<u8>::empty());
            assert(t =~= t.take(n) + t.skip(n));
            assert(r.out =~= reinserted(m) + t);
        }
    }
}

/// Round-trip law: decoding an encoded payload from the idle state yields
/// exactly that payload, completes exactly one frame, reports no error,
/// and returns the decoder to the idle state.
pub proof fn lemma_cobs_round_trip(p: Seq<u8>)
    ensures
        run_decoder(DecoderState::Idle, spec_encode(p)) == (DecodeRun {
            state: DecoderState::Idle,
            out: p,
            failed: false,
            frames: 1nat,
        }),
{
    lemma_body_decode(DecoderState::Idle, p);
    decode::lemma_run_append(DecoderState::Idle, cobs_body(p), seq![0u8]);
    assert(spec_encode(p) =~= cobs_body(p) + seq![0u8]);
    let ra = run_decoder(DecoderState::Idle, cobs_body(p));
    let rb = run_decoder(ra.state, seq![0u8]);
    reveal_with_fuel(run_decoder, 2);
    assert(seq![0u8][0] == 0u8);
    assert(seq![0u8].drop_first() =~= Seq::<u8>::empty());
    assert(spec_feed(ra.state, 0).1 is DataComplete);
    assert(rb.state is Idle);
    assert(rb.out =~= Seq::<u8>::empty());
    assert(!rb.failed);
    assert(rb.frames == 1);
    assert(ra.out =~= p);
    assert(run_decoder(DecoderState::Idle, spec_encode(p)) =~= (DecodeRun {
        state: DecoderState::Idle,
        out: p,
        failed: false,
        frames: 1nat,
    }));
}

/// Delimiter-safety law: the encoding of any payload ends with a zero
/// byte, and that terminator is the only zero byte in the encoding.
pub proof fn lemma_encode_delimiter_safe(p: Seq<u8>)
    ensures
        spec_encode(p).len() > 0,
        spec_encode(p)[spec_encode(p).len() - 1] == 0,
        forall|i: int| 0 <= i < spec_encode(p).len() - 1 ==> spec_encode(p)[i] != 0,
{
    encode::lemma_body_nonzero(p);
    assert forall|i: int| 0 <= i < spec_encode(p).len() - 1 implies spec_encode(p)[i] != 0 by {
        assert(spec_encode(p)[i] == cobs_body(p)[i]);
    }
}

/// Malformed-frame law: a zero byte arriving while the decoder still
/// expects literal block bytes is rejected as an invalid frame and resets
/// the decoder to the idle state.
pub proof fn lemma_premature_delimiter(i: u8)
    requires
        i > 0,
    ensures
        spec_feed(DecoderState::Block(i), 0) == (
            DecoderState::Idle,
            FeedResult::Error(DecodeError::InvalidFrame),
        ),
        spec_feed(DecoderState::PartialBlock(i), 0) == (
            DecoderState::Idle,
            FeedResult::Error(DecodeError::InvalidFrame),
        ),
{
}

} // verus!
