//! Byte-stuffing decoder.
//!
//! A byte-level transducer: it consumes one raw byte of an encoded stream
//! at a time and reconstructs the original payload into an internal
//! destination buffer, reporting frame boundaries and malformed input as
//! it goes. The state machine itself buffers no payload bytes.

use vstd::prelude::*;
use vstd::slice::slice_subrange;

verus! {

/// Decoding errors.
#[derive(Clone, Copy, Debug, PartialEq, Eq, Structural)]
pub enum DecodeError {
    /// Frame was empty.
    EmptyFrame,
    /// Frame had invalid format.
    InvalidFrame,
    /// Target buffer too small.
    BufferTooSmall,
}

/// The caller-visible effect of feeding one byte into the state machine.
#[derive(Clone, Copy, Debug, PartialEq, Eq, Structural)]
pub enum FeedResult {
    /// Nothing happened: a stray delimiter arrived while idle.
    Empty,
    /// A frame started; the destination cursor must be reset.
    DataStart,
    /// The current frame is complete.
    DataComplete,
    /// One payload byte was produced.
    Data(u8),
    /// The frame was malformed.
    Error(DecodeError),
}

/// State machine for byte-stuffing decoding.
#[derive(Clone, Copy, Debug, PartialEq, Eq, Structural)]
pub enum DecoderState {
    /// Waiting for start of frame.
    Idle,
    /// Consuming a data block (at most 254 literal bytes), with the count
    /// of literal bytes still expected.
    Block(u8),
    /// Consuming a partial data block (one of exactly 254 literal bytes
    /// that elides no zero), with the count still expected.
    PartialBlock(u8),
}

/// The transition function of the decoder: from a state and an input
/// byte to the next state and the caller-visible effect.
pub open spec fn spec_feed(s: DecoderState, byte: u8) -> (DecoderState, FeedResult) {
    match s {
        DecoderState::Idle => {
            if byte == 0x00 {
                (DecoderState::Idle, FeedResult::Empty)
            } else if byte == 0xFF {
                (DecoderState::PartialBlock(0xFE), FeedResult::DataStart)
            } else {
                (DecoderState::Block((byte - 1) as u8), FeedResult::DataStart)
            }
        },
        DecoderState::Block(i) => {
            if i == 0 {
                if byte == 0x00 {
                    (DecoderState::Idle, FeedResult::DataComplete)
                } else if byte == 0xFF {
                    (DecoderState::PartialBlock(0xFE), FeedResult::Data(0))
                } else {
                    (DecoderState::Block((byte - 1) as u8), FeedResult::Data(0))
                }
            } else {
                if byte == 0x00 {
                    (DecoderState::Idle, FeedResult::Error(DecodeError::InvalidFrame))
                } else {
                    (DecoderState::Block((i - 1) as u8), FeedResult::Data(byte))
                }
            }
        },
        DecoderState::PartialBlock(i) => {
            if i == 0 {
                if byte == 0x00 {
                    (DecoderState::Idle, FeedResult::DataComplete)
                } else if byte == 0xFF {
                    (DecoderState::PartialBlock(0xFE), FeedResult::Empty)
                } else {
                    (DecoderState::Block((byte - 1) as u8), FeedResult::Empty)
                }
            } else {
                if byte == 0x00 {
                    (DecoderState::Idle, FeedResult::Error(DecodeError::InvalidFrame))
                } else {
                    (DecoderState::PartialBlock((i - 1) as u8), FeedResult::Data(byte))
                }
            }
        },
    }
}

impl DecoderState {
    /// Creates the initial state.
    pub fn new() -> (s: DecoderState)
        ensures
            s == DecoderState::Idle,
    {
        DecoderState::Idle
    }

    /// Advances the state machine by one input byte.
    pub fn feed(&mut self, byte: u8) -> (r: FeedResult)
        ensures
            (*final(self), r) == spec_feed(*old(self), byte),
    {
        let (st, res): (DecoderState, FeedResult) = match (*self, byte) {
            // Stray terminator while idle: ignore it.
            (DecoderState::Idle, 0x00) => (DecoderState::Idle, FeedResult::Empty),
            // Start of a partial block: 254 literal bytes, no elided zero.
            (DecoderState::Idle, 0xFF) => (DecoderState::PartialBlock(0xFE), FeedResult::DataStart),
            // Start of an ordinary block of `n - 1` literal bytes.
            (DecoderState::Idle, n) => (DecoderState::Block(n - 1), FeedResult::DataStart),
            // Block finished and the frame terminator arrived: well framed.
            (DecoderState::Block(0), 0x00) => (DecoderState::Idle, FeedResult::DataComplete),
            // Block finished; re-insert the elided zero, then a partial block.
            (DecoderState::Block(0), 0xFF) => (
                DecoderState::PartialBlock(0xFE),
                FeedResult::Data(0),
            ),
            // Block finished; re-insert the elided zero, then another block.
            (DecoderState::Block(0), n) => (DecoderState::Block(n - 1), FeedResult::Data(0)),
            // Terminator while literal bytes were still expected: malformed.
            (DecoderState::Block(_), 0x00) => (
                DecoderState::Idle,
                FeedResult::Error(DecodeError::InvalidFrame),
            ),
            // A literal byte of the current block.
            (DecoderState::Block(i), n) => (DecoderState::Block(i - 1), FeedResult::Data(n)),
            // Partial block finished and the terminator arrived: well framed.
            (DecoderState::PartialBlock(0), 0x00) => (DecoderState::Idle, FeedResult::DataComplete),
            // Partial block finished: no zero to re-insert, next partial block.
            (DecoderState::PartialBlock(0), 0xFF) => (
                DecoderState::PartialBlock(0xFE),
                FeedResult::Empty,
            ),
            // Partial block finished: no zero to re-insert, ordinary block.
            (DecoderState::PartialBlock(0), n) => (DecoderState::Block(n - 1), FeedResult::Empty),
            // Terminator while literal bytes were still expected: malformed.
            (DecoderState::PartialBlock(_), 0x00) => (
                DecoderState::Idle,
                FeedResult::Error(DecodeError::InvalidFrame),
            ),
            // A literal byte of the current partial block.
            (DecoderState::PartialBlock(i), n) => (
                DecoderState::PartialBlock(i - 1),
                FeedResult::Data(n),
            ),
        };
        *self = st;
        res
    }
}

/// Byte-stuffing decoder: the state machine together with an owned
/// destination buffer and a cursor into it.
pub struct Decoder {
    buf: Vec<u8>,
    pos: usize,
    state: DecoderState,
}

impl Decoder {
    /// The state of the underlying transducer.
    pub closed spec fn spec_state(self) -> DecoderState {
        self.state
    }

    /// The destination cursor: how many payload bytes of the current
    /// frame have been reconstructed.
    pub closed spec fn spec_pos(self) -> usize {
        self.pos
    }

    /// The size of the destination buffer.
    pub closed spec fn capacity(self) -> int {
        self.buf@.len() as int
    }

    /// The payload bytes reconstructed so far for the current frame.
    pub closed spec fn spec_data(self) -> Seq<u8> {
        self.buf@.take(self.pos as int)
    }

    /// The cursor never leaves the destination buffer.
    pub closed spec fn wf(self) -> bool {
        self.pos <= self.buf@.len()
    }

    /// Creates a new decoder with a destination buffer of the given size.
    pub fn new_uninit(capacity: usize) -> (d: Decoder)
        ensures
            d.wf(),
            d.capacity() == capacity,
            d.spec_state() == DecoderState::Idle,
            d.spec_pos() == 0,
    {
        Decoder { buf: vec![0u8; capacity], pos: 0, state: DecoderState::Idle }
    }

    /// Feeds a byte into the decoder.
    ///
    /// `Ok(None)` means the frame continues; `Ok(Some(n))` reports a
    /// complete frame of `n` payload bytes (a stray delimiter while idle
    /// reports an empty frame); an error reports malformed input or an
    /// exhausted destination buffer, leaving the reconstructed prefix
    /// intact.
    pub fn feed(&mut self, byte: u8) -> (r: Result<Option<usize>, DecodeError>)
        requires
            old(self).wf(),
        ensures
            final(self).wf(),
            final(self).capacity() == old(self).capacity(),
            ({
                let (s2, eff) = spec_feed(old(self).spec_state(), byte);
                &&& final(self).spec_state() == s2
                &&& match eff {
                    FeedResult::Empty => r == Ok::<Option<usize>, DecodeError>(Some(0)) && final(self).spec_pos() == old(self).spec_pos() && final(self).spec_data() == old(self).spec_data(),
                    FeedResult::DataStart => r == Ok::<Option<usize>, DecodeError>(None) && final(self).spec_pos() == 0,
                    FeedResult::DataComplete => r == Ok::<Option<usize>, DecodeError>(
                        Some(old(self).spec_pos()),
                    ) && final(self).spec_pos() == old(self).spec_pos() && final(self).spec_data()
                        == old(self).spec_data(),
                    FeedResult::Data(d) => {
                        if old(self).spec_pos() < old(self).capacity() {
                            &&& r == Ok::<Option<usize>, DecodeError>(None)
                            &&& final(self).spec_pos() == old(self).spec_pos() + 1
                            &&& final(self).spec_data() == old(self).spec_data().push(d)
                        } else {
                            &&& r == Err::<Option<usize>, DecodeError>(DecodeError::BufferTooSmall)
                            &&& final(self).spec_pos() == old(self).spec_pos()
                            &&& final(self).spec_data() == old(self).spec_data()
                        }
                    },
                    FeedResult::Error(e) => r == Err::<Option<usize>, DecodeError>(e) && final(self).spec_pos() == old(self).spec_pos() && final(self).spec_data() == old(self).spec_data(),
                }
            }),
    {
        match self.state.feed(byte) {
            FeedResult::Empty => Ok(Some(0)),
            FeedResult::DataStart => {
                self.pos = 0;
                proof {
                    assert(self.spec_data() =~= Seq::<u8>::empty());
                }
                Ok(None)
            },
            FeedResult::DataComplete => Ok(Some(self.pos)),
            FeedResult::Data(d) => {
                if self.pos < self.buf.len() {
                    self.buf.set(self.pos, d);
                    proof {
                        assert(self.buf@.take(self.pos + 1) =~= old(self).spec_data().push(d));
                    }
                    self.pos = self.pos + 1;
                    Ok(None)
                } else {
                    Err(DecodeError::BufferTooSmall)
                }
            },
            FeedResult::Error(err) => Err(err),
        }
    }

    /// Returns the decoded data of the current frame as a byte slice.
    pub fn data(&self) -> (r: &[u8])
        requires
            self.wf(),
        ensures
            r@ == self.spec_data(),
    {
        let r = slice_subrange(self.buf.as_slice(), 0, self.pos);
        proof {
            assert(self.buf@.subrange(0, self.pos as int) =~= self.spec_data());
        }
        r
    }
}

/// The payload bytes an effect contributes to the decoded output.
pub open spec fn effect_out(eff: FeedResult) -> Seq<u8> {
    match eff {
        FeedResult::Data(d) => seq![d],
        _ => seq![],
    }
}

/// The outcome of running the decoder over a whole input sequence: the
/// final state, every payload byte produced, whether any step failed,
/// and how many complete frames were reported.
#[verifier::ext_equal]
pub struct DecodeRun {
    pub state: DecoderState,
    pub out: Seq<u8>,
    pub failed: bool,
    pub frames: nat,
}

/// Runs the decoder transition function over a whole input sequence.
pub open spec fn run_decoder(s: DecoderState, input: Seq<u8>) -> DecodeRun
    decreases input.len(),
{
    if input.len() == 0 {
        DecodeRun { state: s, out: seq![], failed: false, frames: 0nat }
    } else {
        let (s2, eff) = spec_feed(s, input[0]);
        let rest = run_decoder(s2, input.drop_first());
        DecodeRun {
            state: rest.state,
            out: effect_out(eff) + rest.out,
            failed: (eff is Error) || rest.failed,
            frames: rest.frames + if eff is DataComplete {
                1nat
            } else {
                0nat
            },
        }
    }
}

/// Running the decoder over a concatenation is running it over the first
/// part and continuing from the state reached over the second.
pub proof fn lemma_run_append(s: DecoderState, a: Seq<u8>, b: Seq<u8>)
    ensures
        ({
            let ra = run_decoder(s, a);
            let rb = run_decoder(ra.state, b);
            run_decoder(s, a + b) == (DecodeRun {
                state: rb.state,
                out: ra.out + rb.out,
                failed: ra.failed || rb.failed,
                frames: ra.frames + rb.frames,
            })
        }),
    decreases a.len(),
{
    let ra = run_decoder(s, a);
    let rb = run_decoder(ra.state, b);
    if a.len() == 0 {
        assert(a + b =~= b);
        assert(run_decoder(s, a + b) =~= (DecodeRun {
            state: rb.state,
            out: ra.out + rb.out,
            failed: ra.failed || rb.failed,
            frames: ra.frames + rb.frames,
        }));
    } else {
        let (s2, eff) = spec_feed(s, a[0]);
        assert((a + b)[0] == a[0]);
        assert((a + b).drop_first() =~= a.drop_first() + b);
        lemma_run_append(s2, a.drop_first(), b);
        assert(run_decoder(s, a + b) =~= (DecodeRun {
            state: rb.state,
            out: ra.out + rb.out,
            failed: ra.failed || rb.failed,
            frames: ra.frames + rb.frames,
        }));
    }
}

} // verus!
