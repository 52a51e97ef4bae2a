//! Word and frame codec for the analog-to-digital converter protocol.
//!
//! A word carries a 16-bit logical value big-endian in a fixed-width slot
//! of [`BYTES_PER_WORD`] bytes, zero-padding the low-order bytes. A frame
//! is a sequence of words followed by a trailing CRC word computed over
//! all preceding words.

use vstd::prelude::*;
use vstd::slice::slice_subrange;

use crate::ads131m08::command;
use crate::ads131m08::{BYTES_PER_WORD, CHANNELS};
use crate::crc::{crc16_ccitt_const, spec_crc16};

verus! {

/// Bytes of a short frame: one command word plus the input CRC word.
pub const SHORT_FRAME_BYTES: usize = 2 * BYTES_PER_WORD;

/// Bytes of a write-one frame: command word, value word, input CRC word.
pub const WRITE_ONE_FRAME_BYTES: usize = 3 * BYTES_PER_WORD;

/// Bytes of a normal (full-width) frame: command/response word, one word
/// per channel, and the trailing CRC word.
pub const NORMAL_FRAME_BYTES: usize = (1 + CHANNELS + 1) * BYTES_PER_WORD;

/// The 16-bit value encoded big-endian by two bytes.
pub open spec fn spec_be16(b0: u8, b1: u8) -> u16 {
    (b0 * 256 + b1) as u16
}

/// One word slot: the 16-bit value big-endian, zero-padded low.
pub open spec fn spec_word_be(w: u16) -> Seq<u8> {
    seq![(w / 256) as u8, (w % 256) as u8, 0u8]
}

/// The byte layout of a sequence of words.
pub open spec fn spec_words(ws: Seq<u16>) -> Seq<u8>
    decreases ws.len(),
{
    if ws.len() == 0 {
        seq![]
    } else {
        spec_word_be(ws[0]) + spec_words(ws.drop_first())
    }
}

/// The byte layout of a frame: the words followed by a CRC word computed
/// over their bytes.
pub open spec fn spec_frame(ws: Seq<u16>) -> Seq<u8> {
    spec_words(ws) + spec_word_be(spec_crc16(spec_words(ws)))
}

/// Appending a word appends its slot.
proof fn lemma_spec_words_snoc(ws: Seq<u16>, w: u16)
    ensures
        spec_words(ws.push(w)) == spec_words(ws) + spec_word_be(w),
    decreases ws.len(),
{
    assert(spec_words(ws.push(w)) == spec_word_be(ws.push(w)[0]) + spec_words(
        ws.push(w).drop_first(),
    ));
    if ws.len() == 0 {
        assert(ws.push(w)[0] == w);
        assert(ws.push(w).drop_first() =~= Seq::<u16>::empty());
        assert(spec_words(Seq::<u16>::empty()) == Seq::<u8>::empty());
        assert(spec_words(ws.push(w)) =~= spec_words(ws) + spec_word_be(w));
    } else {
        lemma_spec_words_snoc(ws.drop_first(), w);
        assert(ws.push(w)[0] == ws[0]);
        assert(ws.push(w).drop_first() =~= ws.drop_first().push(w));
        assert(spec_words(ws.push(w)) =~= spec_words(ws) + spec_word_be(w));
    }
}

/// Writes `word` big-endian into word slot `word_idx` of `buf`,
/// zero-padding the low-order bytes of the slot.
pub fn write_word_const(buf: &mut Vec<u8>, word_idx: usize, word: u16)
    requires
        (word_idx + 1) * BYTES_PER_WORD <= old(buf)@.len(),
    ensures
        final(buf)@.len() == old(buf)@.len(),
        final(buf)@.subrange(
            BYTES_PER_WORD * word_idx as int,
            BYTES_PER_WORD * word_idx as int + BYTES_PER_WORD as int,
        ) == spec_word_be(word),
        forall|i: int|
            0 <= i < old(buf)@.len() && !(BYTES_PER_WORD * word_idx as int <= i < BYTES_PER_WORD
                * word_idx as int + BYTES_PER_WORD as int) ==> final(buf)@[i] == old(buf)@[i],
{
    let len = buf.len();
    let buf_offset = word_idx * BYTES_PER_WORD;
    buf.set(buf_offset, (word / 256) as u8);
    buf.set(buf_offset + 1, (word % 256) as u8);
    if BYTES_PER_WORD > 2 {
        buf.set(buf_offset + 2, 0);
    }
    if BYTES_PER_WORD > 3 {
        buf.set(buf_offset + 3, 0);
    }
    proof {
        assert(buf@.subrange(
            BYTES_PER_WORD * word_idx as int,
            BYTES_PER_WORD * word_idx as int + BYTES_PER_WORD as int,
        ) =~= spec_word_be(word));
    }
}

/// Writes the given words into the front of `buf` and appends the input
/// CRC word computed over them. Bytes beyond the CRC word are unchanged.
pub fn write_command_const(buf: &mut Vec<u8>, words: &[u16])
    requires
        (words@.len() + 1) * BYTES_PER_WORD <= old(buf)@.len(),
    ensures
        final(buf)@.len() == old(buf)@.len(),
        final(buf)@.subrange(0, (words@.len() + 1) * BYTES_PER_WORD as int) == spec_frame(words@),
        forall|i: int|
            (words@.len() + 1) * BYTES_PER_WORD as int <= i < old(buf)@.len() ==> final(buf)@[i]
                == old(buf)@[i],
{
    let len = buf.len();
    let mut word_idx: usize = 0;
    proof {
        assert(words@.take(0) =~= Seq::<u16>::empty());
    }
    while word_idx < words.len()
        invariant
            word_idx <= words@.len(),
            buf@.len() == len,
            (words@.len() + 1) * BYTES_PER_WORD <= len,
            buf@.subrange(0, BYTES_PER_WORD * word_idx as int) == spec_words(
                words@.take(word_idx as int),
            ),
            forall|i: int|
                (words@.len() + 1) * BYTES_PER_WORD as int <= i < len ==> buf@[i] == old(buf)@[i],
        decreases words@.len() - word_idx,
    {
        let word = words[word_idx];
        let ghost prev = buf@;
        write_word_const(buf, word_idx, word);
        proof {
            lemma_spec_words_snoc(words@.take(word_idx as int), word);
            assert(words@.take(word_idx as int + 1) =~= words@.take(word_idx as int).push(word));
            assert(buf@.subrange(0, BYTES_PER_WORD * word_idx as int) =~= prev.subrange(
                0,
                BYTES_PER_WORD * word_idx as int,
            ));
            assert(buf@.subrange(0, BYTES_PER_WORD * (word_idx as int + 1)) =~= buf@.subrange(
                0,
                BYTES_PER_WORD * word_idx as int,
            ) + buf@.subrange(
                BYTES_PER_WORD * word_idx as int,
                BYTES_PER_WORD * word_idx as int + BYTES_PER_WORD as int,
            ));
        }
        word_idx += 1;
    }
    let data_len = word_idx * BYTES_PER_WORD;
    let data = slice_subrange(buf.as_slice(), 0, data_len);
    proof {
        assert(words@.take(word_idx as int) =~= words@);
    }
    let crc = crc16_ccitt_const(data);
    let ghost data_view = buf@.subrange(0, data_len as int);
    write_word_const(buf, word_idx, crc);
    proof {
        assert(buf@.subrange(0, data_len as int) =~= data_view);
        assert(buf@.subrange(0, (words@.len() + 1) * BYTES_PER_WORD as int) =~= buf@.subrange(
            0,
            data_len as int,
        ) + buf@.subrange(data_len as int, data_len as int + BYTES_PER_WORD as int));
        assert(buf@.subrange(0, (words@.len() + 1) * BYTES_PER_WORD as int) =~= spec_frame(
            words@,
        ));
    }
}

/// Builds a short frame: the command word plus the input CRC word.
pub fn build_short(command: u16) -> (r: Vec<u8>)
    ensures
        r@ == spec_frame(seq![command]),
        r@.len() == SHORT_FRAME_BYTES,
{
    let mut buf: Vec<u8> = vec![0u8; SHORT_FRAME_BYTES];
    let mut words: Vec<u16> = Vec::new();
    words.push(command);
    proof {
        assert(words@ =~= seq![command]);
    }
    write_command_const(&mut buf, words.as_slice());
    proof {
        assert(buf@.subrange(0, 6) =~= buf@);
    }
    buf
}

/// Builds a write-one frame: the register-write command word for a single
/// register, the value word, and the input CRC word.
pub fn build_write_one(addr: u8, value: u16) -> (r: Vec<u8>)
    requires
        addr < 128,
    ensures
        r@ == spec_frame(seq![command::spec_xreg(command::WREG, addr as u16, 1), value]),
        r@.len() == WRITE_ONE_FRAME_BYTES,
{
    let mut buf: Vec<u8> = vec![0u8; WRITE_ONE_FRAME_BYTES];
    let mut words: Vec<u16> = Vec::new();
    let cmd = command::wreg(addr, 1);
    words.push(cmd);
    words.push(value);
    proof {
        assert(words@ =~= seq![command::spec_xreg(command::WREG, addr as u16, 1), value]);
    }
    write_command_const(&mut buf, words.as_slice());
    proof {
        assert(buf@.subrange(0, 9) =~= buf@);
    }
    buf
}

/// Builds a normal (full-width) frame carrying a command: the command
/// word and its input CRC word at the front, the remaining word slots
/// zero.
pub fn build_normal(command: u16) -> (r: Vec<u8>)
    ensures
        r@ == spec_frame(seq![command]) + Seq::new((NORMAL_FRAME_BYTES - SHORT_FRAME_BYTES) as nat, |i: int| 0u8),
        r@.len() == NORMAL_FRAME_BYTES,
{
    let mut buf: Vec<u8> = vec![0u8; NORMAL_FRAME_BYTES];
    let mut words: Vec<u16> = Vec::new();
    words.push(command);
    proof {
        assert(words@ =~= seq![command]);
    }
    write_command_const(&mut buf, words.as_slice());
    proof {
        assert(buf@ =~= spec_frame(seq![command]) + Seq::new(
            (NORMAL_FRAME_BYTES - SHORT_FRAME_BYTES) as nat,
            |i: int| 0u8,
        ));
    }
    buf
}

/// Whether the trailing CRC word of a frame matches the checksum of the
/// data portion before it.
pub open spec fn spec_frame_crc_ok(frame: Seq<u8>) -> bool {
    spec_crc16(frame.take(frame.len() - BYTES_PER_WORD)) == spec_be16(
        frame[frame.len() - BYTES_PER_WORD],
        frame[frame.len() - BYTES_PER_WORD + 1],
    )
}

/// Returns the data portion of `buf` if the trailing CRC word matches the
/// checksum recomputed over it, or a checksum-mismatch error if not: no
/// field of a failed frame is handed back.
pub fn get_verified_data(buf: &[u8]) -> (r: Result<
    &[u8],
    crate::ads131m08::CommunicationErrorKind,
>)
    requires
        buf@.len() >= BYTES_PER_WORD,
    ensures
        r is Ok <==> spec_frame_crc_ok(buf@),
        r is Ok ==> r.unwrap()@ == buf@.take(buf@.len() - BYTES_PER_WORD),
        r is Err ==> r.unwrap_err() == crate::ads131m08::CommunicationErrorKind::CrcMismatch,
{
    let data_len = buf.len() - BYTES_PER_WORD;
    let data = slice_subrange(buf, 0, data_len);
    let received_crc = be16(buf[data_len], buf[data_len + 1]);
    let calculated_crc = crc16_ccitt_const(data);
    proof {
        assert(data@ =~= buf@.take(buf@.len() - BYTES_PER_WORD));
    }
    if received_crc == calculated_crc {
        Ok(data)
    } else {
        Err(crate::ads131m08::CommunicationErrorKind::CrcMismatch)
    }
}

/// Reads the 16-bit value encoded big-endian by two bytes.
pub fn be16(b0: u8, b1: u8) -> (r: u16)
    ensures
        r == spec_be16(b0, b1),
{
    (b0 as u16) * 256 + (b1 as u16)
}

} // verus!
