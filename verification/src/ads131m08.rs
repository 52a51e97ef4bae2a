//! Driver for an eight-channel, 24-bit analog-to-digital converter driven
//! over a synchronous full-duplex bus.
//!
//! Every operation is a single request/response round-trip built from
//! fixed-width big-endian words with a trailing CRC word. Operations with
//! a well-defined compliance check (reset, lock, unlock, register write)
//! return a two-level result: the outer level reports whether bytes were
//! exchanged at all, the inner level whether the device complied.

use vstd::prelude::*;

pub mod command;
pub mod frame;
pub mod register;

use crate::transport::{SpiTransport, TransportError};

verus! {

/// Width of one word slot in bytes (24-bit words).
pub const BYTES_PER_WORD: usize = 3;

/// Number of conversion channels.
pub const CHANNELS: usize = 8;

/// Time required after a reset for the device to be ready for normal
/// operation, in microseconds. The caller inserts this delay between
/// [`Ads131m08::reset_device_start`] and
/// [`Ads131m08::reset_device_complete`]; this layer never sleeps.
pub const REGISTER_AQUISITION_TIME_US: u16 = 5;

/// The response word the device sends after a completed reset: a fixed
/// pattern carrying the channel count in its low bits.
pub const RESET_COMPLETE_RESPONSE: u16 = 0xFF28;

/// Why a frame exchange failed at the integrity level.
#[derive(Clone, Copy, Debug, PartialEq, Eq, Structural)]
pub enum CommunicationErrorKind {
    /// The trailing CRC word did not match the frame's contents.
    CrcMismatch,
}

#[derive(Clone, Copy, Debug)]
enum CommunicationErrorInner {
    Spi(TransportError),
    Kind(CommunicationErrorKind),
}

/// A failed exchange: either the transport itself failed, or the received
/// frame failed its integrity check.
#[derive(Clone, Copy, Debug)]
pub struct CommunicationError(CommunicationErrorInner);

impl CommunicationError {
    /// Whether the transport reported the failure.
    pub closed spec fn spec_is_spi(self) -> bool {
        self.0 is Spi
    }

    /// Whether the received frame failed its integrity check.
    pub closed spec fn spec_is_crc_mismatch(self) -> bool {
        self.0 matches CommunicationErrorInner::Kind(CommunicationErrorKind::CrcMismatch)
    }

    /// Wraps a transport failure.
    pub(crate) fn spi(err: TransportError) -> (r: Self)
        ensures
            r.spec_is_spi(),
            !r.spec_is_crc_mismatch(),
    {
        CommunicationError(CommunicationErrorInner::Spi(err))
    }

    /// Wraps a frame-integrity failure.
    pub(crate) fn kind(kind: CommunicationErrorKind) -> (r: Self)
        ensures
            !r.spec_is_spi(),
            r.spec_is_crc_mismatch() == (kind == CommunicationErrorKind::CrcMismatch),
    {
        CommunicationError(CommunicationErrorInner::Kind(kind))
    }

    /// Whether the transport reported the failure.
    pub fn is_transport(&self) -> (r: bool)
        ensures
            r == self.spec_is_spi(),
    {
        match self.0 {
            CommunicationErrorInner::Spi(_) => true,
            CommunicationErrorInner::Kind(_) => false,
        }
    }

    /// Whether the received frame failed its integrity check.
    pub fn is_crc_mismatch(&self) -> (r: bool)
        ensures
            r == self.spec_is_crc_mismatch(),
    {
        match self.0 {
            CommunicationErrorInner::Spi(_) => false,
            CommunicationErrorInner::Kind(CommunicationErrorKind::CrcMismatch) => true,
        }
    }
}

/// Error indicating that the device did not reset as expected.
#[derive(Clone, Copy, Debug, PartialEq, Eq, Structural)]
pub struct ResetError;

/// Registers failed to lock or unlock as requested.
#[derive(Clone, Copy, Debug, PartialEq, Eq, Structural)]
pub struct LockError;

/// A register write did not read back as the written value.
#[derive(Clone, Copy, Debug, PartialEq, Eq, Structural)]
pub struct WriteError;

/// The 32-bit signed value of one channel word: the word-width bytes
/// interpreted most-significant first and sign-extended.
pub open spec fn spec_sign_extend(b0: u8, b1: u8, b2: u8) -> int {
    let w = b0 * 0x10000 + b1 * 0x100 + b2;
    if w >= 0x800000 {
        w - 0x1000000
    } else {
        w as int
    }
}

/// The channel values carried by the data portion of a normal response
/// frame: after the leading response word, one sign-extended word per
/// channel.
pub open spec fn spec_channel_values(data: Seq<u8>) -> Seq<i32> {
    Seq::new(
        CHANNELS as nat,
        |ch: int|
            spec_sign_extend(
                data[BYTES_PER_WORD + BYTES_PER_WORD * ch],
                data[BYTES_PER_WORD + BYTES_PER_WORD * ch + 1],
                data[BYTES_PER_WORD + BYTES_PER_WORD * ch + 2],
            ) as i32,
    )
}

/// Driver instance owning its transport exclusively.
pub struct Ads131m08<S> {
    spi: S,
}

impl<S: SpiTransport> Ads131m08<S> {
    /// The underlying transport.
    pub closed spec fn transport(self) -> S {
        self.spi
    }

    /// Creates a new driver instance.
    pub fn new(spi: S) -> (d: Self)
        ensures
            d.transport() == spi,
    {
        Ads131m08 { spi }
    }

    /// Sends a reset command to the device.
    ///
    /// Calling this function merely sends the reset command, as a normal
    /// (full-width) frame as the device requires. To confirm that the
    /// reset took place, call
    /// [`reset_device_complete`][Self::reset_device_complete] after
    /// waiting at least [`REGISTER_AQUISITION_TIME_US`] microseconds.
    pub fn reset_device_start(&mut self) -> (r: Result<(), CommunicationError>)
        ensures
            final(self).transport().is_scripted() == old(self).transport().is_scripted(),
            old(self).transport().is_scripted() ==> final(self).transport().script() == old(self).transport().script(),
            r is Err ==> r.unwrap_err().spec_is_spi(),
    {
        let buf = frame::build_normal(command::RESET);
        match self.spi.write(buf.as_slice()) {
            Ok(()) => Ok(()),
            Err(e) => Err(CommunicationError::spi(e)),
        }
    }

    /// Completes a reset operation by checking that the device has reset:
    /// exchanges a short no-operation frame and compares the response
    /// word against [`RESET_COMPLETE_RESPONSE`]. A response that does not
    /// match is a semantic reset failure, not a transport error.
    pub fn reset_device_complete(&mut self) -> (r: Result<
        Result<(), ResetError>,
        CommunicationError,
    >)
        ensures
            final(self).transport().is_scripted() == old(self).transport().is_scripted(),
            r is Err ==> r.unwrap_err().spec_is_spi(),
            old(self).transport().is_scripted() ==> ({
                let s = old(self).transport().script();
                match r {
                    Ok(inner) => {
                        &&& s.len() > 0
                        &&& s[0].len() == frame::SHORT_FRAME_BYTES
                        &&& final(self).transport().script() == s.drop_first()
                        &&& (inner is Ok <==> frame::spec_be16(s[0][0], s[0][1])
                            == RESET_COMPLETE_RESPONSE)
                    },
                    Err(_) => final(self).transport().script() == s,
                }
            }),
    {
        let mut buf = frame::build_short(command::NULL);
        match self.spi.transfer_in_place(&mut buf) {
            Err(e) => {
                return Err(CommunicationError::spi(e));
            },
            Ok(()) => {},
        }
        let word = frame::be16(buf[0], buf[1]);
        if word == RESET_COMPLETE_RESPONSE {
            Ok(Ok(()))
        } else {
            Ok(Err(ResetError))
        }
    }

    /// Locks the device's register interface: sends the short lock
    /// command, then reads the status register back; the lock bit not
    /// being set afterwards is a semantic lock failure.
    pub fn lock_registers(&mut self) -> (r: Result<Result<(), LockError>, CommunicationError>)
        ensures
            final(self).transport().is_scripted() == old(self).transport().is_scripted(),
            r is Err ==> r.unwrap_err().spec_is_spi(),
            old(self).transport().is_scripted() ==> ({
                let s = old(self).transport().script();
                match r {
                    Ok(inner) => {
                        &&& s.len() >= 2
                        &&& final(self).transport().script() == s.skip(2)
                        &&& (inner is Ok <==> frame::spec_be16(s[1][0], s[1][1]) & 0x8000 != 0)
                    },
                    Err(_) => final(self).transport().script() == s || final(self).transport().script() == s.drop_first(),
                }
            }),
    {
        let buf = frame::build_short(command::LOCK);
        match self.spi.write(buf.as_slice()) {
            Err(e) => {
                return Err(CommunicationError::spi(e));
            },
            Ok(()) => {},
        }
        let status = match self.read_single_register(register::STATUS) {
            Err(e) => {
                return Err(e);
            },
            Ok(v) => v,
        };
        if register::Status(status).locked() {
            Ok(Ok(()))
        } else {
            Ok(Err(LockError))
        }
    }

    /// Unlocks the device's register interface: sends the short unlock
    /// command, then reads the status register back; the lock bit still
    /// being set afterwards is a semantic lock failure.
    pub fn unlock_registers(&mut self) -> (r: Result<Result<(), LockError>, CommunicationError>)
        ensures
            final(self).transport().is_scripted() == old(self).transport().is_scripted(),
            r is Err ==> r.unwrap_err().spec_is_spi(),
            old(self).transport().is_scripted() ==> ({
                let s = old(self).transport().script();
                match r {
                    Ok(inner) => {
                        &&& s.len() >= 2
                        &&& final(self).transport().script() == s.skip(2)
                        &&& (inner is Ok <==> frame::spec_be16(s[1][0], s[1][1]) & 0x8000 == 0)
                    },
                    Err(_) => final(self).transport().script() == s || final(self).transport().script() == s.drop_first(),
                }
            }),
    {
        let buf = frame::build_short(command::UNLOCK);
        match self.spi.write(buf.as_slice()) {
            Err(e) => {
                return Err(CommunicationError::spi(e));
            },
            Ok(()) => {},
        }
        let status = match self.read_single_register(register::STATUS) {
            Err(e) => {
                return Err(e);
            },
            Ok(v) => v,
        };
        if !register::Status(status).locked() {
            Ok(Ok(()))
        } else {
            Ok(Err(LockError))
        }
    }

    /// Places the device into standby mode. Fire-and-forget: no response
    /// is read at the protocol level.
    pub fn standby(&mut self) -> (r: Result<(), CommunicationError>)
        ensures
            final(self).transport().is_scripted() == old(self).transport().is_scripted(),
            old(self).transport().is_scripted() ==> final(self).transport().script() == old(self).transport().script(),
            r is Err ==> r.unwrap_err().spec_is_spi(),
    {
        let buf = frame::build_short(command::STANDBY);
        match self.spi.write(buf.as_slice()) {
            Ok(()) => Ok(()),
            Err(e) => Err(CommunicationError::spi(e)),
        }
    }

    /// Wakes the device from standby mode to conversion mode.
    /// Fire-and-forget: no response is read at the protocol level.
    pub fn wakeup(&mut self) -> (r: Result<(), CommunicationError>)
        ensures
            final(self).transport().is_scripted() == old(self).transport().is_scripted(),
            old(self).transport().is_scripted() ==> final(self).transport().script() == old(self).transport().script(),
            r is Err ==> r.unwrap_err().spec_is_spi(),
    {
        let buf = frame::build_short(command::WAKEUP);
        match self.spi.write(buf.as_slice()) {
            Ok(()) => Ok(()),
            Err(e) => Err(CommunicationError::spi(e)),
        }
    }

    /// Reads one device register: exchanges a short register-read frame
    /// addressed to it, then a short no-operation frame whose two leading
    /// response bytes carry the register value.
    pub fn read_single_register(&mut self, addr: u8) -> (r: Result<u16, CommunicationError>)
        requires
            addr < 128,
        ensures
            final(self).transport().is_scripted() == old(self).transport().is_scripted(),
            r is Err ==> r.unwrap_err().spec_is_spi(),
            old(self).transport().is_scripted() ==> ({
                let s = old(self).transport().script();
                match r {
                    Ok(v) => {
                        &&& s.len() >= 2
                        &&& s[0].len() == frame::SHORT_FRAME_BYTES
                        &&& s[1].len() == frame::SHORT_FRAME_BYTES
                        &&& final(self).transport().script() == s.skip(2)
                        &&& v == frame::spec_be16(s[1][0], s[1][1])
                    },
                    Err(_) => final(self).transport().script() == s || final(self).transport().script() == s.drop_first(),
                }
            }),
    {
        let mut buf = frame::build_short(command::rreg(addr, 1));
        match self.spi.transfer_in_place(&mut buf) {
            Err(e) => {
                return Err(CommunicationError::spi(e));
            },
            Ok(()) => {},
        }
        let mut buf2 = frame::build_short(command::NULL);
        match self.spi.transfer_in_place(&mut buf2) {
            Err(e) => {
                return Err(CommunicationError::spi(e));
            },
            Ok(()) => {},
        }
        proof {
            if old(self).transport().is_scripted() {
                let s = old(self).transport().script();
                assert(s.drop_first().drop_first() =~= s.skip(2));
            }
        }
        Ok(frame::be16(buf2[0], buf2[1]))
    }

    /// Writes one device register with a write-one frame, then reads the
    /// register back; a read-back that differs from the written value is
    /// a semantic write failure, not a transport error.
    pub fn write_single_register(&mut self, addr: u8, value: u16) -> (r: Result<
        Result<(), WriteError>,
        CommunicationError,
    >)
        requires
            addr < 128,
        ensures
            final(self).transport().is_scripted() == old(self).transport().is_scripted(),
            r is Err ==> r.unwrap_err().spec_is_spi(),
            old(self).transport().is_scripted() ==> ({
                let s = old(self).transport().script();
                match r {
                    Ok(inner) => {
                        &&& s.len() >= 2
                        &&& final(self).transport().script() == s.skip(2)
                        &&& (inner is Ok <==> frame::spec_be16(s[1][0], s[1][1]) == value)
                    },
                    Err(_) => final(self).transport().script() == s || final(self).transport().script() == s.drop_first(),
                }
            }),
    {
        let buf = frame::build_write_one(addr, value);
        match self.spi.write(buf.as_slice()) {
            Err(e) => {
                return Err(CommunicationError::spi(e));
            },
            Ok(()) => {},
        }
        let read_back = match self.read_single_register(addr) {
            Err(e) => {
                return Err(e);
            },
            Ok(v) => v,
        };
        if read_back == value {
            Ok(Ok(()))
        } else {
            Ok(Err(WriteError))
        }
    }

    /// Acquires one conversion from every channel: exchanges a normal
    /// no-operation frame, verifies the response frame's trailing CRC
    /// word, and sign-extends each channel word to 32 bits. On any error
    /// the channel buffer is left unchanged.
    pub fn read_adc_data(&mut self, channels: &mut [i32; CHANNELS]) -> (r: Result<
        (),
        CommunicationError,
    >)
        ensures
            final(self).transport().is_scripted() == old(self).transport().is_scripted(),
            r is Ok ==> forall|ch: int|
                0 <= ch < CHANNELS ==> -0x800000 <= #[trigger] final(channels)@[ch] < 0x800000,
            r is Err ==> final(channels)@ == old(channels)@ && (r.unwrap_err().spec_is_spi()
                || r.unwrap_err().spec_is_crc_mismatch()),
            old(self).transport().is_scripted() ==> ({
                let s = old(self).transport().script();
                match r {
                    Ok(()) => {
                        &&& s.len() > 0
                        &&& s[0].len() == frame::NORMAL_FRAME_BYTES
                        &&& final(self).transport().script() == s.drop_first()
                        &&& frame::spec_frame_crc_ok(s[0])
                        &&& final(channels)@ == spec_channel_values(
                            s[0].take(s[0].len() - BYTES_PER_WORD),
                        )
                    },
                    Err(e) => {
                        &&& (e.spec_is_spi() ==> final(self).transport().script() == s)
                        &&& (e.spec_is_crc_mismatch() ==> s.len() > 0 && final(self).transport().script() == s.drop_first() && !frame::spec_frame_crc_ok(
                            s[0],
                        ))
                    },
                }
            }),
    {
        let mut buf = frame::build_normal(command::NULL);
        match self.spi.transfer_in_place(&mut buf) {
            Err(e) => {
                return Err(CommunicationError::spi(e));
            },
            Ok(()) => {},
        }
        let data = match frame::get_verified_data(buf.as_slice()) {
            Ok(d) => d,
            Err(k) => {
                return Err(CommunicationError::kind(k));
            },
        };
        let mut ch: usize = 0;
        while ch < CHANNELS
            invariant
                ch <= CHANNELS,
                data@.len() == frame::NORMAL_FRAME_BYTES - BYTES_PER_WORD,
                channels@.len() == CHANNELS,
                forall|k: int| 0 <= k < ch ==> channels@[k] == spec_channel_values(data@)[k],
            decreases CHANNELS - ch,
        {
            let off = BYTES_PER_WORD + ch * BYTES_PER_WORD;
            let b0 = data[off];
            let b1 = data[off + 1];
            let b2 = data[off + 2];
            let w: u32 = (b0 as u32) * 0x10000 + (b1 as u32) * 0x100 + (b2 as u32);
            let v: i32 = if w >= 0x800000 {
                (w as i32) - 0x1000000
            } else {
                w as i32
            };
            channels[ch] = v;
            ch += 1;
        }
        proof {
            assert(channels@ =~= spec_channel_values(data@));
        }
        Ok(())
    }
}

} // verus!
