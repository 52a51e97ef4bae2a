//! In-memory transport implementations.
//!
//! These stand in for real hardware: a scripted transceiver that serves a
//! fixed queue of response frames, for exercising the converter protocol
//! end to end.

use vstd::map::*;
use vstd::prelude::*;

use crate::transport::{I2cBus, I2cDeviceModel, SpiTransport, TransportError};

verus! {

/// A scripted full-duplex transceiver: serves a fixed queue of response
/// frames, one per exchange, and fails once the queue is exhausted or
/// when a queued response does not match the exchanged frame's length.
pub struct ScriptedSpi {
    responses: Vec<Vec<u8>>,
    next: usize,
}

impl ScriptedSpi {
    /// Creates a transceiver with an empty response queue.
    pub fn new() -> (s: ScriptedSpi)
        ensures
            s.wf(),
            s.is_scripted(),
            s.script() == Seq::<Seq<u8>>::empty(),
    {
        let s = ScriptedSpi { responses: Vec::new(), next: 0 };
        proof {
            assert(s.script() =~= Seq::<Seq<u8>>::empty());
        }
        s
    }

    /// Queues one response frame.
    pub fn push_response(&mut self, resp: Vec<u8>)
        requires
            old(self).wf(),
        ensures
            final(self).wf(),
            final(self).script() == old(self).script().push(resp@),
    {
        self.responses.push(resp);
        proof {
            assert(self.script() =~= old(self).script().push(
                self.responses@[self.responses@.len() - 1]@,
            ));
        }
    }

    /// The served prefix of the queue never passes its end.
    pub closed spec fn wf(self) -> bool {
        self.next <= self.responses@.len()
    }
}

impl SpiTransport for ScriptedSpi {
    open spec fn is_scripted(&self) -> bool {
        true
    }

    closed spec fn script(&self) -> Seq<Seq<u8>> {
        Seq::new((self.responses@.len() - self.next) as nat, |i: int| self.responses@[self.next + i]@)
    }

    fn write(&mut self, data: &[u8]) -> (r: Result<(), TransportError>) {
        Ok(())
    }

    fn transfer_in_place(&mut self, buf: &mut Vec<u8>) -> (r: Result<(), TransportError>)
        ensures
            old(self).wf() ==> final(self).wf(),
    {
        if self.next >= self.responses.len() {
            return Err(TransportError::Other);
        }
        if self.responses[self.next].len() != buf.len() {
            return Err(TransportError::Other);
        }
        let n = buf.len();
        let mut i: usize = 0;
        proof {
            assert(buf@.take(0) =~= self.responses@[self.next as int]@.take(0));
        }
        while i < n
            invariant
                i <= n,
                n == buf@.len(),
                self.next == old(self).next,
                self.responses@ == old(self).responses@,
                self.next < self.responses@.len(),
                n == self.responses@[self.next as int]@.len(),
                buf@.take(i as int) == self.responses@[self.next as int]@.take(i as int),
            decreases n - i,
        {
            let b = self.responses[self.next][i];
            buf.set(i, b);
            proof {
                assert(buf@.take(i as int + 1) =~= self.responses@[self.next as int]@.take(
                    i as int + 1,
                ));
            }
            i += 1;
        }
        self.next = self.next + 1;
        proof {
            assert(buf@.take(n as int) =~= buf@);
            assert(old(self).responses@[old(self).next as int]@.take(n as int) =~= old(
                self,
            ).responses@[old(self).next as int]@);
            assert(buf@ =~= old(self).responses@[old(self).next as int]@);
            assert(old(self).script()[0] == old(self).responses@[old(self).next as int]@);
            assert(self.script() =~= old(self).script().drop_first());
        }
        Ok(())
    }
}

/// Copies a byte slice into a fresh vector.
fn copy_bytes(src: &[u8]) -> (r: Vec<u8>)
    ensures
        r@ == src@,
{
    let mut v: Vec<u8> = Vec::new();
    let mut i: usize = 0;
    while i < src.len()
        invariant
            i <= src@.len(),
            v@ == src@.take(i as int),
        decreases src@.len() - i,
    {
        v.push(src[i]);
        proof {
            assert(v@ =~= src@.take(i as int + 1));
        }
        i += 1;
    }
    proof {
        assert(v@ =~= src@);
    }
    v
}

/// A simulated register-file device on a two-wire bus: one device at a
/// fixed address, with up to 256 registers of arbitrary widths. It
/// acknowledges only its own address and serves reads and writes straight
/// from its register file.
pub struct SimI2c {
    addr: u8,
    pointer: u8,
    regs: Vec<Option<Vec<u8>>>,
}

impl SimI2c {
    /// The register file holds one slot per possible register number.
    pub closed spec fn wf(self) -> bool {
        self.regs@.len() == 256
    }

    /// Creates a simulated device at the given bus address with no
    /// registers populated.
    pub fn new(addr: u8) -> (s: SimI2c)
        ensures
            s.wf(),
            s.is_modeled(),
            s.model().addr == addr,
            s.model().pointer == 0,
            s.model().regs == Map::<u8, Seq<u8>>::empty(),
    {
        let mut regs: Vec<Option<Vec<u8>>> = Vec::new();
        let mut i: usize = 0;
        while i < 256
            invariant
                i <= 256,
                regs@.len() == i,
                forall|k: int| 0 <= k < i ==> regs@[k] is None,
            decreases 256 - i,
        {
            regs.push(None);
            i += 1;
        }
        let s = SimI2c { addr, pointer: 0, regs };
        proof {
            assert(s.model().regs =~= Map::<u8, Seq<u8>>::empty());
        }
        s
    }

    /// The bytes the simulated device currently holds in one register.
    pub fn register_bytes(&self, reg: u8) -> (r: Option<&Vec<u8>>)
        requires
            self.wf(),
        ensures
            r is Some <==> self.model().regs.contains_key(reg),
            r is Some ==> r.unwrap()@ == self.model().regs[reg],
    {
        match &self.regs[reg as usize] {
            Some(v) => Some(v),
            None => None,
        }
    }

    /// Loads one register of the simulated device.
    pub fn set_register(&mut self, reg: u8, data: Vec<u8>)
        requires
            old(self).wf(),
        ensures
            final(self).wf(),
            final(self).is_modeled(),
            final(self).model() == (I2cDeviceModel {
                addr: old(self).model().addr,
                pointer: old(self).model().pointer,
                regs: old(self).model().regs.insert(reg, data@),
            }),
    {
        let ghost dv = data@;
        self.regs.set(reg as usize, Some(data));
        proof {
            assert(self.model().regs =~= old(self).model().regs.insert(reg, dv));
        }
    }
}

impl I2cBus for SimI2c {
    open spec fn is_modeled(&self) -> bool {
        true
    }

    closed spec fn model(&self) -> I2cDeviceModel {
        I2cDeviceModel {
            addr: self.addr,
            pointer: self.pointer,
            regs: Map::new(
                |r: u8| r < self.regs@.len() && self.regs@[r as int] is Some,
                |r: u8| self.regs@[r as int]->Some_0@,
            ),
        }
    }

    fn read(&mut self, addr: u8, n: usize) -> (r: Result<Vec<u8>, TransportError>)
        ensures
            old(self).wf() ==> final(self).wf(),
    {
        if addr != self.addr {
            return Err(TransportError::AddressNack);
        }
        if (self.pointer as usize) >= self.regs.len() {
            return Err(TransportError::Other);
        }
        match &self.regs[self.pointer as usize] {
            None => Err(TransportError::Other),
            Some(v) => {
                if v.len() != n {
                    Err(TransportError::Other)
                } else {
                    Ok(copy_bytes(v.as_slice()))
                }
            },
        }
    }

    fn write_read(&mut self, addr: u8, reg: u8, n: usize) -> (r: Result<Vec<u8>, TransportError>)
        ensures
            old(self).wf() ==> final(self).wf(),
    {
        if addr != self.addr {
            return Err(TransportError::AddressNack);
        }
        if (reg as usize) >= self.regs.len() {
            return Err(TransportError::Other);
        }
        let data = match &self.regs[reg as usize] {
            None => {
                return Err(TransportError::Other);
            },
            Some(v) => {
                if v.len() != n {
                    return Err(TransportError::Other);
                }
                copy_bytes(v.as_slice())
            },
        };
        self.pointer = reg;
        proof {
            assert(self.model() == (I2cDeviceModel { pointer: reg, ..old(self).model() }));
        }
        Ok(data)
    }

    fn write_reg(&mut self, addr: u8, reg: u8, data: &[u8]) -> (r: Result<(), TransportError>)
        ensures
            old(self).wf() ==> final(self).wf(),
    {
        if addr != self.addr {
            return Err(TransportError::AddressNack);
        }
        if (reg as usize) >= self.regs.len() {
            return Err(TransportError::Other);
        }
        let copy = copy_bytes(data);
        let ghost dv = data@;
        self.regs.set(reg as usize, Some(copy));
        self.pointer = reg;
        proof {
            assert(self.regs@[reg as int]->Some_0@ == dv);
            assert_maps_equal!(self.model().regs, old(self).model().regs.insert(reg, dv), k => {
                if k == reg {
                    assert(self.regs@[k as int]->Some_0@ == dv);
                } else if (k as int) < self.regs@.len() {
                    assert(self.regs@[k as int] == old(self).regs@[k as int]);
                }
            });
            assert(self.model().regs =~~= old(self).model().regs.insert(reg, dv));
            assert(self.model() == (I2cDeviceModel {
                addr: old(self).model().addr,
                pointer: reg,
                regs: old(self).model().regs.insert(reg, dv),
            }));
        }
        Ok(())
    }
}

} // verus!
