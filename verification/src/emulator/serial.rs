use vstd::prelude::*;

verus! {

/// Serial transfer of one bit takes 512 T-cycles.
pub const SERIAL_TRANSFER_CYCLES: u16 = 512;

/// Serial port (SB/SC) with no link partner: transfers shift in 0xFF.
#[derive(Clone, Copy)]
pub struct Serial {
    pub sb: u8,
    pub sc: u8,
    pub print_serial: bool,
    pub transfer_counter: u16,
    pub bits_transferred: u8,
}

impl Serial {
    pub open spec fn wf(self) -> bool {
        &&& self.transfer_counter < 512
        &&& self.bits_transferred < 8
    }

    pub open spec fn write_sc_next(self, value: u8) -> Serial {
        let was_transferring = self.sc & 0x80 != 0;
        let restart = (!was_transferring && value & 0x81 == 0x81) || (was_transferring && value & 0x80 == 0);
        if restart {
            Serial { sc: value, transfer_counter: 0, bits_transferred: 0, ..self }
        } else {
            Serial { sc: value, ..self }
        }
    }

    /// State after one T-cycle, and whether a transfer completed.
    pub open spec fn tick_next(self) -> (Serial, bool) {
        if self.sc & 0x81 != 0x81 {
            (self, false)
        } else if self.transfer_counter + 1 >= 512 {
            if self.bits_transferred + 1 >= 8 {
                (Serial { sc: self.sc & 0x7F, bits_transferred: 0, transfer_counter: 0, sb: 0xFF, ..self }, true)
            } else {
                (Serial { transfer_counter: 0, bits_transferred: (self.bits_transferred + 1) as u8, ..self }, false)
            }
        } else {
            (Serial { transfer_counter: (self.transfer_counter + 1) as u16, ..self }, false)
        }
    }

    pub fn new(print_serial: bool) -> (res: Self)
        ensures
            res == (Serial { sb: 0, sc: 0, print_serial, transfer_counter: 0, bits_transferred: 0 }),
            res.wf(),
    {
        Self { sb: 0, sc: 0, print_serial, transfer_counter: 0, bits_transferred: 0 }
    }

    pub fn read_sb(&self) -> (res: u8)
        ensures
            res == self.sb,
    {
        self.sb
    }

    pub fn read_sc(&self) -> (res: u8)
        ensures
            res == self.sc,
    {
        self.sc
    }

    pub fn write_sb(&mut self, value: u8)
        ensures
            *final(self) == (Serial { sb: value, ..*old(self) }),
    {
        self.sb = value;
    }

    /// Writes SC; starting (bits 7 and 0 set) or cancelling a transfer resets its progress.
    pub fn write_sc(&mut self, value: u8)
        requires
            old(self).wf(),
        ensures
            *final(self) == old(self).write_sc_next(value),
            final(self).wf(),
    {
        let was_transferring = self.sc & 0x80 != 0;
        self.sc = value;
        if !was_transferring && value & 0x81 == 0x81 {
            self.transfer_counter = 0;
            self.bits_transferred = 0;
        } else if was_transferring && value & 0x80 == 0 {
            self.transfer_counter = 0;
            self.bits_transferred = 0;
        }
    }

    /// Advances an internally clocked transfer by one T-cycle. After 8 bits the transfer
    /// completes: SC bit 7 clears, SB becomes 0xFF and true is returned (serial interrupt).
    /// The byte shifted out is SB as it was before that completing tick.
    pub fn tick(&mut self) -> (completed: bool)
        requires
            old(self).wf(),
        ensures
            (*final(self), completed) == old(self).tick_next(),
            final(self).wf(),
    {
        if self.sc & 0x81 != 0x81 {
            return false;
        }
        self.transfer_counter += 1;
        if self.transfer_counter >= SERIAL_TRANSFER_CYCLES {
            self.transfer_counter = 0;
            self.bits_transferred += 1;
            if self.bits_transferred >= 8 {
                self.sc &= 0x7F;
                self.bits_transferred = 0;
                self.transfer_counter = 0;
                self.sb = 0xFF;
                return true;
            }
        }
        false
    }
}

/// State after `k` T-cycles.
pub open spec fn serial_ticked(s: Serial, k: nat) -> Serial
    decreases k,
{
    if k == 0 {
        s
    } else {
        serial_ticked(s, (k - 1) as nat).tick_next().0
    }
}

/// During a transfer started afresh, `k` T-cycles count `k` modulo 512 and `k / 512` bits.
pub proof fn lemma_serial_transfer_progress(s: Serial, k: nat)
    requires
        s.sc & 0x81 == 0x81,
        s.transfer_counter == 0,
        s.bits_transferred == 0,
        k < 4096,
    ensures
        serial_ticked(s, k) == (Serial { transfer_counter: (k % 512) as u16, bits_transferred: (k / 512) as u8, ..s }),
    decreases k,
{
    if k > 0 {
        lemma_serial_transfer_progress(s, (k - 1) as nat);
        let j = (k - 1) as nat;
        vstd::arithmetic::div_mod::lemma_fundamental_div_mod(j as int, 512);
        vstd::arithmetic::div_mod::lemma_fundamental_div_mod(k as int, 512);
        if j % 512 == 511 {
            assert(k % 512 == 0 && k / 512 == j / 512 + 1);
        } else {
            assert(k % 512 == j % 512 + 1 && k / 512 == j / 512);
        }
    }
}

/// A byte transfer takes 8 x 512 T-cycles: started afresh, no T-cycle completes it before
/// the 4096th, which does; then SB holds 0xFF (no link partner) and SC bit 7 is clear.
pub proof fn lemma_serial_byte_transfer(s: Serial)
    requires
        s.sc & 0x81 == 0x81,
        s.transfer_counter == 0,
        s.bits_transferred == 0,
    ensures
        forall|k: nat| k < 4095 ==> !(#[trigger] serial_ticked(s, k)).tick_next().1,
        serial_ticked(s, 4095).tick_next()
            == (Serial { sc: s.sc & 0x7F, bits_transferred: 0, transfer_counter: 0, sb: 0xFF, ..s }, true),
{
    assert forall|k: nat| k < 4095 implies !(#[trigger] serial_ticked(s, k)).tick_next().1 by {
        lemma_serial_transfer_progress(s, k);
        vstd::arithmetic::div_mod::lemma_fundamental_div_mod(k as int, 512);
    }
    lemma_serial_transfer_progress(s, 4095);
}

} // verus!
