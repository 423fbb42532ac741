use vstd::prelude::*;

verus! {

/// Bytes copied by one OAM DMA transfer.
pub const TRANSFER_SIZE: u16 = 160;
/// T-cycles between two copied bytes.
pub const DELAY_T_CYCLES: u8 = 4;
/// First OAM address.
pub const DESTINATION_START: u16 = 0xFE00;

/// OAM DMA controller: copies 160 bytes from `source` to OAM, one byte every 4 T-cycles
/// after an initial delay of 8.
#[derive(Clone, Copy)]
pub struct Dma {
    pub source: u16,
    pub copied: u16,
    pub enabled: bool,
    pub delay: u8,
    pub last_value: u8,
    pub oam_blocked: bool,
}

impl Dma {
    pub open spec fn wf(self) -> bool {
        &&& self.copied <= TRANSFER_SIZE
        &&& self.source % 256 == 0
    }

    pub open spec fn start_next(self, source: u8) -> Dma {
        Dma {
            last_value: source,
            source: (source as u16 * 256) as u16,
            copied: 0,
            oam_blocked: if !self.enabled { false } else { self.oam_blocked },
            enabled: true,
            delay: 8u8,
            ..self
        }
    }

    /// State after one T-cycle and the `(source, destination)` of the byte to copy, if any.
    pub open spec fn tick_next(self) -> (Dma, Option<(u16, u16)>) {
        if !self.enabled {
            (self, None)
        } else {
            let d = if self.delay > 0 { Dma { delay: (self.delay - 1) as u8, oam_blocked: if self.delay == 1 { true } else { self.oam_blocked }, ..self } } else { self };
            if d.delay == 0 {
                if d.copied >= TRANSFER_SIZE {
                    (Dma { enabled: false, oam_blocked: false, ..d }, None)
                } else {
                    (
                        Dma { copied: (d.copied + 1) as u16, delay: DELAY_T_CYCLES, ..d },
                        Some(((d.source + d.copied) as u16, (DESTINATION_START + d.copied) as u16)),
                    )
                }
            } else {
                (d, None)
            }
        }
    }

    pub fn new() -> (res: Self)
        ensures
            res == (Dma { source: 0, copied: 0, enabled: false, delay: 0, last_value: 0xFF, oam_blocked: false }),
            res.wf(),
    {
        Self { source: 0, copied: 0, enabled: false, delay: 0, last_value: 0xFF, oam_blocked: false }
    }

    pub fn is_oam_blocked(&self) -> (res: bool)
        ensures
            res == self.oam_blocked,
    {
        self.oam_blocked
    }

    pub fn is_enabled(&self) -> (res: bool)
        ensures
            res == self.enabled,
    {
        self.enabled
    }

    /// The last value written to the DMA register.
    pub fn read(&self) -> (res: u8)
        ensures
            res == self.last_value,
    {
        self.last_value
    }

    /// Starts a transfer from `source * 0x100`.
    pub fn start(&mut self, source: u8)
        ensures
            *final(self) == old(self).start_next(source),
            final(self).wf(),
    {
        self.last_value = source;
        self.source = (source as u16) << 8;
        assert((source as u16) << 8u16 == source as u16 * 256) by (bit_vector);
        self.copied = 0;
        if !self.enabled {
            self.oam_blocked = false;
        }
        self.enabled = true;
        self.delay = DELAY_T_CYCLES * 2;
    }

    /// Advances the transfer by one T-cycle; returns the byte to copy when one is due.
    pub fn tick(&mut self) -> (res: Option<(u16, u16)>)
        requires
            old(self).wf(),
        ensures
            (*final(self), res) == old(self).tick_next(),
            final(self).wf(),
    {
        if !self.enabled {
            return None;
        }
        if self.delay > 0 {
            self.delay -= 1;
            if self.delay == 0 {
                self.oam_blocked = true;
            }
        }
        if self.delay == 0 {
            if self.copied >= TRANSFER_SIZE {
                self.enabled = false;
                self.oam_blocked = false;
                return None;
            }
            let transfer_request = self.generate_transfer_request();
            self.copied += 1;
            self.delay = DELAY_T_CYCLES;
            return Some(transfer_request);
        }
        None
    }

    fn generate_transfer_request(&self) -> (res: (u16, u16))
        requires
            self.wf(),
            self.copied < TRANSFER_SIZE,
        ensures
            res == ((self.source + self.copied) as u16, (DESTINATION_START + self.copied) as u16),
    {
        (self.source + self.copied, DESTINATION_START + self.copied)
    }
}

/// Once the start delay has run out, each copy step moves byte `k` of the source page to
/// OAM byte `k`, for the next `k`.
pub proof fn lemma_dma_copies_in_order(d: Dma)
    requires
        d.wf(),
        d.enabled,
        d.delay == 1,
        d.copied < TRANSFER_SIZE,
    ensures
        d.tick_next().1 == Some(((d.source + d.copied) as u16, (DESTINATION_START + d.copied) as u16)),
        d.tick_next().0.copied == d.copied + 1,
        d.tick_next().0.oam_blocked,
{
}

/// State after `k` T-cycles.
pub open spec fn dma_ticked(d: Dma, k: nat) -> Dma
    decreases k,
{
    if k == 0 {
        d
    } else {
        dma_ticked(d, (k - 1) as nat).tick_next().0
    }
}

/// A transfer just started on an idle controller.
pub open spec fn freshly_started(d: Dma) -> bool {
    &&& d.wf()
    &&& d.enabled
    &&& d.delay == 8
    &&& d.copied == 0
    &&& !d.oam_blocked
}

/// Through the first 647 T-cycles of a transfer: 8 cycles of start delay, then one byte
/// every 4 cycles, OAM blocked from the first byte on.
pub proof fn lemma_dma_progress(d: Dma, k: nat)
    requires
        freshly_started(d),
        k <= 647,
    ensures
        k < 8 ==> dma_ticked(d, k) == (Dma { delay: (8 - k) as u8, ..d }),
        k >= 8 ==> dma_ticked(d, k) == (Dma {
            delay: (4 - (k - 8) % 4) as u8,
            copied: ((k - 8) / 4 + 1) as u16,
            oam_blocked: true,
            ..d
        }),
    decreases k,
{
    if k > 0 {
        let j = (k - 1) as nat;
        lemma_dma_progress(d, j);
        if k > 8 {
            vstd::arithmetic::div_mod::lemma_fundamental_div_mod(j - 8, 4);
            vstd::arithmetic::div_mod::lemma_fundamental_div_mod(k - 8, 4);
            if (j - 8) % 4 == 3 {
                assert((k - 8) % 4 == 0 && (k - 8) / 4 == (j - 8) / 4 + 1);
            } else {
                assert((k - 8) % 4 == (j - 8) % 4 + 1 && (k - 8) / 4 == (j - 8) / 4);
            }
        }
    }
}

/// The OAM DMA schedule: of the 648 T-cycles that follow a start on an idle controller,
/// cycle `8 + 4 * i` (for `i` below 160) copies source byte `i` to OAM byte `i` and every
/// other cycle copies nothing; OAM is blocked from cycle 8 through cycle 647, and the
/// transfer is over after cycle 648.
pub proof fn lemma_dma_schedule(d: Dma, k: nat)
    requires
        freshly_started(d),
        1 <= k <= 648,
    ensures
        ({
            let out = dma_ticked(d, (k - 1) as nat).tick_next().1;
            let i = (k - 8) / 4;
            &&& (8 <= k < 648 && (k - 8) % 4 == 0) ==> out == Some(((d.source + i) as u16, (DESTINATION_START + i) as u16))
            &&& !(8 <= k < 648 && (k - 8) % 4 == 0) ==> out is None
            &&& dma_ticked(d, k).oam_blocked == (8 <= k < 648)
            &&& dma_ticked(d, k).enabled == (k < 648)
        }),
{
    let j = (k - 1) as nat;
    lemma_dma_progress(d, j);
    if k <= 647 {
        lemma_dma_progress(d, k);
    }
    assert(dma_ticked(d, k) == dma_ticked(d, j).tick_next().0);
    if k >= 9 {
        vstd::arithmetic::div_mod::lemma_fundamental_div_mod(j - 8, 4);
        vstd::arithmetic::div_mod::lemma_fundamental_div_mod(k - 8, 4);
    }
    if k >= 8 {
        vstd::arithmetic::div_mod::lemma_fundamental_div_mod(k - 8, 4);
    }
}

} // verus!
