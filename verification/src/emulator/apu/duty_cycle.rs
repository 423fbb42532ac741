use vstd::prelude::*;

verus! {

/// Duty cycle of a pulse channel: the fraction of each period spent high.
#[derive(Clone, Copy, PartialEq, Eq, Structural)]
pub enum DutyCycle {
    Eighth,
    Fourth,
    Half,
    ThreeFourths,
}

impl DutyCycle {
    /// The 8-step waveform of the duty cycle (0 = low, 1 = high).
    pub open spec fn waveform(self) -> Seq<u8> {
        match self {
            DutyCycle::Eighth => seq![0u8, 0, 0, 0, 0, 0, 0, 1],
            DutyCycle::Fourth => seq![1u8, 0, 0, 0, 0, 0, 0, 1],
            DutyCycle::Half => seq![1u8, 0, 0, 0, 0, 1, 1, 1],
            DutyCycle::ThreeFourths => seq![0u8, 1, 1, 1, 1, 1, 1, 0],
        }
    }

    /// Duty cycle encoded by the two low bits of `bits`.
    pub open spec fn from_bits_spec(bits: u8) -> DutyCycle {
        let b = bits % 4;
        if b == 0 {
            DutyCycle::Eighth
        } else if b == 1 {
            DutyCycle::Fourth
        } else if b == 2 {
            DutyCycle::Half
        } else {
            DutyCycle::ThreeFourths
        }
    }

    pub open spec fn to_bits_spec(self) -> u8 {
        match self {
            DutyCycle::Eighth => 0,
            DutyCycle::Fourth => 1,
            DutyCycle::Half => 2,
            DutyCycle::ThreeFourths => 3,
        }
    }

    pub fn waveform_step(self, phase: u8) -> (res: u8)
        requires
            phase < 8,
        ensures
            res == self.waveform()[phase as int],
            res <= 1,
    {
        let waveform: [u8; 8] = match self {
            DutyCycle::Eighth => [0, 0, 0, 0, 0, 0, 0, 1],
            DutyCycle::Fourth => [1, 0, 0, 0, 0, 0, 0, 1],
            DutyCycle::Half => [1, 0, 0, 0, 0, 1, 1, 1],
            DutyCycle::ThreeFourths => [0, 1, 1, 1, 1, 1, 1, 0],
        };
        let r = waveform[phase as usize];
        assert(waveform@ =~= self.waveform());
        r
    }

    /// Duty cycle selected by the two low bits of `bits`.
    pub fn from_bits(bits: u8) -> (res: DutyCycle)
        ensures
            res == DutyCycle::from_bits_spec(bits),
    {
        match bits % 4 {
            0 => DutyCycle::Eighth,
            1 => DutyCycle::Fourth,
            2 => DutyCycle::Half,
            _ => DutyCycle::ThreeFourths,
        }
    }

    /// The two-bit register encoding of the duty cycle.
    pub fn to_bits(self) -> (res: u8)
        ensures
            res == self.to_bits_spec(),
    {
        match self {
            DutyCycle::Eighth => 0,
            DutyCycle::Fourth => 1,
            DutyCycle::Half => 2,
            DutyCycle::ThreeFourths => 3,
        }
    }
}

} // verus!
