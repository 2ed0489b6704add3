use vstd::prelude::*;

verus! {

/// Number of set bits of a natural number.
pub open spec fn ones(n: nat) -> nat
    decreases n,
{
    if n == 0 {
        0
    } else {
        n % 2 + ones(n / 2)
    }
}

/// A raw register word passes the parity check when it has an even number of set bits.
pub open spec fn even_parity(raw: u16) -> bool {
    ones(raw as nat) % 2 == 0
}

/// The classification of a raw register word.
pub open spec fn state_of(raw: u16) -> RegisterState {
    if !even_parity(raw) {
        RegisterState::ParityError
    } else if raw == u16::MAX {
        RegisterState::Warning
    } else {
        RegisterState::Valid
    }
}

/// The payload bits of a raw register word (the top bit is dropped).
pub open spec fn payload_of(raw: u16) -> u16 {
    raw & 0x7FFF
}

/// Health of a register read from the device.
#[derive(Clone, Copy, Debug, PartialEq, Eq, Structural)]
pub enum RegisterState {
    ParityError,
    Warning,
    Valid,
}

/// A decoded register: its health and its 15-bit payload.
#[derive(Clone, Copy, Debug)]
pub struct Register {
    state: RegisterState,
    value: u16,
}

/// Whether `raw` has an even number of set bits.
fn parity_is_even(raw: u16) -> (r: bool)
    ensures
        r == even_parity(raw),
{
    let mut x: u16 = raw;
    let mut odd: bool = false;
    while x != 0
        invariant
            (ones(x as nat) + (if odd { 1nat } else { 0nat })) % 2 == ones(raw as nat) % 2,
        decreases x,
    {
        assert(ones(x as nat) == (x as nat) % 2 + ones((x / 2) as nat));
        if x % 2 == 1 {
            odd = !odd;
        }
        x = x / 2;
    }
    !odd
}

impl Register {
    /// The payload always fits in fifteen bits.
    #[verifier::type_invariant]
    spec fn payload_fits(&self) -> bool {
        self.value <= 0x7FFF
    }

    /// The payload bits held by this register.
    pub closed spec fn payload(&self) -> u16 {
        self.value
    }

    /// The health classification of this register.
    pub closed spec fn health(&self) -> RegisterState {
        self.state
    }

    /// Decodes a raw word: parity decides the health, the all-ones word is a
    /// warning, and the top bit is dropped from the payload.
    pub fn new(value: u16) -> (r: Register)
        ensures
            r.health() == state_of(value),
            r.payload() == payload_of(value),
    {
        let parity = parity_is_even(value);
        let state = if !parity {
            RegisterState::ParityError
        } else if value == u16::MAX {
            RegisterState::Warning
        } else {
            RegisterState::Valid
        };
        assert(value & 0x7FFF <= 0x7FFF) by (bit_vector);
        Register { state, value: value & 0x7FFF }
    }

    pub fn value(&self) -> (r: u16)
        ensures
            r == self.payload(),
            r <= 0x7FFF,
    {
        proof {
            use_type_invariant(self);
        }
        self.value
    }

    pub fn state(&self) -> (r: RegisterState)
        ensures
            r == self.health(),
    {
        self.state
    }
}

/// Decoding a payload again leaves it as it is: a register rebuilt from its
/// own `value()` holds the same value.
pub proof fn lemma_payload_round_trip(v: u16)
    requires
        v <= 0x7FFF,
    ensures
        payload_of(v) == v,
{
    assert(v & 0x7FFF == v) by (bit_vector)
        requires
            v <= 0x7FFF,
    ;
}

/// Whether bit `n` of `v` is set.
pub open spec fn bit_set(v: u16, n: u16) -> bool {
    (v >> n) & 1 == 1
}

/// The fifteen payload bits of a register, most significant first.
pub fn bits(reg: &Register) -> (r: [bool; 15])
    ensures
        reg.payload() <= 0x7FFF,
        forall|i: int| 0 <= i < 15 ==> r@[i] == bit_set(reg.payload(), (14 - i) as u16),
{
    proof {
        use_type_invariant(reg);
    }
    let mut out: [bool; 15] = [false; 15];
    let mut i: usize = 0;
    while i < 15
        invariant
            i <= 15,
            out@.len() == 15,
            forall|j: int| 0 <= j < i ==> out@[j] == bit_set(reg.payload(), (14 - j) as u16),
        decreases 15 - i,
    {
        let shift: u16 = (14 - i) as u16;
        out[i] = (reg.value >> shift) & 1 == 1;
        i = i + 1;
    }
    out
}

/// Operating state reported by the amplifier.
#[derive(Clone, Copy, Debug, PartialEq, Eq, Structural)]
pub enum SSPAState {
    Invalid,
    Boot,
    StandBy,
    Failure,
    Disabled,
    Nominal,
    Warning,
    ProtectionHW,
    Protection,
}

/// The major, minor and patch numbers shown for a firmware version
/// register: all three are read from the high byte of the payload, the major
/// number through the mask `0x7F`, the other two through `0x0F`.
pub fn version_parts(reg: &Register) -> (r: (u16, u16, u16))
    ensures
        r == ((reg.payload() >> 8u16) & 0x7F, (reg.payload() >> 8u16) & 0x0F, (reg.payload() >> 8u16) & 0x0F),
{
    let high = reg.value >> 8;
    (high & 0x7F, high & 0x0F, high & 0x0F)
}

impl SSPAState {
    /// The name under which the state is shown.
    pub fn label(&self) -> (r: &'static str)
        ensures
            r@ == match *self {
                SSPAState::Invalid => "Invalid"@,
                SSPAState::Boot => "Boot"@,
                SSPAState::StandBy => "StandBy"@,
                SSPAState::Failure => "Failure"@,
                SSPAState::Disabled => "Disabled"@,
                SSPAState::Nominal => "Nominal"@,
                SSPAState::Warning => "Warning"@,
                SSPAState::ProtectionHW => "ProtectionHW"@,
                SSPAState::Protection => "Protection"@,
            },
    {
        match self {
            SSPAState::Invalid => "Invalid",
            SSPAState::Boot => "Boot",
            SSPAState::StandBy => "StandBy",
            SSPAState::Failure => "Failure",
            SSPAState::Disabled => "Disabled",
            SSPAState::Nominal => "Nominal",
            SSPAState::Warning => "Warning",
            SSPAState::ProtectionHW => "ProtectionHW",
            SSPAState::Protection => "Protection",
        }
    }
}

} // verus!
