//! settings of the guitar envelope filter (auto-wah)
use vstd::prelude::*;

verus! {

/// The filter the envelope sweeps: low-pass, band-pass or high-pass.
#[derive(PartialEq, Eq, Structural, Debug, Clone, Copy)]
pub enum EnvelopeMode {
    LPF,
    BPF,
    HPF,
}

impl EnvelopeMode {
    /// The number of the value, counting from zero in declaration order.
    pub open spec fn code(self) -> int {
        match self {
            EnvelopeMode::LPF => 0,
            EnvelopeMode::BPF => 1,
            EnvelopeMode::HPF => 2,
        }
    }

    /// The number of the value.
    pub fn to_i64(&self) -> (r: i64)
        ensures
            r == self.code(),
    {
        match self {
            EnvelopeMode::LPF => 0,
            EnvelopeMode::BPF => 1,
            EnvelopeMode::HPF => 2,
        }
    }

    /// The value with number `v`, if there is one.
    pub fn from_i64(v: i64) -> (r: Option<EnvelopeMode>)
        ensures
            match r {
                Some(p) => p.code() == v,
                None => forall|p: EnvelopeMode| #[trigger] p.code() != v,
            },
    {
        match v {
            0 => Some(EnvelopeMode::LPF),
            1 => Some(EnvelopeMode::BPF),
            2 => Some(EnvelopeMode::HPF),
            _ => None,
        }
    }
}

/// Values are found again from their numbers.
pub proof fn lemma_envelope_mode_code_injective(p: EnvelopeMode, q: EnvelopeMode)
    ensures
        p.code() == q.code() ==> p == q,
{
}

/// The envelope modes in the order they are declared.
pub open spec fn envelope_modes_in_order() -> Seq<EnvelopeMode> {
    seq![
        EnvelopeMode::LPF,
        EnvelopeMode::BPF,
        EnvelopeMode::HPF,
    ]
}

/// The envelope modes are numbered by their place in the declaration, from zero,
/// and every one of them has a place.
pub proof fn lemma_envelope_modes_numbers_follow_order(p: EnvelopeMode, i: int)
    ensures
        0 <= i < envelope_modes_in_order().len() ==> envelope_modes_in_order()[i].code() == i,
        envelope_modes_in_order().contains(p),
{
    match p {
        EnvelopeMode::LPF => assert(envelope_modes_in_order()[0] == p),
        EnvelopeMode::BPF => assert(envelope_modes_in_order()[1] == p),
        EnvelopeMode::HPF => assert(envelope_modes_in_order()[2] == p),
    }
}

} // verus!
