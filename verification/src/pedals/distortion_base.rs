//! settings of the distortion pedals
use vstd::prelude::*;

verus! {

/// Where the pre-clipping high-pass filter of a distortion sits.
#[derive(PartialEq, Eq, Structural, Debug, Clone, Copy)]
pub enum HpfMode {
    Low,
    High,
}

impl HpfMode {
    /// The number of the value, counting from zero in declaration order.
    pub open spec fn code(self) -> int {
        match self {
            HpfMode::Low => 0,
            HpfMode::High => 1,
        }
    }

    /// The number of the value.
    pub fn to_i64(&self) -> (r: i64)
        ensures
            r == self.code(),
    {
        match self {
            HpfMode::Low => 0,
            HpfMode::High => 1,
        }
    }

    /// The value with number `v`, if there is one.
    pub fn from_i64(v: i64) -> (r: Option<HpfMode>)
        ensures
            match r {
                Some(p) => p.code() == v,
                None => forall|p: HpfMode| #[trigger] p.code() != v,
            },
    {
        match v {
            0 => Some(HpfMode::Low),
            1 => Some(HpfMode::High),
            _ => None,
        }
    }
}

/// Values are found again from their numbers.
pub proof fn lemma_hpf_mode_code_injective(p: HpfMode, q: HpfMode)
    ensures
        p.code() == q.code() ==> p == q,
{
}

/// The filter modes in the order they are declared.
pub open spec fn hpf_modes_in_order() -> Seq<HpfMode> {
    seq![
        HpfMode::Low,
        HpfMode::High,
    ]
}

/// The filter modes are numbered by their place in the declaration, from zero,
/// and every one of them has a place.
pub proof fn lemma_hpf_modes_numbers_follow_order(p: HpfMode, i: int)
    ensures
        0 <= i < hpf_modes_in_order().len() ==> hpf_modes_in_order()[i].code() == i,
        hpf_modes_in_order().contains(p),
{
    match p {
        HpfMode::Low => assert(hpf_modes_in_order()[0] == p),
        HpfMode::High => assert(hpf_modes_in_order()[1] == p),
    }
}

} // verus!
