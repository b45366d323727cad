//! kinds of delay line
use vstd::prelude::*;

verus! {

/// How the repeats of a delay are filtered.
#[derive(PartialEq, Eq, Structural, Debug, Clone, Copy)]
pub enum DelayMode {
    Digital,
    Analog,
    HighPass,
}

impl DelayMode {
    /// The number of the value, counting from zero in declaration order.
    pub open spec fn code(self) -> int {
        match self {
            DelayMode::Digital => 0,
            DelayMode::Analog => 1,
            DelayMode::HighPass => 2,
        }
    }

    /// The number of the value.
    pub fn to_i64(&self) -> (r: i64)
        ensures
            r == self.code(),
    {
        match self {
            DelayMode::Digital => 0,
            DelayMode::Analog => 1,
            DelayMode::HighPass => 2,
        }
    }

    /// The value with number `v`, if there is one.
    pub fn from_i64(v: i64) -> (r: Option<DelayMode>)
        ensures
            match r {
                Some(p) => p.code() == v,
                None => forall|p: DelayMode| #[trigger] p.code() != v,
            },
    {
        match v {
            0 => Some(DelayMode::Digital),
            1 => Some(DelayMode::Analog),
            2 => Some(DelayMode::HighPass),
            _ => None,
        }
    }
}

/// Values are found again from their numbers.
pub proof fn lemma_delay_mode_code_injective(p: DelayMode, q: DelayMode)
    ensures
        p.code() == q.code() ==> p == q,
{
}

/// The delay modes in the order they are declared.
pub open spec fn delay_modes_in_order() -> Seq<DelayMode> {
    seq![
        DelayMode::Digital,
        DelayMode::Analog,
        DelayMode::HighPass,
    ]
}

/// The delay modes are numbered by their place in the declaration, from zero,
/// and every one of them has a place.
pub proof fn lemma_delay_modes_numbers_follow_order(p: DelayMode, i: int)
    ensures
        0 <= i < delay_modes_in_order().len() ==> delay_modes_in_order()[i].code() == i,
        delay_modes_in_order().contains(p),
{
    match p {
        DelayMode::Digital => assert(delay_modes_in_order()[0] == p),
        DelayMode::Analog => assert(delay_modes_in_order()[1] == p),
        DelayMode::HighPass => assert(delay_modes_in_order()[2] == p),
    }
}

} // verus!
