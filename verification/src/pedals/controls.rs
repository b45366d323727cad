//! settings (knobs and switches) of the pedals
use vstd::prelude::*;

verus! {

/// The unit a pedal setting is shown in.
#[derive(PartialEq, Eq, Structural, Debug, Clone, Copy)]
pub enum SettingUnit {
    Msec,
    DB,
    Linear,
    Selector,
    Footswitch,
}

impl SettingUnit {
    /// The number of the value, counting from zero in declaration order.
    pub open spec fn code(self) -> int {
        match self {
            SettingUnit::Msec => 0,
            SettingUnit::DB => 1,
            SettingUnit::Linear => 2,
            SettingUnit::Selector => 3,
            SettingUnit::Footswitch => 4,
        }
    }

    /// The number of the value.
    pub fn to_i64(&self) -> (r: i64)
        ensures
            r == self.code(),
    {
        match self {
            SettingUnit::Msec => 0,
            SettingUnit::DB => 1,
            SettingUnit::Linear => 2,
            SettingUnit::Selector => 3,
            SettingUnit::Footswitch => 4,
        }
    }

    /// The value with number `v`, if there is one.
    pub fn from_i64(v: i64) -> (r: Option<SettingUnit>)
        ensures
            match r {
                Some(p) => p.code() == v,
                None => forall|p: SettingUnit| #[trigger] p.code() != v,
            },
    {
        match v {
            0 => Some(SettingUnit::Msec),
            1 => Some(SettingUnit::DB),
            2 => Some(SettingUnit::Linear),
            3 => Some(SettingUnit::Selector),
            4 => Some(SettingUnit::Footswitch),
            _ => None,
        }
    }
}

/// Values are found again from their numbers.
pub proof fn lemma_setting_unit_code_injective(p: SettingUnit, q: SettingUnit)
    ensures
        p.code() == q.code() ==> p == q,
{
}

/// The setting units in the order they are declared.
pub open spec fn setting_units_in_order() -> Seq<SettingUnit> {
    seq![
        SettingUnit::Msec,
        SettingUnit::DB,
        SettingUnit::Linear,
        SettingUnit::Selector,
        SettingUnit::Footswitch,
    ]
}

/// The setting units are numbered by their place in the declaration, from zero,
/// and every one of them has a place.
pub proof fn lemma_setting_units_numbers_follow_order(p: SettingUnit, i: int)
    ensures
        0 <= i < setting_units_in_order().len() ==> setting_units_in_order()[i].code() == i,
        setting_units_in_order().contains(p),
{
    match p {
        SettingUnit::Msec => assert(setting_units_in_order()[0] == p),
        SettingUnit::DB => assert(setting_units_in_order()[1] == p),
        SettingUnit::Linear => assert(setting_units_in_order()[2] == p),
        SettingUnit::Selector => assert(setting_units_in_order()[3] == p),
        SettingUnit::Footswitch => assert(setting_units_in_order()[4] == p),
    }
}

} // verus!
