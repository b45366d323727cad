//! A pedal to model a room with a few echos
//!
//! This room modeler has a number of surfaces with colors
use vstd::prelude::*;

verus! {

/// The surfaces of the room, from hard (bright echo) to mush (dull echo).
#[derive(PartialEq, Eq, Structural, Debug, Clone, Copy)]
pub enum SurfaceType {
    Hard,
    Firm,
    Soft,
    Mush,
}

impl SurfaceType {
    /// The number of the value, counting from zero in declaration order.
    pub open spec fn code(self) -> int {
        match self {
            SurfaceType::Hard => 0,
            SurfaceType::Firm => 1,
            SurfaceType::Soft => 2,
            SurfaceType::Mush => 3,
        }
    }

    /// The number of the value.
    pub fn to_i64(&self) -> (r: i64)
        ensures
            r == self.code(),
    {
        match self {
            SurfaceType::Hard => 0,
            SurfaceType::Firm => 1,
            SurfaceType::Soft => 2,
            SurfaceType::Mush => 3,
        }
    }

    /// The value with number `v`, if there is one.
    pub fn from_i64(v: i64) -> (r: Option<SurfaceType>)
        ensures
            match r {
                Some(p) => p.code() == v,
                None => forall|p: SurfaceType| #[trigger] p.code() != v,
            },
    {
        match v {
            0 => Some(SurfaceType::Hard),
            1 => Some(SurfaceType::Firm),
            2 => Some(SurfaceType::Soft),
            3 => Some(SurfaceType::Mush),
            _ => None,
        }
    }
}

/// Values are found again from their numbers.
pub proof fn lemma_surface_type_code_injective(p: SurfaceType, q: SurfaceType)
    ensures
        p.code() == q.code() ==> p == q,
{
}

broadcast use vstd::string::group_string_axioms;

impl SurfaceType {
    /// The labels of the surfaces, in order, for the selector knob.
    pub fn labels() -> (r: Vec<String>)
        ensures
            r@.len() == 4,
            r@[0]@ == "Hard"@,
            r@[1]@ == "Firm"@,
            r@[2]@ == "Soft"@,
            r@[3]@ == "Mush"@,
    {
        let mut v: Vec<String> = Vec::new();
        v.push("Hard".to_string());
        v.push("Firm".to_string());
        v.push("Soft".to_string());
        v.push("Mush".to_string());
        v
    }
}

/// The surface types in the order they are declared.
pub open spec fn surface_types_in_order() -> Seq<SurfaceType> {
    seq![
        SurfaceType::Hard,
        SurfaceType::Firm,
        SurfaceType::Soft,
        SurfaceType::Mush,
    ]
}

/// The surface types are numbered by their place in the declaration, from zero,
/// and every one of them has a place.
pub proof fn lemma_surface_types_numbers_follow_order(p: SurfaceType, i: int)
    ensures
        0 <= i < surface_types_in_order().len() ==> surface_types_in_order()[i].code() == i,
        surface_types_in_order().contains(p),
{
    match p {
        SurfaceType::Hard => assert(surface_types_in_order()[0] == p),
        SurfaceType::Firm => assert(surface_types_in_order()[1] == p),
        SurfaceType::Soft => assert(surface_types_in_order()[2] == p),
        SurfaceType::Mush => assert(surface_types_in_order()[3] == p),
    }
}

} // verus!
