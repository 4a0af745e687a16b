//! The raw unit record as the status source reports it: every state is an
//! uninterpreted string.

use vstd::prelude::*;

verus! {

/// One unit's status as reported by the status source, before any of the
/// state strings are interpreted.
#[derive(Debug)]
pub struct UnitStatusRaw {
    pub name: String,
    pub description: String,
    pub load_state: String,
    pub active_state: String,
    pub sub_state: String,
    pub following_unit: String,
}

/// The mathematical value of a raw unit record: each field as a sequence of
/// characters.
#[verifier::ext_equal]
pub struct UnitStatusRawView {
    pub name: Seq<char>,
    pub description: Seq<char>,
    pub load_state: Seq<char>,
    pub active_state: Seq<char>,
    pub sub_state: Seq<char>,
    pub following_unit: Seq<char>,
}

impl View for UnitStatusRaw {
    type V = UnitStatusRawView;

    open spec fn view(&self) -> UnitStatusRawView {
        UnitStatusRawView {
            name: self.name@,
            description: self.description@,
            load_state: self.load_state@,
            active_state: self.active_state@,
            sub_state: self.sub_state@,
            following_unit: self.following_unit@,
        }
    }
}

impl Clone for UnitStatusRaw {
    fn clone(&self) -> (r: Self)
        ensures
            r@ == self@,
    {
        UnitStatusRaw {
            name: self.name.clone(),
            description: self.description.clone(),
            load_state: self.load_state.clone(),
            active_state: self.active_state.clone(),
            sub_state: self.sub_state.clone(),
            following_unit: self.following_unit.clone(),
        }
    }
}

} // verus!
