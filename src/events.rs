//! The decoded contents of an event frame, as delivered by the validator.
use vstd::prelude::*;
use crate::addressing::AddressSpace;

verus! {

#[derive(Debug, Clone, PartialEq, Eq)]
pub struct EventAttribute {
    pub key: String,
    pub value: String,
}

/// One ledger key/value mutation.
#[derive(Debug, Clone, PartialEq, Eq)]
pub struct StateChange {
    pub address: String,
    pub value: Vec<u8>,
}

/// One event of a frame. A state-delta event carries its decoded state changes;
/// other events carry none.
#[derive(Debug, Clone, PartialEq, Eq)]
pub struct Event {
    pub event_type: String,
    pub attributes: Vec<EventAttribute>,
    pub state_changes: Vec<StateChange>,
}

/// A state change in the application namespace, with the family of its address.
#[derive(Debug, Clone, PartialEq, Eq)]
pub struct ClassifiedChange {
    pub kind: AddressSpace,
    pub address: String,
    pub value: Vec<u8>,
}

} // verus!
