//! Process identifiers.
use vstd::prelude::*;

verus! {

/// The identifier of a process. Never zero.
#[derive(Clone, Copy, Debug, PartialEq, Eq, Hash, Structural)]
pub struct ProcessId {
    raw: u32,
}

impl ProcessId {
    /// The number behind the identifier.
    pub closed spec fn number(self) -> u32 {
        self.raw
    }

    /// The identifier with the given number, if that is one.
    pub open spec fn from_number(raw: u32) -> Option<ProcessId> {
        if raw == 0 {
            None
        } else {
            Some(ProcessId::with_number(raw))
        }
    }

    /// The identifier with the given number.
    pub closed spec fn with_number(raw: u32) -> ProcessId {
        ProcessId { raw }
    }

    /// Accepts any number but zero.
    pub fn new(raw: u32) -> (result: Option<ProcessId>)
        ensures
            result == ProcessId::from_number(raw),
            result matches Some(pid) ==> pid.number() == raw,
    {
        if raw == 0 {
            None
        } else {
            Some(ProcessId { raw })
        }
    }

    /// The number behind the identifier.
    pub fn get(self) -> (result: u32)
        ensures
            result == self.number(),
    {
        self.raw
    }

    /// Accepts an optional number, as long as it is not zero.
    pub fn from_optional(raw: Option<u32>) -> (result: Option<ProcessId>)
        ensures
            result == ProcessId::from_optional_number(raw),
    {
        match raw {
            Some(raw) => ProcessId::new(raw),
            None => None,
        }
    }

    /// The identifier with the given number, if there is one and it is not zero.
    pub open spec fn from_optional_number(raw: Option<u32>) -> Option<ProcessId> {
        match raw {
            Some(raw) => ProcessId::from_number(raw),
            None => None,
        }
    }
}

/// Identifiers are as distinct as their numbers.
pub proof fn process_ids_are_their_numbers(a: u32, b: u32)
    ensures
        ProcessId::with_number(a).number() == a,
        ProcessId::with_number(a) == ProcessId::with_number(b) <==> a == b,
{
}

/// An identifier is determined by its number.
pub proof fn process_id_is_determined_by_number(pid: ProcessId)
    ensures
        ProcessId::with_number(pid.number()) == pid,
{
}

/// Every number but zero identifies a process, and the identifier gives its number back.
pub proof fn every_number_but_zero_is_an_identifier(
    raw: u32,
    given: Option<u32>,
    made: Option<ProcessId>,
    read: Option<ProcessId>,
    number: u32,
)
    requires
        call_ensures(ProcessId::new, (raw,), made),
        call_ensures(ProcessId::from_optional, (given,), read),
        made is Some ==> call_ensures(ProcessId::get, (made->0,), number),
    ensures
        made is Some <==> raw != 0,
        made is Some ==> number == raw,
        read is Some <==> given is Some && given->0 != 0,
        given == Some(raw) ==> read == made,
{
}

} // verus!
