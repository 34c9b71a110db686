//! The notifications that the guard hands to the host.
//!
//! The guard never talks to the host itself. Each operation appends the
//! notifications it owes to a list that the embedding contract publishes.

use vstd::prelude::*;

verus! {

/// Which of the three notifications an event is.
#[derive(Clone, Copy, Debug, PartialEq, Eq, Structural)]
pub enum EventKind {
    /// The first initialization has run.
    Initial,
    /// A later version has been initialized.
    Reinitial,
    /// The guard has been locked for good.
    Disable,
}

/// The number that a notification carries, in the width in which the host
/// receives it.
#[derive(Clone, Copy, Debug, PartialEq, Eq, Structural)]
pub enum Payload {
    /// A signed 32-bit number.
    I32(i32),
    /// An unsigned 64-bit number.
    U64(u64),
}

/// One notification: its kind, which fixes its topics, and its payload.
#[derive(Clone, Copy, Debug, PartialEq, Eq, Structural)]
pub struct Event {
    pub kind: EventKind,
    pub payload: Payload,
}

/// Whether `c` may stand in a symbol of the host: a letter of the Latin
/// alphabet, a digit or an underscore.
pub open spec fn is_symbol_char(c: char) -> bool {
    ||| 'a' <= c <= 'z'
    ||| 'A' <= c <= 'Z'
    ||| '0' <= c <= '9'
    ||| c == '_'
}

/// Whether `s` can be a short symbol of the host: at most nine characters,
/// each of them one that may stand in a symbol.
pub open spec fn is_short_symbol(s: Seq<char>) -> bool {
    &&& s.len() <= 9
    &&& forall|i: int| 0 <= i < s.len() ==> is_symbol_char(#[trigger] s[i])
}

/// The first topic of every notification of the guard.
pub open spec fn spec_namespace() -> Seq<char> {
    "COUNTER"@
}

/// Returns the first topic of every notification of the guard. It can be a
/// short symbol of the host.
pub fn namespace() -> (name: &'static str)
    ensures
        name@ == spec_namespace(),
        is_short_symbol(name@),
{
    proof {
        reveal_strlit("COUNTER");
    }
    "COUNTER"
}

impl EventKind {
    /// The second topic of a notification of this kind.
    pub open spec fn spec_name(self) -> Seq<char> {
        match self {
            EventKind::Initial => "initial"@,
            EventKind::Reinitial => "reinitial"@,
            EventKind::Disable => "disable"@,
        }
    }

    /// Returns the second topic of a notification of this kind. It can be a
    /// short symbol of the host.
    pub fn name(self) -> (name: &'static str)
        ensures
            name@ == self.spec_name(),
            is_short_symbol(name@),
    {
        proof {
            reveal_strlit("initial");
            reveal_strlit("reinitial");
            reveal_strlit("disable");
        }
        match self {
            EventKind::Initial => "initial",
            EventKind::Reinitial => "reinitial",
            EventKind::Disable => "disable",
        }
    }
}

impl Payload {
    /// The number carried, whatever its width.
    pub open spec fn spec_value(self) -> int {
        match self {
            Payload::I32(v) => v as int,
            Payload::U64(v) => v as int,
        }
    }

    /// Returns the number carried, whatever its width.
    pub fn value(self) -> (v: i128)
        ensures
            v == self.spec_value(),
    {
        match self {
            Payload::I32(v) => v as i128,
            Payload::U64(v) => v as i128,
        }
    }
}

impl Event {
    /// The notice of the first initialization. It carries the version 1.
    pub open spec fn initial() -> Event {
        Event { kind: EventKind::Initial, payload: Payload::I32(1) }
    }

    /// The notice that `version` has been initialized. It carries `version`.
    pub open spec fn reinitial(version: u64) -> Event {
        Event { kind: EventKind::Reinitial, payload: Payload::U64(version) }
    }

    /// The notice that the guard is locked. It carries the locked version.
    pub open spec fn disable() -> Event {
        Event { kind: EventKind::Disable, payload: Payload::U64(u64::MAX) }
    }
}

} // verus!
