//! Entity and simulation core of a small town-life simulator.
//!
//! Persons age and eventually die under a deterministic mortality model;
//! families group persons by parent and child roles.  Persons and families
//! refer to each other mutually, so instead of shared pointers every
//! cross-entity reference is a stable integer identifier into a central
//! registry, one registry per entity kind.  Dead persons stay resident in
//! their registry; death is a status flag, never a removal, and identifiers
//! are never reused.

pub mod family;
pub mod person;

use vstd::prelude::*;

verus! {

/// Working areas a person can specialise in and a workplace can offer.
///
/// A person specialised in some area will look for a job in that area.
#[derive(Debug, PartialEq, Eq, Structural, Copy, Clone)]
pub enum WorkingArea {
    Education,
    Health,
    Technology,
    Construction,
    Driving,
    Homecare,
}

/// The instruction level, for jobs and persons.
///
/// A job of some instruction level needs a person of the same or a higher
/// level.
#[derive(Debug, PartialEq, Eq, Structural, Copy, Clone)]
pub enum InstructionLevel {
    /// No instruction at all.  Babies and young children fall here.
    NoInstruction,

    /// Basic instruction.  No school required, just a minimum age.
    Basic,

    /// Intermediate instruction.  Only basic school required.
    Intermediate,

    /// Technical instruction, from technical schools and above.
    Technical,

    /// Advanced instruction, from universities.
    Advanced,

    /// Experience in some field: a working area and a number of months.
    Experience(WorkingArea, i32),
}

/// The errors this core can surface to its caller.
///
/// Every precondition violation is reported explicitly; nothing is silently
/// swallowed or retried.
#[derive(Debug, PartialEq, Eq, Structural, Copy, Clone)]
pub enum EntityError {
    /// A lookup was made with an identifier absent from the registry.
    NotFound,

    /// An operation was given an entity value that has no identifier yet.
    UnregisteredReference,

    /// An operation was called on an entity in a state that forbids it,
    /// such as propagating references from a family that was never
    /// registered.
    InvariantViolation,
}

} // verus!
