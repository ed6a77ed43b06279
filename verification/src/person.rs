//! Persons: agents that age each tick and die deterministically, and the
//! registry that owns them.

use vstd::prelude::*;
use vstd::string::StringExecFns;

use crate::family::FamilyID;
use crate::{EntityError, InstructionLevel, WorkingArea};

verus! {

/// Person gender, fixed at creation.
#[derive(Debug, PartialEq, Eq, Structural, Copy, Clone)]
pub enum Gender {
    Male,
    Female,
}

/// Per-person numeric traits, each a byte-range value.
///
/// Treated like a plain-old-data aggregate: copied by value, never shared
/// by reference, and immutable once a person is created.
#[derive(Debug, PartialEq, Eq, Structural, Copy, Clone)]
pub struct PersonAttributes {
    /// How fast the person learns, and how much.
    pub intelligence: u8,

    /// How fast the person can find a partner.
    pub beauty: u8,

    /// How famous the person can be, and how fast it gets a job.
    pub speak: u8,

    /// How hard it is for the person to get a disease; drives the
    /// deterministic death threshold.
    pub health: u8,
}

/// A stable identifier into the person registry.  Strictly positive,
/// unique within one registry's lifetime, never reused.
pub type PersonID = usize;

/// Ticks per simulated day: one tick models one in-world minute.
pub const TICKS_PER_DAY: u64 = 1440;

/// The age, in whole years, at which the mortality check starts to apply.
pub const MIN_DEATH_YEARS: u64 = 50;

/// The maximum lifespan, in whole years.
pub const MAX_LIFE_YEARS: u64 = 110;

/// The day number that a tick value falls in: whole days elapsed, one day
/// being `TICKS_PER_DAY` ticks.
pub open spec fn day_of_tick(tick: u64) -> int {
    tick as int / 1440
}

/// The death threshold for a health value, in days scaled by 255.
///
/// The threshold in days is `(50 + (health / 255) * (110 - 50)) * 365`:
/// a linear interpolation in `health` between `MIN_DEATH_YEARS` years at
/// health 0 and `MAX_LIFE_YEARS` years at health 255.  The interpolation
/// is exact — the fraction `health / 255` is never rounded.  To keep all
/// arithmetic in integers, the threshold is held scaled by 255, and an
/// age in days is compared against it by cross-multiplication; see
/// `is_dead_age`.
pub open spec fn death_threshold_scaled(health: u8) -> int {
    (50 * 255 + (health as int) * 60) * 365
}

/// Whether an age in whole days has reached the death threshold for a
/// health value: `age >= (50 + (health / 255) * 60) * 365`, decided
/// exactly in integers by scaling both sides by 255.
pub open spec fn is_dead_age(age: int, health: u8) -> bool {
    255 * age >= death_threshold_scaled(health)
}

/// Convert a tick number to a day number.
pub fn tick_to_day_number(tick: u64) -> (day: u64)
    ensures
        day == day_of_tick(tick),
{
    tick / TICKS_PER_DAY
}

/// Convert a day number to the first tick number of that day.
pub fn day_to_tick_number(day: u64) -> (tick: u64)
    requires
        day * 1440 <= u64::MAX,
    ensures
        tick == day * 1440,
{
    day * TICKS_PER_DAY
}

/// Age never decreases as the tick counter advances: for any two tick
/// values in order, the day number of the first is at most the day number
/// of the second.
pub proof fn lemma_age_monotonic(t1: u64, t2: u64)
    requires
        t1 <= t2,
    ensures
        day_of_tick(t1) <= day_of_tick(t2),
{
    vstd::arithmetic::div_mod::lemma_div_is_ordered(t1 as int, t2 as int, 1440);
}

/// Mortality is monotone in health: a healthier person never has an
/// earlier death threshold, so at no age is it dead while a frailer
/// person with the same age is still alive.
pub proof fn lemma_mortality_monotonic(h1: u8, h2: u8)
    requires
        h1 <= h2,
    ensures
        death_threshold_scaled(h1) <= death_threshold_scaled(h2),
        forall|age: int| is_dead_age(age, h2) ==> is_dead_age(age, h1),
{
}

/// The death threshold at the extremes of the health range: health 0
/// gives death exactly from `MIN_DEATH_YEARS` years of 365 days, health
/// 255 exactly from `MAX_LIFE_YEARS` years of 365 days.
pub proof fn lemma_threshold_boundaries(age: int)
    ensures
        is_dead_age(age, 0) <==> age >= 50 * 365,
        is_dead_age(age, 255) <==> age >= 110 * 365,
{
}

/// An individual agent.
///
/// The two family fields are lookup-only back-references: identifiers into
/// the family registry, never dereferenced by the person itself.
#[derive(Debug)]
pub struct Person {
    /// The person's identifier: `Some(..)` once registered, `None` before.
    /// Immutable after registration.
    pub id: Option<PersonID>,

    /// Display name.  No uniqueness constraint.
    pub name: String,

    /// Age in whole days, recomputed from the tick counter on every
    /// update.
    pub age: u64,

    /// The person's gender, fixed at creation.
    pub gender: Gender,

    /// Current instruction level, fixed at creation in this core.
    pub instruction_level: InstructionLevel,

    /// The area the person wishes to work in.
    pub wished_area: WorkingArea,

    /// The area the person currently works in, absent by default.
    pub working_area: Option<WorkingArea>,

    /// Numeric traits, fixed at creation.
    pub attributes: PersonAttributes,

    /// Alive or dead.  Starts `true`, may flip to `false` exactly once,
    /// never back.
    pub alive: bool,

    /// The family in which this person is a child.
    pub original_family: Option<FamilyID>,

    /// The family in which this person currently lives as a parent.
    pub actual_family: Option<FamilyID>,
}

/// The person value that one engine tick leaves behind: the age
/// recomputed from the tick, `alive` cleared once the recomputed age has
/// reached the death threshold, and every other field unchanged.
pub open spec fn iterated(p: Person, tick: u64) -> Person {
    Person {
        age: day_of_tick(tick) as u64,
        alive: p.alive && !is_dead_age(day_of_tick(tick), p.attributes.health),
        ..p
    }
}

impl Person {
    /// Creates a new person with zero days of life: a baby, practically.
    pub fn new(
        name: &str,
        gender: Gender,
        wished_area: WorkingArea,
        attributes: PersonAttributes,
    ) -> (p: Person)
        ensures
            p.id is None,
            p.name@ == name@,
            p.age == 0,
            p.gender == gender,
            p.instruction_level == InstructionLevel::NoInstruction,
            p.wished_area == wished_area,
            p.working_area is None,
            p.attributes == attributes,
            p.alive,
            p.original_family is None,
            p.actual_family is None,
    {
        Person {
            id: None,
            name: String::from_str(name),
            age: 0,
            gender,
            instruction_level: InstructionLevel::NoInstruction,
            wished_area,
            working_area: None,
            attributes,
            alive: true,
            original_family: None,
            actual_family: None,
        }
    }

    /// Creates a new person with an explicit age and instruction level,
    /// for seeding an initial population.
    pub fn new_with_age(
        name: &str,
        gender: Gender,
        wished_area: WorkingArea,
        attributes: PersonAttributes,
        age: u64,
        instruction_level: InstructionLevel,
    ) -> (p: Person)
        ensures
            p.id is None,
            p.name@ == name@,
            p.age == age,
            p.gender == gender,
            p.instruction_level == instruction_level,
            p.wished_area == wished_area,
            p.working_area is None,
            p.attributes == attributes,
            p.alive,
            p.original_family is None,
            p.actual_family is None,
    {
        Person {
            id: None,
            name: String::from_str(name),
            age,
            gender,
            instruction_level,
            wished_area,
            working_area: None,
            attributes,
            alive: true,
            original_family: None,
            actual_family: None,
        }
    }

    /// Whether the person is alive.
    pub fn is_alive(&self) -> (r: bool)
        ensures
            r == self.alive,
    {
        self.alive
    }

    /// Records the family in which this person is a child.
    pub fn update_original_family(&mut self, f: FamilyID)
        ensures
            *final(self) == (Person { original_family: Some(f), ..*old(self) }),
    {
        self.original_family = Some(f);
    }

    /// Records the family in which this person lives as a parent.
    pub fn update_actual_family(&mut self, f: FamilyID)
        ensures
            *final(self) == (Person { actual_family: Some(f), ..*old(self) }),
    {
        self.actual_family = Some(f);
    }

    /// Processes one engine tick for this person.
    ///
    /// The age is recomputed fresh from the tick value, never incremented,
    /// so out-of-order or repeated calls are safe.  Once the recomputed
    /// age reaches the death threshold for this person's health value the
    /// person is dead; a dead person never comes back to life, whatever
    /// tick value later calls pass.
    pub fn iterate(&mut self, tick: u64)
        ensures
            final(self).age == day_of_tick(tick),
            final(self).alive == (old(self).alive
                && !is_dead_age(day_of_tick(tick), old(self).attributes.health)),
            !old(self).alive ==> !final(self).alive,
            *final(self) == iterated(*old(self), tick),
    {
        // Age is a pure function of the tick value passed in.
        self.age = tick / TICKS_PER_DAY;

        // The death threshold grows with the health level: people start
        // dying at MIN_DEATH_YEARS, and nobody outlives MAX_LIFE_YEARS.
        // The comparison is exact: both sides are scaled by 255 instead
        // of rounding the interpolated year count.
        let health: u64 = self.attributes.health as u64;
        proof {
            // The scaled age stays within u64: the age is at most
            // u64::MAX / 1440, and 255 times that still fits.
            vstd::arithmetic::div_mod::lemma_div_is_ordered(tick as int, u64::MAX as int, 1440);
            vstd::arithmetic::mul::lemma_mul_inequality(
                self.age as int,
                (u64::MAX as int) / 1440,
                255,
            );
        }
        if 255 * self.age >= (50 * 255 + health * 60) * 365 {
            self.alive = false;
        }
    }
}

/// A centralized list of persons: the sole owner of every person, indexed
/// by identifier.
///
/// The person with identifier `i` is held at position `i - 1`; the first
/// identifier issued is 1.  No person is ever removed, so identifiers are
/// never reused.
pub struct PersonList {
    /// The registered persons, in order of registration.
    pub items: Vec<Person>,

    /// The highest identifier issued so far; 0 when none has been.
    pub last_id: PersonID,
}

impl PersonList {
    /// Well-formedness: identifiers were issued in order, 1 up to
    /// `last_id`, one per registered person.
    pub open spec fn wf(&self) -> bool {
        &&& self.last_id == self.items@.len()
        &&& forall|i: int|
            0 <= i < self.items@.len() ==> (#[trigger] self.items@[i].id) == Some((i + 1) as usize)
    }

    /// Whether an identifier is present in the registry.
    pub open spec fn spec_contains(&self, id: PersonID) -> bool {
        1 <= id <= self.items@.len()
    }

    /// The person registered under an identifier that is present.
    pub open spec fn spec_lookup(&self, id: PersonID) -> Person {
        self.items@[id - 1]
    }

    /// Creates an empty registry.
    pub fn new() -> (l: PersonList)
        ensures
            l.wf(),
            l.items@.len() == 0,
            l.last_id == 0,
    {
        PersonList { items: Vec::new(), last_id: 0 }
    }

    /// Adds a person to the list and returns its new identifier.
    ///
    /// The identifier is the previous maximum plus one, so registrations
    /// yield 1, 2, 3, ... in order.  The caller loses ownership of the
    /// person and accesses it only through the list from then on.
    pub fn register(&mut self, p: Person) -> (id: PersonID)
        requires
            old(self).wf(),
            old(self).items@.len() < usize::MAX,
        ensures
            final(self).wf(),
            id == old(self).items@.len() + 1,
            id == final(self).items@.len(),
            final(self).items@ == old(self).items@.push((Person { id: Some(id), ..p })),
            final(self).spec_contains(id),
            final(self).spec_lookup(id) == (Person { id: Some(id), ..p }),
    {
        let id = self.last_id + 1;
        let person = Person { id: Some(id), ..p };
        self.items.push(person);
        self.last_id = id;
        id
    }

    /// Looks a person up by identifier; fails with `NotFound` if the
    /// identifier is absent.
    pub fn lookup(&self, id: PersonID) -> (r: Result<&Person, EntityError>)
        ensures
            match r {
                Ok(p) => self.spec_contains(id) && *p == self.spec_lookup(id),
                Err(e) => !self.spec_contains(id) && e == EntityError::NotFound,
            },
    {
        if 1 <= id && id <= self.items.len() {
            Ok(&self.items[id - 1])
        } else {
            Err(EntityError::NotFound)
        }
    }

    /// Runs one engine tick for the person registered under `id`: the
    /// checked, mutating counterpart of `lookup`, for the tick driver.
    ///
    /// Fails with `NotFound`, leaving the registry untouched, if the
    /// identifier is absent.
    pub fn iterate_person(&mut self, id: PersonID, tick: u64) -> (r: Result<(), EntityError>)
        requires
            old(self).wf(),
        ensures
            final(self).wf(),
            match r {
                Ok(_) => old(self).spec_contains(id) && final(self).items@ == old(
                    self,
                ).items@.update(id - 1, iterated(old(self).items@[id - 1], tick)),
                Err(e) => {
                    &&& !old(self).spec_contains(id)
                    &&& e == EntityError::NotFound
                    &&& *final(self) == *old(self)
                },
            },
    {
        if 1 <= id && id <= self.items.len() {
            let idx = id - 1;
            let p = &mut self.items[idx];
            p.iterate(tick);
            Ok(())
        } else {
            Err(EntityError::NotFound)
        }
    }
}

/// In a well-formed person registry, registering n persons has yielded
/// exactly the identifiers 1..n, in order of registration, and no two
/// registered persons share an identifier.
pub proof fn lemma_person_ids_unique(l: &PersonList)
    requires
        l.wf(),
    ensures
        forall|i: int|
            0 <= i < l.items@.len() ==> (#[trigger] l.items@[i].id) == Some((i + 1) as usize),
        forall|i: int, j: int|
            0 <= i < l.items@.len() && 0 <= j < l.items@.len() && i != j
                ==> #[trigger] l.items@[i].id != #[trigger] l.items@[j].id,
{
}

} // verus!
