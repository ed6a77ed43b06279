//! Families: a relationship between two parent persons and their children,
//! and the registry that owns families.
//!
//! A family stores person identifiers, never person values: the person
//! registry is the sole owner of every person, and a family member that
//! dies stays resolvable through that registry.  Propagating a registered
//! family's identifier back into its members' back-references is the one
//! bridge that turns the family's one-directional member list into a
//! bidirectional, identifier-mediated relationship.

use vstd::prelude::*;

use crate::person::{Person, PersonID, PersonList};
use crate::EntityError;

verus! {

/// A stable identifier into the family registry.  Strictly positive,
/// unique within one registry's lifetime, never reused.
pub type FamilyID = usize;

/// A family: two parents and zero or more children, all held as
/// identifiers into the person registry.
#[derive(Debug)]
pub struct Family {
    /// The family's identifier: `Some(..)` once registered, `None` before.
    pub id: Option<FamilyID>,

    /// Identifier of the father.
    pub father: PersonID,

    /// Identifier of the mother.
    pub mother: PersonID,

    /// Identifiers of the children, in insertion order.  The order is
    /// meaningful only for display, not for logic.
    pub children: Vec<PersonID>,

    /// Time of existence of this family, in days, independent of the
    /// members' ages.
    pub age: u64,
}

/// Stamps `Some(fid)` into the `original_family` back-reference of the
/// person registered under `id`, which must be present in the registry.
fn stamp_original_family(list: &mut PersonList, id: PersonID, fid: FamilyID)
    requires
        old(list).wf(),
        old(list).spec_contains(id),
    ensures
        final(list).wf(),
        final(list).items@.len() == old(list).items@.len(),
        forall|i: int|
            0 <= i < old(list).items@.len() ==> #[trigger] final(list).items@[i] == (Person {
                original_family: if i + 1 == id {
                    Some(fid)
                } else {
                    old(list).items@[i].original_family
                },
                ..old(list).items@[i]
            }),
{
    let idx = id - 1;
    let p = &mut list.items[idx];
    p.update_original_family(fid);
}

/// Stamps `Some(fid)` into the `actual_family` back-reference of the
/// person registered under `id`, which must be present in the registry.
fn stamp_actual_family(list: &mut PersonList, id: PersonID, fid: FamilyID)
    requires
        old(list).wf(),
        old(list).spec_contains(id),
    ensures
        final(list).wf(),
        final(list).items@.len() == old(list).items@.len(),
        forall|i: int|
            0 <= i < old(list).items@.len() ==> #[trigger] final(list).items@[i] == (Person {
                actual_family: if i + 1 == id {
                    Some(fid)
                } else {
                    old(list).items@[i].actual_family
                },
                ..old(list).items@[i]
            }),
{
    let idx = id - 1;
    let p = &mut list.items[idx];
    p.update_actual_family(fid);
}

impl Family {
    /// What reference propagation under identifier `fid` does to the
    /// person registry: every registered person whose identifier is among
    /// this family's children gets `original_family` stamped, the father
    /// and the mother get `actual_family` stamped, and nothing else about
    /// any person changes.
    pub open spec fn references_updated(
        self,
        fid: FamilyID,
        before: Seq<Person>,
        after: Seq<Person>,
    ) -> bool {
        &&& after.len() == before.len()
        &&& forall|i: int|
            0 <= i < before.len() ==> #[trigger] after[i] == (Person {
                original_family: if self.children@.contains((i + 1) as usize) {
                    Some(fid)
                } else {
                    before[i].original_family
                },
                actual_family: if i + 1 == self.father || i + 1 == self.mother {
                    Some(fid)
                } else {
                    before[i].actual_family
                },
                ..before[i]
            })
    }

    /// Creates a planned family from two already-registered persons.
    ///
    /// Fails with `UnregisteredReference` if either person has no
    /// identifier yet.
    pub fn new(father: &Person, mother: &Person) -> (r: Result<Family, EntityError>)
        ensures
            match r {
                Ok(f) => {
                    &&& father.id is Some
                    &&& mother.id is Some
                    &&& f.id is None
                    &&& f.father == father.id.unwrap()
                    &&& f.mother == mother.id.unwrap()
                    &&& f.children@.len() == 0
                    &&& f.age == 0
                },
                Err(e) => {
                    &&& father.id is None || mother.id is None
                    &&& e == EntityError::UnregisteredReference
                },
            },
    {
        match (father.id, mother.id) {
            (Some(father_id), Some(mother_id)) => Ok(Family {
                id: None,
                father: father_id,
                mother: mother_id,
                children: Vec::new(),
                age: 0,
            }),
            _ => Err(EntityError::UnregisteredReference),
        }
    }

    /// Creates a family with children, all persons already registered.
    ///
    /// Fails with `UnregisteredReference` if any supplied person has no
    /// identifier yet.
    pub fn new_with_children(
        father: &Person,
        mother: &Person,
        children: Vec<&Person>,
    ) -> (r: Result<Family, EntityError>)
        ensures
            match r {
                Ok(f) => {
                    &&& father.id is Some
                    &&& mother.id is Some
                    &&& forall|i: int| 0 <= i < children@.len() ==> (#[trigger] children@[i].id) is Some
                    &&& f.id is None
                    &&& f.father == father.id.unwrap()
                    &&& f.mother == mother.id.unwrap()
                    &&& f.children@.len() == children@.len()
                    &&& forall|i: int|
                        0 <= i < children@.len() ==> #[trigger] f.children@[i] == children@[i].id.unwrap()
                    &&& f.age == 0
                },
                Err(e) => {
                    &&& {
                        ||| father.id is None
                        ||| mother.id is None
                        ||| exists|i: int| 0 <= i < children@.len() && (#[trigger] children@[i].id) is None
                    }
                    &&& e == EntityError::UnregisteredReference
                },
            },
    {
        Family::new_with_children_and_age(father, mother, children, 0)
    }

    /// Creates a family with children and an explicit age of existence.
    fn new_with_children_and_age(
        father: &Person,
        mother: &Person,
        children: Vec<&Person>,
        age: u64,
    ) -> (r: Result<Family, EntityError>)
        ensures
            match r {
                Ok(f) => {
                    &&& father.id is Some
                    &&& mother.id is Some
                    &&& forall|i: int| 0 <= i < children@.len() ==> (#[trigger] children@[i].id) is Some
                    &&& f.id is None
                    &&& f.father == father.id.unwrap()
                    &&& f.mother == mother.id.unwrap()
                    &&& f.children@.len() == children@.len()
                    &&& forall|i: int|
                        0 <= i < children@.len() ==> #[trigger] f.children@[i] == children@[i].id.unwrap()
                    &&& f.age == age
                },
                Err(e) => {
                    &&& {
                        ||| father.id is None
                        ||| mother.id is None
                        ||| exists|i: int| 0 <= i < children@.len() && (#[trigger] children@[i].id) is None
                    }
                    &&& e == EntityError::UnregisteredReference
                },
            },
    {
        let (father_id, mother_id) = match (father.id, mother.id) {
            (Some(father_id), Some(mother_id)) => (father_id, mother_id),
            _ => {
                return Err(EntityError::UnregisteredReference);
            },
        };

        let mut child_ids: Vec<PersonID> = Vec::new();
        let mut k: usize = 0;
        while k < children.len()
            invariant
                k <= children@.len(),
                child_ids@.len() == k,
                forall|i: int|
                    0 <= i < k ==> (#[trigger] children@[i].id) is Some && child_ids@[i]
                        == children@[i].id.unwrap(),
            decreases children@.len() - k,
        {
            match children[k].id {
                Some(child_id) => child_ids.push(child_id),
                None => {
                    return Err(EntityError::UnregisteredReference);
                },
            }
            k += 1;
        }

        Ok(Family { id: None, father: father_id, mother: mother_id, children: child_ids, age })
    }

    /// Propagates this family's identifier into its members'
    /// back-references: `original_family` for every child, `actual_family`
    /// for the father and the mother.
    ///
    /// Fails with `InvariantViolation` if the family itself was never
    /// registered, and with `NotFound` if the father, the mother, or any
    /// child is absent from the registry; either way the registry is left
    /// untouched.
    pub fn update_references(&self, list: &mut PersonList) -> (r: Result<(), EntityError>)
        requires
            old(list).wf(),
        ensures
            final(list).wf(),
            match r {
                Ok(_) => {
                    &&& self.id is Some
                    &&& old(list).spec_contains(self.father)
                    &&& old(list).spec_contains(self.mother)
                    &&& forall|j: int|
                        0 <= j < self.children@.len() ==> old(list).spec_contains(
                            #[trigger] self.children@[j],
                        )
                    &&& self.references_updated(
                        self.id.unwrap(),
                        old(list).items@,
                        final(list).items@,
                    )
                },
                Err(e) => {
                    &&& *final(list) == *old(list)
                    &&& if self.id is None {
                        e == EntityError::InvariantViolation
                    } else {
                        &&& e == EntityError::NotFound
                        &&& {
                            ||| !old(list).spec_contains(self.father)
                            ||| !old(list).spec_contains(self.mother)
                            ||| exists|j: int|
                                0 <= j < self.children@.len() && !old(list).spec_contains(
                                    #[trigger] self.children@[j],
                                )
                        }
                    }
                },
            },
    {
        let fid = match self.id {
            Some(fid) => fid,
            None => {
                return Err(EntityError::InvariantViolation);
            },
        };

        // Surface an absent member before touching anything.
        if !(1 <= self.father && self.father <= list.items.len()) {
            return Err(EntityError::NotFound);
        }
        if !(1 <= self.mother && self.mother <= list.items.len()) {
            return Err(EntityError::NotFound);
        }
        let mut n: usize = 0;
        while n < self.children.len()
            invariant
                old(list).wf(),
                *list == *old(list),
                self.id == Some(fid),
                n <= self.children@.len(),
                forall|j: int| 0 <= j < n ==> list.spec_contains(#[trigger] self.children@[j]),
            decreases self.children@.len() - n,
        {
            let c = self.children[n];
            if !(1 <= c && c <= list.items.len()) {
                return Err(EntityError::NotFound);
            }
            n += 1;
        }

        let ghost before = list.items@;
        let mut k: usize = 0;
        while k < self.children.len()
            invariant
                list.wf(),
                list.items@.len() == before.len(),
                k <= self.children@.len(),
                1 <= self.father <= before.len(),
                1 <= self.mother <= before.len(),
                forall|j: int|
                    0 <= j < self.children@.len() ==> 1 <= #[trigger] self.children@[j]
                        <= before.len(),
                forall|i: int|
                    0 <= i < before.len() ==> #[trigger] list.items@[i] == (Person {
                        original_family: if exists|j: int|
                            0 <= j < k && self.children@[j] == (i + 1) as usize {
                            Some(fid)
                        } else {
                            before[i].original_family
                        },
                        ..before[i]
                    }),
            decreases self.children@.len() - k,
        {
            let c = self.children[k];
            stamp_original_family(list, c, fid);
            proof {
                assert forall|i: int| 0 <= i < before.len() implies #[trigger] list.items@[i]
                    == (Person {
                    original_family: if exists|j: int|
                        0 <= j < k + 1 && self.children@[j] == (i + 1) as usize {
                        Some(fid)
                    } else {
                        before[i].original_family
                    },
                    ..before[i]
                }) by {
                    if i + 1 == c {
                        assert(self.children@[k as int] == (i + 1) as usize);
                    } else {
                        if exists|j: int| 0 <= j < k + 1 && self.children@[j] == (i + 1) as usize {
                            let j = choose|j: int|
                                0 <= j < k + 1 && self.children@[j] == (i + 1) as usize;
                            assert(j != k);
                            assert(exists|j2: int|
                                0 <= j2 < k && self.children@[j2] == (i + 1) as usize);
                        }
                    }
                }
            }
            k += 1;
        }

        let ghost after_children = list.items@;
        stamp_actual_family(list, self.father, fid);
        let ghost after_father = list.items@;
        stamp_actual_family(list, self.mother, fid);

        proof {
            assert forall|i: int| 0 <= i < before.len() implies #[trigger] list.items@[i]
                == (Person {
                original_family: if self.children@.contains((i + 1) as usize) {
                    Some(fid)
                } else {
                    before[i].original_family
                },
                actual_family: if i + 1 == self.father || i + 1 == self.mother {
                    Some(fid)
                } else {
                    before[i].actual_family
                },
                ..before[i]
            }) by {
                assert(after_children[i] == (Person {
                    original_family: if exists|j: int|
                        0 <= j < self.children@.len() && self.children@[j] == (i + 1) as usize {
                        Some(fid)
                    } else {
                        before[i].original_family
                    },
                    ..before[i]
                }));
            }
        }

        Ok(())
    }

    /// Do per-tick checks on this family.
    ///
    /// A reserved extension point: callable every tick, currently without
    /// observable effect, and never failing.
    pub fn iterate(&mut self)
        ensures
            *final(self) == *old(self),
    {
    }
}

/// A centralized list of families: the sole owner of every family, indexed
/// by identifier.
///
/// The family with identifier `i` is held at position `i - 1`; the first
/// identifier issued is 1.  No family is ever removed, so identifiers are
/// never reused.
pub struct FamilyList {
    /// The registered families, in order of registration.
    pub items: Vec<Family>,

    /// The highest identifier issued so far; 0 when none has been.
    pub last_id: FamilyID,
}

impl FamilyList {
    /// Well-formedness: identifiers were issued in order, 1 up to
    /// `last_id`, one per registered family.
    pub open spec fn wf(&self) -> bool {
        &&& self.last_id == self.items@.len()
        &&& forall|i: int|
            0 <= i < self.items@.len() ==> (#[trigger] self.items@[i].id) == Some((i + 1) as usize)
    }

    /// Whether an identifier is present in the registry.
    pub open spec fn spec_contains(&self, id: FamilyID) -> bool {
        1 <= id <= self.items@.len()
    }

    /// The family registered under an identifier that is present.
    pub open spec fn spec_lookup(&self, id: FamilyID) -> Family {
        self.items@[id - 1]
    }

    /// Creates an empty registry.
    pub fn new() -> (l: FamilyList)
        ensures
            l.wf(),
            l.items@.len() == 0,
            l.last_id == 0,
    {
        FamilyList { items: Vec::new(), last_id: 0 }
    }

    /// Adds a family to the list and returns its new identifier.
    ///
    /// The identifier is the previous maximum plus one, so registrations
    /// yield 1, 2, 3, ... in order.  The caller loses ownership of the
    /// family and accesses it only through the list from then on.
    pub fn register(&mut self, f: Family) -> (id: FamilyID)
        requires
            old(self).wf(),
            old(self).items@.len() < usize::MAX,
        ensures
            final(self).wf(),
            id == old(self).items@.len() + 1,
            id == final(self).items@.len(),
            final(self).items@ == old(self).items@.push((Family { id: Some(id), ..f })),
            final(self).spec_contains(id),
            final(self).spec_lookup(id) == (Family { id: Some(id), ..f }),
    {
        let id = self.last_id + 1;
        let family = Family { id: Some(id), ..f };
        self.items.push(family);
        self.last_id = id;
        id
    }

    /// Looks a family up by identifier; fails with `NotFound` if the
    /// identifier is absent.
    pub fn lookup(&self, id: FamilyID) -> (r: Result<&Family, EntityError>)
        ensures
            match r {
                Ok(f) => self.spec_contains(id) && *f == self.spec_lookup(id),
                Err(e) => !self.spec_contains(id) && e == EntityError::NotFound,
            },
    {
        if 1 <= id && id <= self.items.len() {
            Ok(&self.items[id - 1])
        } else {
            Err(EntityError::NotFound)
        }
    }
}

/// In a well-formed family registry, registering n families has yielded
/// exactly the identifiers 1..n, in order of registration, and no two
/// registered families share an identifier.
pub proof fn lemma_family_ids_unique(l: &FamilyList)
    requires
        l.wf(),
    ensures
        forall|i: int|
            0 <= i < l.items@.len() ==> (#[trigger] l.items@[i].id) == Some((i + 1) as usize),
        forall|i: int, j: int|
            0 <= i < l.items@.len() && 0 <= j < l.items@.len() && i != j
                ==> #[trigger] l.items@[i].id != #[trigger] l.items@[j].id,
{
}

} // verus!
