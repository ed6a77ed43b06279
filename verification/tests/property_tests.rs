use town_core::family::{Family, FamilyList};
use town_core::person::{day_to_tick_number, tick_to_day_number, Gender, Person, PersonAttributes, PersonList};
use town_core::{EntityError, WorkingArea};

fn attribs_with_health(health: u8) -> PersonAttributes {
    PersonAttributes {
        intelligence: 0,
        beauty: 0,
        speak: 0,
        health,
    }
}

#[test]
fn age_is_tick_divided_by_day_length() {
    assert_eq!(0, tick_to_day_number(0));
    assert_eq!(0, tick_to_day_number(1439));
    assert_eq!(1, tick_to_day_number(1440));
    assert_eq!(1, tick_to_day_number(2879));
    assert_eq!(2, tick_to_day_number(2880));
    assert_eq!(365, tick_to_day_number(365 * 1440));
    assert_eq!(1440, day_to_tick_number(1));
    assert_eq!(365 * 1440, day_to_tick_number(365));
}

#[test]
fn age_non_decreasing_across_ticks() {
    let mut p = Person::new("Ada", Gender::Female, WorkingArea::Technology, attribs_with_health(128));
    let mut previous_age = p.age;
    let mut tick: u64 = 0;
    while tick < 10 * 1440 {
        p.iterate(tick);
        assert!(p.age >= previous_age);
        previous_age = p.age;
        tick += 97; // an odd stride, so day boundaries fall mid-step
    }
    assert_eq!(9, p.age);
}

#[test]
fn age_is_recomputed_not_accumulated() {
    let mut p = Person::new("Ben", Gender::Male, WorkingArea::Driving, attribs_with_health(128));
    p.iterate(5 * 1440);
    assert_eq!(5, p.age);
    // A repeated or out-of-order call is safe: age follows the tick.
    p.iterate(5 * 1440);
    assert_eq!(5, p.age);
    p.iterate(2 * 1440);
    assert_eq!(2, p.age);
}

#[test]
fn mortality_monotonic_in_health() {
    // Identical trajectories, health 10 against health 90: the frail one
    // dies first, and by 110 years everyone is dead.
    let mut frail = Person::new("Frail", Gender::Male, WorkingArea::Health, attribs_with_health(10));
    let mut hardy = Person::new("Hardy", Gender::Male, WorkingArea::Health, attribs_with_health(90));
    let mut day: u64 = 0;
    while day <= 365 * 110 {
        let tick = day_to_tick_number(day);
        frail.iterate(tick);
        hardy.iterate(tick);
        // The hardier person never dies while the frailer lives.
        if !hardy.is_alive() {
            assert!(!frail.is_alive());
        }
        day += 1;
    }
    assert!(!frail.is_alive());
    assert!(!hardy.is_alive());
}

#[test]
fn death_threshold_boundaries() {
    // Health 0: the threshold is exactly 50 years of 365 days.
    let mut p0 = Person::new("Low", Gender::Female, WorkingArea::Homecare, attribs_with_health(0));
    p0.iterate(day_to_tick_number(50 * 365 - 1));
    assert!(p0.is_alive());
    p0.iterate(day_to_tick_number(50 * 365));
    assert!(!p0.is_alive());

    // Health 255: the threshold is exactly 110 years of 365 days.
    let mut p255 = Person::new("High", Gender::Male, WorkingArea::Homecare, attribs_with_health(255));
    p255.iterate(day_to_tick_number(110 * 365 - 1));
    assert!(p255.is_alive());
    p255.iterate(day_to_tick_number(110 * 365));
    assert!(!p255.is_alive());
}

#[test]
fn death_threshold_interpolates_exactly() {
    // Health 1: the threshold is (50 + 60/255) years = 18336 days once
    // the fraction is compared exactly — almost a year past 50 years,
    // not truncated back to it.
    let mut p1 = Person::new("One", Gender::Male, WorkingArea::Driving, attribs_with_health(1));
    p1.iterate(day_to_tick_number(18335));
    assert!(p1.is_alive());
    p1.iterate(day_to_tick_number(18336));
    assert!(!p1.is_alive());

    // Health 10: the threshold is (50 + 600/255) years, reached exactly
    // at day 19109 (255 * 19109 >= (50 * 255 + 600) * 365).
    let mut p10 = Person::new("Ten", Gender::Female, WorkingArea::Driving, attribs_with_health(10));
    p10.iterate(day_to_tick_number(19108));
    assert!(p10.is_alive());
    p10.iterate(day_to_tick_number(19109));
    assert!(!p10.is_alive());
}

#[test]
fn death_is_terminal() {
    let mut p = Person::new("Old", Gender::Male, WorkingArea::Education, attribs_with_health(0));
    p.iterate(day_to_tick_number(50 * 365));
    assert!(!p.is_alive());
    // No later call brings the person back, not even with a smaller tick.
    p.iterate(0);
    assert_eq!(0, p.age);
    assert!(!p.is_alive());
    p.iterate(day_to_tick_number(60 * 365));
    assert!(!p.is_alive());
}

#[test]
fn lifetime_scenario_full_health() {
    // A person with full health, driven day by day from tick 0 to
    // 365 * 110 * 1440: still alive just before the eligibility window
    // opens, dead at the end.
    let mut p = Person::new("Eve", Gender::Female, WorkingArea::Technology, attribs_with_health(255));
    let mut tick: u64 = 0;
    let last_tick = day_to_tick_number(365 * 110);
    let check_tick = day_to_tick_number(365 * 50) - 1440;
    let mut checked = false;
    while tick <= last_tick {
        p.iterate(tick);
        if tick == check_tick {
            assert!(p.is_alive());
            checked = true;
        }
        tick += 1440;
    }
    assert!(checked);
    assert!(!p.is_alive());
}

#[test]
fn registry_ids_are_sequential_and_distinct() {
    let mut plist = PersonList::new();
    let a = plist.register(Person::new("A", Gender::Male, WorkingArea::Education, attribs_with_health(1)));
    let b = plist.register(Person::new("B", Gender::Female, WorkingArea::Health, attribs_with_health(2)));
    let c = plist.register(Person::new("C", Gender::Male, WorkingArea::Driving, attribs_with_health(3)));
    assert_eq!(1, a);
    assert_eq!(2, b);
    assert_eq!(3, c);
    assert_eq!(Some(1), plist.lookup(1).unwrap().id);
    assert_eq!(Some(2), plist.lookup(2).unwrap().id);
    assert_eq!(Some(3), plist.lookup(3).unwrap().id);
    assert_eq!("A", plist.lookup(1).unwrap().name);
    assert_eq!("C", plist.lookup(3).unwrap().name);

    let mut flist = FamilyList::new();
    let f1 = flist.register(
        Family::new(plist.lookup(a).unwrap(), plist.lookup(b).unwrap()).unwrap(),
    );
    let f2 = flist.register(
        Family::new(plist.lookup(a).unwrap(), plist.lookup(b).unwrap()).unwrap(),
    );
    assert_eq!(1, f1);
    assert_eq!(2, f2);
    assert_eq!(Some(1), flist.lookup(f1).unwrap().id);
    assert_eq!(Some(2), flist.lookup(f2).unwrap().id);
}

#[test]
fn lookup_of_absent_id_is_not_found() {
    let mut plist = PersonList::new();
    assert_eq!(EntityError::NotFound, plist.lookup(0).unwrap_err());
    assert_eq!(EntityError::NotFound, plist.lookup(1).unwrap_err());
    plist.register(Person::new("A", Gender::Male, WorkingArea::Education, attribs_with_health(1)));
    assert!(plist.lookup(1).is_ok());
    assert_eq!(EntityError::NotFound, plist.lookup(2).unwrap_err());

    let flist = FamilyList::new();
    assert_eq!(EntityError::NotFound, flist.lookup(1).unwrap_err());
}

#[test]
fn family_from_unregistered_person_is_refused() {
    let father = Person::new("F", Gender::Male, WorkingArea::Education, attribs_with_health(1));
    let mother = Person::new("M", Gender::Female, WorkingArea::Education, attribs_with_health(1));
    // Neither person was registered, so neither has an identifier yet.
    assert_eq!(
        EntityError::UnregisteredReference,
        Family::new(&father, &mother).unwrap_err()
    );

    let mut plist = PersonList::new();
    let fid = plist.register(father);
    let mid = plist.register(mother);
    let child = Person::new("C", Gender::Male, WorkingArea::Education, attribs_with_health(1));
    assert_eq!(
        EntityError::UnregisteredReference,
        Family::new_with_children(
            plist.lookup(fid).unwrap(),
            plist.lookup(mid).unwrap(),
            vec![&child],
        )
        .unwrap_err()
    );
}

#[test]
fn update_references_before_registration_is_refused() {
    let mut plist = PersonList::new();
    let a = plist.register(Person::new("A", Gender::Male, WorkingArea::Education, attribs_with_health(1)));
    let b = plist.register(Person::new("B", Gender::Female, WorkingArea::Education, attribs_with_health(1)));
    let family = Family::new(plist.lookup(a).unwrap(), plist.lookup(b).unwrap()).unwrap();
    // The family was never registered, so it has no identifier to
    // propagate.
    assert_eq!(
        EntityError::InvariantViolation,
        family.update_references(&mut plist).unwrap_err()
    );
    // The registry is untouched.
    assert_eq!(None, plist.lookup(a).unwrap().actual_family);
    assert_eq!(None, plist.lookup(b).unwrap().actual_family);
}

#[test]
fn later_family_overwrites_child_back_reference() {
    let mut plist = PersonList::new();
    let mut flist = FamilyList::new();
    let a = plist.register(Person::new("A", Gender::Male, WorkingArea::Education, attribs_with_health(1)));
    let b = plist.register(Person::new("B", Gender::Female, WorkingArea::Education, attribs_with_health(1)));
    let c = plist.register(Person::new("C", Gender::Male, WorkingArea::Education, attribs_with_health(1)));

    let first = flist.register(
        Family::new_with_children(
            plist.lookup(a).unwrap(),
            plist.lookup(b).unwrap(),
            vec![plist.lookup(c).unwrap()],
        )
        .unwrap(),
    );
    flist.lookup(first).unwrap().update_references(&mut plist).unwrap();
    assert_eq!(Some(first), plist.lookup(c).unwrap().original_family);

    // A second family naming the same child silently takes the latest
    // value: no conflict check is performed.
    let second = flist.register(
        Family::new_with_children(
            plist.lookup(a).unwrap(),
            plist.lookup(b).unwrap(),
            vec![plist.lookup(c).unwrap()],
        )
        .unwrap(),
    );
    flist.lookup(second).unwrap().update_references(&mut plist).unwrap();
    assert_eq!(Some(second), plist.lookup(c).unwrap().original_family);
}

#[test]
fn person_can_be_child_in_one_family_and_parent_in_another() {
    let mut plist = PersonList::new();
    let mut flist = FamilyList::new();
    let f = plist.register(Person::new("F", Gender::Male, WorkingArea::Education, attribs_with_health(1)));
    let m = plist.register(Person::new("M", Gender::Female, WorkingArea::Education, attribs_with_health(1)));
    let c = plist.register(Person::new("C", Gender::Female, WorkingArea::Education, attribs_with_health(1)));
    let s = plist.register(Person::new("S", Gender::Male, WorkingArea::Education, attribs_with_health(1)));

    // C is a child in the first family and a parent in the second.
    let childhood = flist.register(
        Family::new_with_children(
            plist.lookup(f).unwrap(),
            plist.lookup(m).unwrap(),
            vec![plist.lookup(c).unwrap()],
        )
        .unwrap(),
    );
    flist.lookup(childhood).unwrap().update_references(&mut plist).unwrap();

    let own = flist.register(
        Family::new(plist.lookup(s).unwrap(), plist.lookup(c).unwrap()).unwrap(),
    );
    flist.lookup(own).unwrap().update_references(&mut plist).unwrap();

    let grown = plist.lookup(c).unwrap();
    assert_eq!(Some(childhood), grown.original_family);
    assert_eq!(Some(own), grown.actual_family);
}

#[test]
fn update_references_with_absent_member_is_refused() {
    // Persons registered in one registry carry identifiers that mean
    // nothing in another: wiring a family against a registry that lacks
    // a member must fail, not skip.
    let mut home = PersonList::new();
    let f = home.register(Person::new("F", Gender::Male, WorkingArea::Education, attribs_with_health(1)));
    let m = home.register(Person::new("M", Gender::Female, WorkingArea::Education, attribs_with_health(1)));
    let c = home.register(Person::new("C", Gender::Male, WorkingArea::Education, attribs_with_health(1)));

    let mut flist = FamilyList::new();
    let fid = flist.register(
        Family::new_with_children(
            home.lookup(f).unwrap(),
            home.lookup(m).unwrap(),
            vec![home.lookup(c).unwrap()],
        )
        .unwrap(),
    );
    let family = flist.lookup(fid).unwrap();

    // A registry holding only the two parents lacks the child.
    let mut other = PersonList::new();
    other.register(Person::new("F2", Gender::Male, WorkingArea::Education, attribs_with_health(1)));
    other.register(Person::new("M2", Gender::Female, WorkingArea::Education, attribs_with_health(1)));
    assert_eq!(
        EntityError::NotFound,
        family.update_references(&mut other).unwrap_err()
    );
    // Nothing was stamped: the registry is untouched.
    assert_eq!(None, other.lookup(1).unwrap().actual_family);
    assert_eq!(None, other.lookup(2).unwrap().actual_family);

    // An empty registry lacks even the parents.
    let mut empty = PersonList::new();
    assert_eq!(
        EntityError::NotFound,
        family.update_references(&mut empty).unwrap_err()
    );

    // Against the registry that holds every member, wiring succeeds.
    family.update_references(&mut home).unwrap();
    assert_eq!(Some(fid), home.lookup(f).unwrap().actual_family);
    assert_eq!(Some(fid), home.lookup(c).unwrap().original_family);
}

#[test]
fn iterate_person_updates_through_the_registry() {
    let mut plist = PersonList::new();
    let id = plist.register(Person::new("A", Gender::Male, WorkingArea::Health, attribs_with_health(0)));

    plist.iterate_person(id, day_to_tick_number(7)).unwrap();
    assert_eq!(7, plist.lookup(id).unwrap().age);
    assert!(plist.lookup(id).unwrap().is_alive());

    // An absent identifier is a checked failure, and nothing changes.
    assert_eq!(
        EntityError::NotFound,
        plist.iterate_person(id + 1, 0).unwrap_err()
    );
    assert_eq!(7, plist.lookup(id).unwrap().age);

    // The mortality model applies through the registry as well.
    plist.iterate_person(id, day_to_tick_number(50 * 365)).unwrap();
    assert!(!plist.lookup(id).unwrap().is_alive());
}

#[test]
fn family_iterate_has_no_effect() {
    let mut plist = PersonList::new();
    let a = plist.register(Person::new("A", Gender::Male, WorkingArea::Education, attribs_with_health(1)));
    let b = plist.register(Person::new("B", Gender::Female, WorkingArea::Education, attribs_with_health(1)));
    let mut family = Family::new(plist.lookup(a).unwrap(), plist.lookup(b).unwrap()).unwrap();
    family.iterate();
    assert_eq!(None, family.id);
    assert_eq!(a, family.father);
    assert_eq!(b, family.mother);
    assert_eq!(0, family.children.len());
    assert_eq!(0, family.age);
}
