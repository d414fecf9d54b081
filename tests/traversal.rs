use a330_systems::aircraft::{Electricity, A330};
use a330_systems::ids::{Category, InitContext, StableId};
use a330_systems::snapshot::{apu_generator_in_use, has_flag};
use a330_systems::traversal::{Reading, Visitor};

fn aircraft() -> A330 {
    let mut context = InitContext::new();
    A330::new(&mut context).unwrap()
}

fn read(aircraft: &mut A330) -> Vec<Reading> {
    let mut reader = Visitor::reader();
    aircraft.accept(&mut reader);
    reader.readings().clone()
}

#[test]
fn traversal_visits_each_identifier_once() {
    let mut context = InitContext::new();
    let mut a = A330::new(&mut context).unwrap();
    let readings = read(&mut a);
    assert_eq!(readings.len(), 29);
    for i in 0..29 {
        assert_eq!(readings[i].id, context.get(i));
        for j in 0..29 {
            if i != j {
                assert_ne!(readings[i].id, readings[j].id);
            }
        }
    }
}

#[test]
fn traversal_order_starts_and_ends_as_declared() {
    let mut a = aircraft();
    let readings = read(&mut a);
    assert_eq!(readings[0].id, StableId::single(Category::AirDataInertialReferenceSystem));
    assert_eq!(readings[14].id, StableId::indexed(Category::Engine, 1));
    assert_eq!(readings[15].id, StableId::indexed(Category::Engine, 2));
    assert_eq!(readings[28].id, StableId::single(Category::ReverseThrust));
}

#[test]
fn read_only_traversals_agree() {
    let mut a = aircraft();
    let mut writer = Visitor::writer(vec![
        Reading { id: StableId::single(Category::Hydraulic), value: 17 },
        Reading { id: StableId::indexed(Category::Engine, 2), value: 3 },
    ]);
    a.accept(&mut writer);
    let first = read(&mut a);
    let second = read(&mut a);
    assert_eq!(first, second);
}

#[test]
fn a_visitor_accumulates_over_traversals() {
    let mut a = aircraft();
    let mut reader = Visitor::reader();
    a.accept(&mut reader);
    a.accept(&mut reader);
    let readings = reader.readings();
    assert_eq!(readings.len(), 58);
    for i in 0..29 {
        assert_eq!(readings[i], readings[i + 29]);
    }
}

#[test]
fn written_values_are_read_back() {
    let mut a = aircraft();
    let mut writer = Visitor::writer(vec![
        Reading { id: StableId::single(Category::Fuel), value: 1 },
        Reading { id: StableId::single(Category::Fuel), value: 8 },
        Reading { id: StableId::indexed(Category::Engine, 2), value: 40 },
    ]);
    a.accept(&mut writer);
    let fuel = writer
        .readings()
        .iter()
        .find(|r| r.id == StableId::single(Category::Fuel))
        .unwrap();
    assert_eq!(fuel.value, 1);
    let readings = read(&mut a);
    for r in readings {
        if r.id == StableId::single(Category::Fuel) {
            assert_eq!(r.value, 1);
        } else if r.id == StableId::indexed(Category::Engine, 2) {
            assert_eq!(r.value, 40);
        } else {
            assert_eq!(r.value, 0);
        }
    }
}

#[test]
fn writes_for_unknown_identifiers_change_nothing() {
    let mut a = aircraft();
    let mut writer = Visitor::writer(vec![Reading {
        id: StableId::indexed(Category::Engine, 3),
        value: 11,
    }]);
    a.accept(&mut writer);
    assert!(read(&mut a).iter().all(|r| r.value == 0));
}

#[test]
fn updates_do_not_change_component_state() {
    let mut a = aircraft();
    let mut writer = Visitor::writer(vec![Reading {
        id: StableId::single(Category::Pneumatic),
        value: 5,
    }]);
    a.accept(&mut writer);
    let before = read(&mut a);
    let mut electricity = Electricity::new();
    a.update_before_power_distribution(&mut electricity);
    a.update_after_power_distribution();
    assert_eq!(read(&mut a), before);
}

#[test]
fn flags_and_precedence() {
    assert!(has_flag(6, 2));
    assert!(!has_flag(5, 2));
    assert!(!has_flag(0, 1));
    assert!(apu_generator_in_use(true, false, true));
    assert!(apu_generator_in_use(true, true, false));
    assert!(!apu_generator_in_use(true, true, true));
    assert!(!apu_generator_in_use(false, false, false));
}

#[test]
fn traversal_completes_after_its_children() {
    let mut a = aircraft();
    let mut reader = Visitor::reader();
    assert!(reader.completed().is_empty());
    a.accept(&mut reader);
    assert_eq!(reader.completed(), &vec![29]);
    a.accept(&mut reader);
    assert_eq!(reader.completed(), &vec![29, 58]);
}
