use a330_systems::settings::{ApuKind, ElectricalBus};
use a330_systems::aircraft::{TickStage, A330};
use a330_systems::ids::{Category, IdentifierCollision, InitContext, StableId};
use a330_systems::traversal::Element;

#[test]
fn register_twice_collides() {
    let mut context = InitContext::new();
    let id = StableId::single(Category::Hydraulic);
    assert_eq!(context.register(id), Ok(()));
    assert_eq!(context.register(id), Err(IdentifierCollision { id }));
    assert_eq!(context.len(), 1);
    assert!(context.is_registered(id));
    assert!(!context.is_registered(StableId::single(Category::Pneumatic)));
}

#[test]
fn indexed_components_with_the_same_index_collide() {
    let mut context = InitContext::new();
    let first = Element::new(&mut context, Category::Engine, 1);
    assert!(first.is_ok());
    let second = Element::new(&mut context, Category::Engine, 1);
    assert_eq!(
        second,
        Err(IdentifierCollision { id: StableId::indexed(Category::Engine, 1) })
    );
    assert_eq!(context.len(), 1);
}

#[test]
fn indexed_components_with_distinct_indices_register_two_names() {
    let mut context = InitContext::new();
    let one = Element::new(&mut context, Category::Engine, 1).unwrap();
    let two = Element::new(&mut context, Category::Engine, 2).unwrap();
    assert_ne!(one.id, two.id);
    assert_eq!(one.value, 0);
    assert_eq!(context.len(), 2);
    assert_eq!(context.get(0), StableId::indexed(Category::Engine, 1));
    assert_eq!(context.get(1), StableId::indexed(Category::Engine, 2));
}

#[test]
fn same_index_in_other_categories_is_no_collision() {
    let mut context = InitContext::new();
    assert!(Element::new(&mut context, Category::Engine, 1).is_ok());
    assert!(Element::new(&mut context, Category::ExternalPowerSource, 1).is_ok());
    assert!(Element::new(&mut context, Category::AuxiliaryPowerUnit, 1).is_ok());
}

#[test]
fn aircraft_registers_every_component_once() {
    let mut context = InitContext::new();
    let aircraft = A330::new(&mut context).unwrap();
    assert_eq!(context.len(), 29);
    for i in 0..29 {
        for j in 0..29 {
            if i != j {
                assert_ne!(context.get(i), context.get(j));
            }
        }
    }
    assert!(context.is_registered(StableId::indexed(Category::Engine, 1)));
    assert!(context.is_registered(StableId::indexed(Category::Engine, 2)));
    assert!(context.is_registered(StableId::indexed(Category::AuxiliaryPowerUnit, 1)));
    assert!(context.is_registered(StableId::indexed(Category::ExternalPowerSource, 1)));
    assert_eq!(aircraft.stage(), TickStage::Idle);
    assert!(aircraft.calls().is_empty());
}

#[test]
fn aircraft_on_a_taken_engine_index_fails() {
    let mut context = InitContext::new();
    let engine = StableId::indexed(Category::Engine, 2);
    context.register(engine).unwrap();
    let built = A330::new(&mut context);
    assert_eq!(built.err(), Some(IdentifierCollision { id: engine }));
    // The identifiers before the second engine were registered, no more.
    assert_eq!(context.len(), 1 + 15);
    assert!(context.is_registered(StableId::indexed(Category::Engine, 1)));
    assert!(!context.is_registered(StableId::single(Category::EngineFireOverhead)));
}

#[test]
fn second_aircraft_in_one_context_fails() {
    let mut context = InitContext::new();
    assert!(A330::new(&mut context).is_ok());
    let again = A330::new(&mut context);
    assert_eq!(
        again.err(),
        Some(IdentifierCollision {
            id: StableId::single(Category::AirDataInertialReferenceSystem)
        })
    );
    assert_eq!(context.len(), 29);
}

#[test]
fn terrain_display_ranges_double_from_ten() {
    assert_eq!(
        a330_systems::settings::terrain_display_ranges(),
        vec![10, 20, 40, 80, 160, 320]
    );
}

#[test]
fn aircraft_holds_its_construction_settings() {
    let mut context = InitContext::new();
    let a = A330::new(&mut context).unwrap();
    let apu = a.apu_settings();
    assert_eq!(apu.kind, ApuKind::Aps3200);
    assert_eq!(apu.index, 1);
    assert_eq!(apu.start_motor_bus, ElectricalBus::ApuStartMotor);
    assert_eq!(apu.electronic_control_box_bus, ElectricalBus::DirectCurrentBattery);
    assert_eq!(apu.air_intake_flap_bus, ElectricalBus::DirectCurrentBattery);
    let lgciu = a.lgciu_settings();
    assert_eq!(lgciu.lgciu1_bus, ElectricalBus::DirectCurrentEssential);
    assert_eq!(lgciu.lgciu2_bus, ElectricalBus::DirectCurrentGndFltService);
    let egpwc = a.ground_proximity_settings();
    assert_eq!(egpwc.bus, ElectricalBus::DirectCurrent(1));
    assert_eq!(egpwc.ranges_nm, vec![10, 20, 40, 80, 160, 320]);
    assert_eq!(egpwc.initial_range_index, 0);
}
