use a330_systems::aircraft::{Electricity, TickStage, A330};
use a330_systems::ids::{Category, InitContext, StableId};
use a330_systems::schedule::{phase_one_steps, phase_two_steps, Phase, Step};
use a330_systems::snapshot::{
    APU_BLEED_ON, APU_BLEED_VALVE_OPEN, APU_GENERATOR_ON, EXTERNAL_POWER_AVAILABLE,
    EXTERNAL_POWER_ON, EXTERNAL_POWER_POWERED, LEFT_INNER_TANK_HAS_FUEL,
};
use a330_systems::traversal::{Reading, Visitor};

fn aircraft() -> A330 {
    let mut context = InitContext::new();
    A330::new(&mut context).unwrap()
}

fn write(aircraft: &mut A330, values: Vec<Reading>) {
    let mut writer = Visitor::writer(values);
    aircraft.accept(&mut writer);
}

fn single(category: Category, value: u64) -> Reading {
    Reading { id: StableId::single(category), value }
}

fn all_steps() -> Vec<Step> {
    let mut steps = phase_one_steps();
    steps.extend(phase_two_steps());
    steps
}

#[test]
fn a_tick_runs_the_fixed_order() {
    let mut a = aircraft();
    let mut electricity = Electricity::new();
    a.update_before_power_distribution(&mut electricity);
    assert_eq!(a.calls(), &phase_one_steps());
    assert_eq!(a.stage(), TickStage::PowerDistributionPending);
    a.update_after_power_distribution();
    assert_eq!(a.calls(), &all_steps());
    assert_eq!(a.stage(), TickStage::Settled);
    assert_eq!(a.calls().len(), 22);
    assert_eq!(a.calls()[0], Step::ApuBeforeElectrical);
    assert_eq!(a.calls()[1], Step::Electrical);
    assert_eq!(a.calls()[21], Step::GroundProximityWarning);
}

#[test]
fn recorded_order_puts_producers_first_on_every_tick() {
    let mut a = aircraft();
    let mut electricity = Electricity::new();
    for _ in 0..3 {
        a.update_before_power_distribution(&mut electricity);
        a.update_after_power_distribution();
        let calls = a.calls().clone();
        assert_eq!(calls, all_steps());
        for (r, reader) in calls.iter().enumerate() {
            for (p, producer) in calls.iter().enumerate() {
                if reader.consumes(*producer) {
                    assert_eq!(!reader.carries_over(*producer), p < r);
                }
            }
        }
    }
}

#[test]
fn phases_are_labelled() {
    for s in phase_one_steps() {
        assert_eq!(s.phase(), Phase::BeforePowerDistribution);
    }
    for s in phase_two_steps() {
        assert_eq!(s.phase(), Phase::AfterPowerDistribution);
    }
}

#[test]
fn known_dependencies() {
    assert!(Step::Airframe.consumes(Step::Payload));
    assert!(!Step::Airframe.carries_over(Step::Payload));
    assert!(Step::ApuBeforeElectrical.consumes(Step::Pneumatic));
    assert!(Step::ApuBeforeElectrical.carries_over(Step::Pneumatic));
    assert!(Step::AirConditioning.consumes(Step::AirConditioningPackMixing));
    assert!(!Step::Payload.consumes(Step::Airframe));
}

#[test]
fn phase_two_alone_starts_a_new_log() {
    let mut a = aircraft();
    a.update_after_power_distribution();
    assert_eq!(a.calls(), &phase_two_steps());
    a.update_after_power_distribution();
    assert_eq!(a.calls(), &phase_two_steps());
}

#[test]
fn phase_one_publishes_the_network_to_the_ledger() {
    let mut a = aircraft();
    write(&mut a, vec![single(Category::Electrical, 0x2a)]);
    let mut electricity = Electricity::new();
    assert_eq!(electricity.network, 0);
    a.update_before_power_distribution(&mut electricity);
    assert_eq!(electricity.network, 0x2a);
}

#[test]
fn phase_two_leaves_the_ledger_unchanged() {
    let mut a = aircraft();
    write(&mut a, vec![single(Category::Electrical, 9)]);
    let mut electricity = Electricity::new();
    a.update_before_power_distribution(&mut electricity);
    let before = electricity;
    a.update_after_power_distribution();
    assert_eq!(electricity, before);
}

#[test]
fn external_power_takes_precedence_over_apu_generator() {
    let mut a = aircraft();
    write(
        &mut a,
        vec![single(
            Category::ElectricalOverhead,
            APU_GENERATOR_ON | EXTERNAL_POWER_ON | EXTERNAL_POWER_AVAILABLE,
        )],
    );
    let mut electricity = Electricity::new();
    a.update_before_power_distribution(&mut electricity);
    assert!(!a.apu_inputs().generator_available);
}

#[test]
fn apu_generator_in_use_without_available_external_power() {
    let mut a = aircraft();
    write(
        &mut a,
        vec![single(Category::ElectricalOverhead, APU_GENERATOR_ON | EXTERNAL_POWER_ON)],
    );
    let mut electricity = Electricity::new();
    a.update_before_power_distribution(&mut electricity);
    assert!(a.apu_inputs().generator_available);
}

#[test]
fn apu_generator_off_stays_off() {
    let mut a = aircraft();
    write(&mut a, vec![single(Category::ElectricalOverhead, EXTERNAL_POWER_AVAILABLE)]);
    let mut electricity = Electricity::new();
    a.update_before_power_distribution(&mut electricity);
    assert!(!a.apu_inputs().generator_available);
}

#[test]
fn empty_left_inner_tank_means_no_apu_fuel() {
    let mut a = aircraft();
    write(&mut a, vec![single(Category::Fuel, 0)]);
    let mut electricity = Electricity::new();
    a.update_before_power_distribution(&mut electricity);
    assert!(!a.apu_inputs().fuel_available);

    write(&mut a, vec![single(Category::Fuel, LEFT_INNER_TANK_HAS_FUEL)]);
    a.update_before_power_distribution(&mut electricity);
    assert!(a.apu_inputs().fuel_available);
}

#[test]
fn apu_inputs_carry_bleed_and_panels() {
    let mut a = aircraft();
    write(
        &mut a,
        vec![
            single(Category::PneumaticOverhead, APU_BLEED_ON),
            single(Category::Pneumatic, APU_BLEED_VALVE_OPEN),
            single(Category::AuxiliaryPowerUnitOverhead, 5),
            single(Category::AuxiliaryPowerUnitFireOverhead, 6),
        ],
    );
    let mut electricity = Electricity::new();
    a.update_before_power_distribution(&mut electricity);
    let inputs = a.apu_inputs();
    assert!(inputs.apu_bleed_switch_on);
    assert!(inputs.bleed_valve_open);
    assert_eq!(inputs.apu_overhead, 5);
    assert_eq!(inputs.apu_fire_overhead, 6);
    assert!(!inputs.fuel_available);
}

#[test]
fn gear_units_learn_of_powered_external_power() {
    let mut a = aircraft();
    assert!(!a.lgciu_external_power());
    write(
        &mut a,
        vec![Reading {
            id: StableId::indexed(Category::ExternalPowerSource, 1),
            value: EXTERNAL_POWER_POWERED,
        }],
    );
    let mut electricity = Electricity::new();
    a.update_before_power_distribution(&mut electricity);
    assert!(!a.lgciu_external_power());
    a.update_after_power_distribution();
    assert!(a.lgciu_external_power());
}

fn given_ids(a: &A330, k: usize) -> Vec<StableId> {
    a.given()[k].iter().map(|e| e.id).collect()
}

#[test]
fn each_call_records_what_it_was_given() {
    let mut a = aircraft();
    write(
        &mut a,
        vec![
            single(Category::Hydraulic, 77),
            single(Category::Payload, 12),
            single(Category::Fuel, LEFT_INNER_TANK_HAS_FUEL),
        ],
    );
    let mut electricity = Electricity::new();
    a.update_before_power_distribution(&mut electricity);
    a.update_after_power_distribution();
    assert_eq!(a.given().len(), 22);

    let engine_1 = StableId::indexed(Category::Engine, 1);
    let engine_2 = StableId::indexed(Category::Engine, 2);
    let lgcius = StableId::single(Category::LandingGearControlInterfaceUnits);
    // Airframe: fuel and payload.
    assert_eq!(
        given_ids(&a, 5),
        vec![StableId::single(Category::Fuel), StableId::single(Category::Payload)]
    );
    assert_eq!(a.given()[5][1].value, 12);
    // Electrical network: ten components, the APU among them.
    assert_eq!(given_ids(&a, 1).len(), 10);
    assert_eq!(given_ids(&a, 1)[3], StableId::indexed(Category::AuxiliaryPowerUnit, 1));
    assert_eq!(given_ids(&a, 1)[9], lgcius);
    // APU after power distribution: engines and control units.
    assert_eq!(given_ids(&a, 6), vec![engine_1, engine_2, lgcius]);
    // Landing gear control units: gear, hydraulics, external power.
    assert_eq!(
        given_ids(&a, 9),
        vec![
            StableId::single(Category::LandingGear),
            StableId::single(Category::Hydraulic),
            StableId::indexed(Category::ExternalPowerSource, 1),
        ]
    );
    // Reverse thrust: engines and hydraulics, as this tick left them.
    assert_eq!(
        given_ids(&a, 12),
        vec![engine_1, engine_2, StableId::single(Category::Hydraulic)]
    );
    assert_eq!(a.given()[12][2].value, 77);
    // Reservoir volumes: hydraulics.
    assert_eq!(given_ids(&a, 13), vec![StableId::single(Category::Hydraulic)]);
    // Pack mixing: pneumatics; air conditioning: eight components.
    assert_eq!(given_ids(&a, 19), vec![StableId::single(Category::Pneumatic)]);
    assert_eq!(given_ids(&a, 20).len(), 8);
    assert_eq!(given_ids(&a, 20)[4], StableId::single(Category::Payload));
    // Steps given nothing.
    assert!(a.given()[4].is_empty());
    assert!(a.given()[17].is_empty());
}

#[test]
fn electrical_and_refresh_get_this_tick_values() {
    let mut a = aircraft();
    write(
        &mut a,
        vec![
            single(Category::ElectricalOverhead, APU_GENERATOR_ON),
            single(Category::Electrical, 31),
        ],
    );
    let mut electricity = Electricity::new();
    a.update_before_power_distribution(&mut electricity);
    assert!(a.electrical_apu_inputs().generator_available);
    assert_eq!(a.electrical_apu_inputs(), a.apu_inputs());
    assert_eq!(a.refresh_network(), 31);
    assert_eq!(a.given()[2][0].id, StableId::single(Category::Electrical));
    assert_eq!(a.given()[2][0].value, 31);
}

#[test]
fn feedback_inputs_are_carried_over() {
    assert!(Step::Electrical.consumes(Step::ApuAfterPowerDistribution));
    assert!(Step::Electrical.carries_over(Step::ApuAfterPowerDistribution));
    assert!(Step::Pneumatic.consumes(Step::AirConditioningPackMixing));
    assert!(Step::Pneumatic.carries_over(Step::AirConditioningPackMixing));
}
