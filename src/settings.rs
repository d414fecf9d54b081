use vstd::prelude::*;

verus! {

/// The electrical buses that power the aircraft's computers and motors.
#[derive(Clone, Copy, Debug, PartialEq, Eq, Structural)]
pub enum ElectricalBus {
    /// The bus dedicated to the APU start motor.
    ApuStartMotor,
    DirectCurrentBattery,
    DirectCurrentEssential,
    DirectCurrentGndFltService,
    DirectCurrent(u8),
}

/// The auxiliary power unit models the aircraft can carry.
#[derive(Clone, Copy, Debug, PartialEq, Eq, Structural)]
pub enum ApuKind {
    Aps3200,
}

/// How the APU is built: its model, its index and the buses of its start
/// motor, electronic control box and air intake flap.
#[derive(Clone, Copy, Debug, PartialEq, Eq, Structural)]
pub struct ApuSettings {
    pub kind: ApuKind,
    pub index: u8,
    pub start_motor_bus: ElectricalBus,
    pub electronic_control_box_bus: ElectricalBus,
    pub air_intake_flap_bus: ElectricalBus,
}

/// The buses of the two landing gear control interface units.
#[derive(Clone, Copy, Debug, PartialEq, Eq, Structural)]
pub struct LandingGearControlSettings {
    pub lgciu1_bus: ElectricalBus,
    pub lgciu2_bus: ElectricalBus,
}

/// How the ground proximity warning computer is built: its bus, the
/// terrain display ranges in whole nautical miles, and the range it starts
/// on, as an index into them.
#[derive(Clone, Debug)]
pub struct GroundProximitySettings {
    pub bus: ElectricalBus,
    pub ranges_nm: Vec<u64>,
    pub initial_range_index: usize,
}

/// The aircraft's APU: an APS3200, number 1, whose start motor has its own
/// bus and whose control box and intake flap run on the battery bus.
pub open spec fn aircraft_apu_settings() -> ApuSettings {
    ApuSettings {
        kind: ApuKind::Aps3200,
        index: 1,
        start_motor_bus: ElectricalBus::ApuStartMotor,
        electronic_control_box_bus: ElectricalBus::DirectCurrentBattery,
        air_intake_flap_bus: ElectricalBus::DirectCurrentBattery,
    }
}

/// The aircraft's landing gear control units: the first on the essential
/// DC bus, the second on the ground/flight service DC bus.
pub open spec fn aircraft_lgciu_settings() -> LandingGearControlSettings {
    LandingGearControlSettings {
        lgciu1_bus: ElectricalBus::DirectCurrentEssential,
        lgciu2_bus: ElectricalBus::DirectCurrentGndFltService,
    }
}

/// The ranges, in whole nautical miles, among which the ground proximity
/// warning computer's terrain display is switched.
pub open spec fn terrain_display_ranges_nm() -> Seq<u64> {
    seq![10, 20, 40, 80, 160, 320]
}

pub fn apu_settings() -> (r: ApuSettings)
    ensures
        r == aircraft_apu_settings(),
{
    ApuSettings {
        kind: ApuKind::Aps3200,
        index: 1,
        start_motor_bus: ElectricalBus::ApuStartMotor,
        electronic_control_box_bus: ElectricalBus::DirectCurrentBattery,
        air_intake_flap_bus: ElectricalBus::DirectCurrentBattery,
    }
}

pub fn lgciu_settings() -> (r: LandingGearControlSettings)
    ensures
        r == aircraft_lgciu_settings(),
{
    LandingGearControlSettings {
        lgciu1_bus: ElectricalBus::DirectCurrentEssential,
        lgciu2_bus: ElectricalBus::DirectCurrentGndFltService,
    }
}

pub fn terrain_display_ranges() -> (r: Vec<u64>)
    ensures
        r@ == terrain_display_ranges_nm(),
{
    let r: Vec<u64> = vec![10, 20, 40, 80, 160, 320];
    assert(r@ =~= terrain_display_ranges_nm());
    r
}

/// The aircraft's ground proximity warning computer: on DC bus 1, with the
/// terrain display ranges, starting on the first.
pub fn ground_proximity_settings() -> (r: GroundProximitySettings)
    ensures
        r.bus == ElectricalBus::DirectCurrent(1),
        r.ranges_nm@ == terrain_display_ranges_nm(),
        r.initial_range_index == 0,
{
    GroundProximitySettings {
        bus: ElectricalBus::DirectCurrent(1),
        ranges_nm: terrain_display_ranges(),
        initial_range_index: 0,
    }
}

} // verus!
