use vstd::prelude::*;

use crate::ids::{Category, IdentifierCollision, InitContext, StableId};
use crate::schedule::{
    lemma_phase_log, needs_this_tick, phase_of, phase_one_order, phase_one_steps,
    phase_two_order, phase_two_steps, tick_order, Step,
};
use crate::settings::{
    aircraft_apu_settings, aircraft_lgciu_settings, apu_settings, ground_proximity_settings,
    lgciu_settings, terrain_display_ranges_nm, ApuSettings, ElectricalBus,
    GroundProximitySettings, LandingGearControlSettings,
};
use crate::snapshot::{
    apu_inputs_of, flag, has_flag, ApuElectricalInputs, EXTERNAL_POWER_POWERED,
};
use crate::traversal::{readings_of, visit_all, Element, Reading, Visitor};

verus! {

/// The identifiers of the components that the aircraft owns, in the order
/// in which it registers and visits them.
pub open spec fn component_ids() -> Seq<StableId> {
    seq![
        StableId { category: Category::AirDataInertialReferenceSystem, index: 0 },
        StableId { category: Category::AirDataInertialReferenceSystemOverhead, index: 0 },
        StableId { category: Category::AirConditioning, index: 0 },
        StableId { category: Category::AuxiliaryPowerUnit, index: 1 },
        StableId { category: Category::AirStarterUnit, index: 0 },
        StableId { category: Category::AuxiliaryPowerUnitFireOverhead, index: 0 },
        StableId { category: Category::AuxiliaryPowerUnitOverhead, index: 0 },
        StableId { category: Category::Payload, index: 0 },
        StableId { category: Category::Airframe, index: 0 },
        StableId { category: Category::ElectricalOverhead, index: 0 },
        StableId { category: Category::EmergencyElectricalOverhead, index: 0 },
        StableId { category: Category::Fuel, index: 0 },
        StableId { category: Category::PneumaticOverhead, index: 0 },
        StableId { category: Category::PressurizationOverhead, index: 0 },
        StableId { category: Category::Engine, index: 1 },
        StableId { category: Category::Engine, index: 2 },
        StableId { category: Category::EngineFireOverhead, index: 0 },
        StableId { category: Category::Electrical, index: 0 },
        StableId { category: Category::PowerConsumption, index: 0 },
        StableId { category: Category::ExternalPowerSource, index: 1 },
        StableId { category: Category::LandingGearControlInterfaceUnits, index: 0 },
        StableId { category: Category::RadioAltimeters, index: 0 },
        StableId { category: Category::AutobrakePanel, index: 0 },
        StableId { category: Category::Hydraulic, index: 0 },
        StableId { category: Category::HydraulicOverhead, index: 0 },
        StableId { category: Category::LandingGear, index: 0 },
        StableId { category: Category::Pneumatic, index: 0 },
        StableId { category: Category::GroundProximityWarningComputer, index: 0 },
        StableId { category: Category::ReverseThrust, index: 0 },
    ]
}

/// Where the component named `id` stands in `component_ids`.
pub open spec fn slot(id: StableId) -> int {
    match id.category {
        Category::AirDataInertialReferenceSystem => 0,
        Category::AirDataInertialReferenceSystemOverhead => 1,
        Category::AirConditioning => 2,
        Category::AuxiliaryPowerUnit => 3,
        Category::AirStarterUnit => 4,
        Category::AuxiliaryPowerUnitFireOverhead => 5,
        Category::AuxiliaryPowerUnitOverhead => 6,
        Category::Payload => 7,
        Category::Airframe => 8,
        Category::ElectricalOverhead => 9,
        Category::EmergencyElectricalOverhead => 10,
        Category::Fuel => 11,
        Category::PneumaticOverhead => 12,
        Category::PressurizationOverhead => 13,
        Category::Engine => if id.index == 1 { 14 } else { 15 },
        Category::EngineFireOverhead => 16,
        Category::Electrical => 17,
        Category::PowerConsumption => 18,
        Category::ExternalPowerSource => 19,
        Category::LandingGearControlInterfaceUnits => 20,
        Category::RadioAltimeters => 21,
        Category::AutobrakePanel => 22,
        Category::Hydraulic => 23,
        Category::HydraulicOverhead => 24,
        Category::LandingGear => 25,
        Category::Pneumatic => 26,
        Category::GroundProximityWarningComputer => 27,
        Category::ReverseThrust => 28,
    }
}

/// The state word of the component named `id`.
pub open spec fn value_of(elements: Seq<Element>, id: StableId) -> u64 {
    elements[slot(id)].value
}

/// The component of `category` of which the aircraft has one.
pub open spec fn single(category: Category) -> StableId {
    StableId { category, index: 0 }
}

/// Each of the aircraft's identifiers stands at its slot, and none twice.
pub proof fn lemma_component_ids_distinct()
    ensures
        component_ids().len() == 29,
        forall|i: int| 0 <= i < 29 ==> slot(#[trigger] component_ids()[i]) == i,
        component_ids().no_duplicates(),
{
    let ids = component_ids();
    assert forall|i: int| 0 <= i < 29 implies slot(#[trigger] ids[i]) == i by {
    }
    assert forall|i: int, j: int| 0 <= i < ids.len() && 0 <= j < ids.len() && i != j implies ids[i]
        != ids[j] by {
        assert(slot(ids[i]) == i);
        assert(slot(ids[j]) == j);
    }
}

fn component_id_list() -> (r: Vec<StableId>)
    ensures
        r@ == component_ids(),
{
    let r = vec![
        StableId { category: Category::AirDataInertialReferenceSystem, index: 0 },
        StableId { category: Category::AirDataInertialReferenceSystemOverhead, index: 0 },
        StableId { category: Category::AirConditioning, index: 0 },
        StableId { category: Category::AuxiliaryPowerUnit, index: 1 },
        StableId { category: Category::AirStarterUnit, index: 0 },
        StableId { category: Category::AuxiliaryPowerUnitFireOverhead, index: 0 },
        StableId { category: Category::AuxiliaryPowerUnitOverhead, index: 0 },
        StableId { category: Category::Payload, index: 0 },
        StableId { category: Category::Airframe, index: 0 },
        StableId { category: Category::ElectricalOverhead, index: 0 },
        StableId { category: Category::EmergencyElectricalOverhead, index: 0 },
        StableId { category: Category::Fuel, index: 0 },
        StableId { category: Category::PneumaticOverhead, index: 0 },
        StableId { category: Category::PressurizationOverhead, index: 0 },
        StableId { category: Category::Engine, index: 1 },
        StableId { category: Category::Engine, index: 2 },
        StableId { category: Category::EngineFireOverhead, index: 0 },
        StableId { category: Category::Electrical, index: 0 },
        StableId { category: Category::PowerConsumption, index: 0 },
        StableId { category: Category::ExternalPowerSource, index: 1 },
        StableId { category: Category::LandingGearControlInterfaceUnits, index: 0 },
        StableId { category: Category::RadioAltimeters, index: 0 },
        StableId { category: Category::AutobrakePanel, index: 0 },
        StableId { category: Category::Hydraulic, index: 0 },
        StableId { category: Category::HydraulicOverhead, index: 0 },
        StableId { category: Category::LandingGear, index: 0 },
        StableId { category: Category::Pneumatic, index: 0 },
        StableId { category: Category::GroundProximityWarningComputer, index: 0 },
        StableId { category: Category::ReverseThrust, index: 0 },
    ];
    assert(r@ =~= component_ids());
    r
}

/// The components that a step's update call is given, in argument order.
pub open spec fn given_components(step: Step) -> Seq<StableId> {
    match step {
        Step::ApuBeforeElectrical => seq![
            StableId { category: Category::AuxiliaryPowerUnitOverhead, index: 0 },
            StableId { category: Category::AuxiliaryPowerUnitFireOverhead, index: 0 },
            StableId { category: Category::PneumaticOverhead, index: 0 },
            StableId { category: Category::ElectricalOverhead, index: 0 },
            StableId { category: Category::Pneumatic, index: 0 },
            StableId { category: Category::Fuel, index: 0 },
        ],
        Step::Electrical => seq![
            StableId { category: Category::ExternalPowerSource, index: 1 },
            StableId { category: Category::ElectricalOverhead, index: 0 },
            StableId { category: Category::EmergencyElectricalOverhead, index: 0 },
            StableId { category: Category::AuxiliaryPowerUnit, index: 1 },
            StableId { category: Category::AuxiliaryPowerUnitOverhead, index: 0 },
            StableId { category: Category::EngineFireOverhead, index: 0 },
            StableId { category: Category::Engine, index: 1 },
            StableId { category: Category::Engine, index: 2 },
            StableId { category: Category::Hydraulic, index: 0 },
            StableId { category: Category::LandingGearControlInterfaceUnits, index: 0 },
        ],
        Step::ElectricalOverheadRefresh => seq![
            StableId { category: Category::Electrical, index: 0 },
        ],
        Step::EmergencyElectricalOverheadRefresh => seq![
            StableId { category: Category::Electrical, index: 0 },
        ],
        Step::Payload => Seq::<StableId>::empty(),
        Step::Airframe => seq![
            StableId { category: Category::Fuel, index: 0 },
            StableId { category: Category::Payload, index: 0 },
        ],
        Step::ApuAfterPowerDistribution => seq![
            StableId { category: Category::Engine, index: 1 },
            StableId { category: Category::Engine, index: 2 },
            StableId { category: Category::LandingGearControlInterfaceUnits, index: 0 },
        ],
        Step::ApuOverheadRefresh => seq![
            StableId { category: Category::AuxiliaryPowerUnit, index: 1 },
        ],
        Step::AirStarterUnit => Seq::<StableId>::empty(),
        Step::LandingGearControlUnits => seq![
            StableId { category: Category::LandingGear, index: 0 },
            StableId { category: Category::Hydraulic, index: 0 },
            StableId { category: Category::ExternalPowerSource, index: 1 },
        ],
        Step::RadioAltimeters => Seq::<StableId>::empty(),
        Step::Hydraulic => seq![
            StableId { category: Category::Engine, index: 1 },
            StableId { category: Category::Engine, index: 2 },
            StableId { category: Category::HydraulicOverhead, index: 0 },
            StableId { category: Category::AutobrakePanel, index: 0 },
            StableId { category: Category::EngineFireOverhead, index: 0 },
            StableId { category: Category::LandingGearControlInterfaceUnits, index: 0 },
            StableId { category: Category::EmergencyElectricalOverhead, index: 0 },
            StableId { category: Category::Electrical, index: 0 },
            StableId { category: Category::Pneumatic, index: 0 },
            StableId { category: Category::AirDataInertialReferenceSystem, index: 0 },
        ],
        Step::ReverseThrust => seq![
            StableId { category: Category::Engine, index: 1 },
            StableId { category: Category::Engine, index: 2 },
            StableId { category: Category::Hydraulic, index: 0 },
        ],
        Step::PneumaticReservoirVolumes => seq![
            StableId { category: Category::Hydraulic, index: 0 },
        ],
        Step::HydraulicOverheadRefresh => seq![
            StableId { category: Category::Hydraulic, index: 0 },
        ],
        Step::AirDataInertialReference => seq![
            StableId { category: Category::AirDataInertialReferenceSystemOverhead, index: 0 },
        ],
        Step::AirDataInertialReferenceOverheadRefresh => seq![
            StableId { category: Category::AirDataInertialReferenceSystem, index: 0 },
        ],
        Step::PowerConsumption => Seq::<StableId>::empty(),
        Step::Pneumatic => seq![
            StableId { category: Category::Engine, index: 1 },
            StableId { category: Category::Engine, index: 2 },
            StableId { category: Category::PneumaticOverhead, index: 0 },
            StableId { category: Category::EngineFireOverhead, index: 0 },
            StableId { category: Category::AuxiliaryPowerUnit, index: 1 },
            StableId { category: Category::AirStarterUnit, index: 0 },
            StableId { category: Category::AirConditioning, index: 0 },
            StableId { category: Category::LandingGearControlInterfaceUnits, index: 0 },
        ],
        Step::AirConditioningPackMixing => seq![
            StableId { category: Category::Pneumatic, index: 0 },
        ],
        Step::AirConditioning => seq![
            StableId { category: Category::AirDataInertialReferenceSystem, index: 0 },
            StableId { category: Category::Engine, index: 1 },
            StableId { category: Category::Engine, index: 2 },
            StableId { category: Category::EngineFireOverhead, index: 0 },
            StableId { category: Category::Payload, index: 0 },
            StableId { category: Category::Pneumatic, index: 0 },
            StableId { category: Category::PressurizationOverhead, index: 0 },
            StableId { category: Category::LandingGearControlInterfaceUnits, index: 0 },
        ],
        Step::GroundProximityWarning => seq![
            StableId { category: Category::AirDataInertialReferenceSystem, index: 0 },
            StableId { category: Category::LandingGearControlInterfaceUnits, index: 0 },
        ],
    }
}

/// The state words that a step's update call is given, read from `elements`.
pub open spec fn given_by(elements: Seq<Element>, step: Step) -> Seq<Element> {
    given_components(step).map_values(|id: StableId| elements[slot(id)])
}

/// What each step of `steps` is given, read from `elements`.
pub open spec fn given_in_order(elements: Seq<Element>, steps: Seq<Step>) -> Seq<Seq<Element>> {
    steps.map_values(|s: Step| given_by(elements, s))
}

/// Where the aircraft stands within a tick.
#[derive(Clone, Copy, Debug, PartialEq, Eq, Structural)]
pub enum TickStage {
    /// No tick has been started since the aircraft was built.
    Idle,
    /// The phase before the distribution solve has run; the other has not.
    PowerDistributionPending,
    /// The phase after the distribution solve has run.
    Settled,
}

/// The electrical network's ledger: the network state that the electrical
/// system publishes before the host's distribution solve and that every
/// consumer reads after it.
#[derive(Clone, Copy, Debug, PartialEq, Eq, Structural)]
pub struct Electricity {
    pub network: u64,
}

impl Electricity {
    pub fn new() -> (r: Electricity)
        ensures
            r.network == 0,
    {
        Electricity { network: 0 }
    }
}

/// The update calls made so far in the current tick, in order, each with
/// the state words it was given.
struct TickLog {
    calls: Vec<Step>,
    given: Vec<Vec<Element>>,
}

impl TickLog {
    closed spec fn given_view(&self) -> Seq<Seq<Element>> {
        self.given@.map_values(|v: Vec<Element>| v@)
    }

    fn restart(&mut self)
        ensures
            final(self).calls@ == Seq::<Step>::empty(),
            final(self).given_view() == Seq::<Seq<Element>>::empty(),
    {
        self.calls.clear();
        self.given.clear();
        assert(self.given_view() =~= Seq::<Seq<Element>>::empty());
    }

    /// Records `step`, which runs once a tick and only after the steps of
    /// its own phase whose output it needs this tick.
    fn record(&mut self, step: Step, given: Vec<Element>)
        requires
            !old(self).calls@.contains(step),
            forall|p: Step|
                needs_this_tick(step, p) && phase_of(p) == phase_of(step) ==> old(
                    self,
                ).calls@.contains(p),
        ensures
            final(self).calls@ == old(self).calls@.push(step),
            final(self).given_view() == old(self).given_view().push(given@),
    {
        self.calls.push(step);
        self.given.push(given);
        assert(self.given_view() =~= old(self).given_view().push(given@));
    }
}

/// What an aircraft is, to its contracts.
pub ghost struct AircraftView {
    /// The state words of the owned components, in `component_ids` order.
    pub elements: Seq<Element>,
    /// The update calls of the current tick, in order.
    pub calls: Seq<Step>,
    /// For each of `calls`, the state words its update was given.
    pub given: Seq<Seq<Element>>,
    pub stage: TickStage,
    /// What the APU was given by its last update before the electrical
    /// network.
    pub apu_inputs: ApuElectricalInputs,
    /// The APU snapshot that the electrical network's last update was given.
    pub electrical_apu: ApuElectricalInputs,
    /// The ledger's network state that the electrical overhead panel's last
    /// refresh was given.
    pub refresh_network: u64,
    /// Whether the landing gear control units were last told that external
    /// power is powered.
    pub lgciu_external_power: bool,
    pub apu_settings: ApuSettings,
    pub lgciu_settings: LandingGearControlSettings,
    pub egpwc_bus: ElectricalBus,
    pub egpwc_ranges_nm: Seq<u64>,
    pub egpwc_initial_range_index: usize,
}

impl AircraftView {
    /// Two views of an aircraft built alike.
    pub open spec fn same_settings(self, other: AircraftView) -> bool {
        &&& self.apu_settings == other.apu_settings
        &&& self.lgciu_settings == other.lgciu_settings
        &&& self.egpwc_bus == other.egpwc_bus
        &&& self.egpwc_ranges_nm == other.egpwc_ranges_nm
        &&& self.egpwc_initial_range_index == other.egpwc_initial_range_index
    }
}

/// The composition root: it owns every subsystem and runs their updates
/// in a fixed order, in two phases around the host's electrical
/// distribution solve.
pub struct A330 {
    adirs: Element,
    adirs_overhead: Element,
    air_conditioning: Element,
    apu: Element,
    asu: Element,
    apu_fire_overhead: Element,
    apu_overhead: Element,
    payload: Element,
    airframe: Element,
    electrical_overhead: Element,
    emergency_electrical_overhead: Element,
    fuel: Element,
    pneumatic_overhead: Element,
    pressurization_overhead: Element,
    engine_1: Element,
    engine_2: Element,
    engine_fire_overhead: Element,
    electrical: Element,
    power_consumption: Element,
    ext_pwr: Element,
    lgcius: Element,
    radio_altimeters: Element,
    autobrake_panel: Element,
    hydraulic: Element,
    hydraulic_overhead: Element,
    landing_gear: Element,
    pneumatic: Element,
    egpwc: Element,
    reverse_thrust: Element,
    apu_settings: ApuSettings,
    lgciu_settings: LandingGearControlSettings,
    egpwc_settings: GroundProximitySettings,
    apu_inputs: ApuElectricalInputs,
    electrical_apu: ApuElectricalInputs,
    refresh_network: u64,
    lgciu_external_power: bool,
    log: TickLog,
    stage: TickStage,
}

impl View for A330 {
    type V = AircraftView;

    closed spec fn view(&self) -> AircraftView {
        AircraftView {
            elements: seq![
            self.adirs,
            self.adirs_overhead,
            self.air_conditioning,
            self.apu,
            self.asu,
            self.apu_fire_overhead,
            self.apu_overhead,
            self.payload,
            self.airframe,
            self.electrical_overhead,
            self.emergency_electrical_overhead,
            self.fuel,
            self.pneumatic_overhead,
            self.pressurization_overhead,
            self.engine_1,
            self.engine_2,
            self.engine_fire_overhead,
            self.electrical,
            self.power_consumption,
            self.ext_pwr,
            self.lgcius,
            self.radio_altimeters,
            self.autobrake_panel,
            self.hydraulic,
            self.hydraulic_overhead,
            self.landing_gear,
            self.pneumatic,
            self.egpwc,
            self.reverse_thrust
            ],
            calls: self.log.calls@,
            given: self.log.given_view(),
            stage: self.stage,
            apu_inputs: self.apu_inputs,
            electrical_apu: self.electrical_apu,
            refresh_network: self.refresh_network,
            lgciu_external_power: self.lgciu_external_power,
            apu_settings: self.apu_settings,
            lgciu_settings: self.lgciu_settings,
            egpwc_bus: self.egpwc_settings.bus,
            egpwc_ranges_nm: self.egpwc_settings.ranges_nm@,
            egpwc_initial_range_index: self.egpwc_settings.initial_range_index,
        }
    }
}

impl A330 {
    /// Every component carries its own identifier, each recorded call has
    /// its inputs, and a tick halfway through has recorded exactly the
    /// first phase.
    pub open spec fn wf(&self) -> bool {
        &&& self@.elements.map_values(|e: Element| e.id) == component_ids()
        &&& self@.given.len() == self@.calls.len()
        &&& self@.stage == TickStage::PowerDistributionPending ==> self@.calls
            == phase_one_order()
    }

    /// Builds every subsystem and registers its identifier. If one of them
    /// was registered before, construction stops there with a collision.
    pub fn new(context: &mut InitContext) -> (r: Result<A330, IdentifierCollision>)
        requires
            old(context).wf(),
        ensures
            final(context).wf(),
            r is Ok <==> forall|i: int|
                0 <= i < component_ids().len() ==> !old(context)@.contains(
                    #[trigger] component_ids()[i],
                ),
            r is Ok ==> final(context)@ == old(context)@ + component_ids(),
            r matches Ok(a) ==> {
                &&& a.wf()
                &&& a@.elements == component_ids().map_values(
                    |id: StableId| Element { id, value: 0 },
                )
                &&& a@.calls == Seq::<Step>::empty()
                &&& a@.stage == TickStage::Idle
                &&& a@.apu_inputs == apu_inputs_of(0, 0, 0, 0, 0, 0)
                &&& a@.electrical_apu == apu_inputs_of(0, 0, 0, 0, 0, 0)
                &&& a@.refresh_network == 0
                &&& !a@.lgciu_external_power
                &&& a@.apu_settings == aircraft_apu_settings()
                &&& a@.lgciu_settings == aircraft_lgciu_settings()
                &&& a@.egpwc_bus == ElectricalBus::DirectCurrent(1)
                &&& a@.egpwc_ranges_nm == terrain_display_ranges_nm()
                &&& a@.egpwc_initial_range_index == 0
            },
            r matches Err(e) ==> exists|k: int|
                0 <= k < component_ids().len() && old(context)@.contains(component_ids()[k])
                    && (forall|j: int|
                    0 <= j < k ==> !old(context)@.contains(#[trigger] component_ids()[j]))
                    && e.id == component_ids()[k] && final(context)@ == old(context)@
                    + component_ids().take(k),
    {
        proof {
            lemma_component_ids_distinct();
        }
        let ids = component_id_list();
        let mut i: usize = 0;
        assert(component_ids().take(0) =~= Seq::<StableId>::empty());
        assert(old(context)@ + Seq::<StableId>::empty() =~= old(context)@);
        while i < ids.len()
            invariant
                context.wf(),
                ids@ == component_ids(),
                0 <= i <= ids@.len(),
                ids@.no_duplicates(),
                context@ == old(context)@ + ids@.take(i as int),
                forall|j: int| 0 <= j < i ==> !old(context)@.contains(#[trigger] ids@[j]),
            decreases ids@.len() - i,
        {
            let id = ids[i];
            let ghost before = context@;
            match context.register(id) {
                Ok(()) => {
                    assert(!old(context)@.contains(id)) by {
                        if old(context)@.contains(id) {
                            let w = choose|w: int|
                                0 <= w < old(context)@.len() && old(context)@[w] == id;
                            assert(before[w] == id);
                        }
                    }
                    assert(ids@.take(i + 1) =~= ids@.take(i as int).push(id));
                    assert(context@ =~= old(context)@ + ids@.take(i + 1));
                },
                Err(e) => {
                    assert(old(context)@.contains(id)) by {
                        let w = choose|w: int| 0 <= w < before.len() && before[w] == id;
                        if w >= old(context)@.len() {
                            assert(ids@[w - old(context)@.len()] == id);
                        }
                    }
                    assert(exists|k: int|
                        0 <= k < component_ids().len() && old(context)@.contains(
                            component_ids()[k],
                        ) && (forall|j: int|
                            0 <= j < k ==> !old(context)@.contains(
                                #[trigger] component_ids()[j],
                            )) && e.id == component_ids()[k] && context@ == old(context)@
                            + component_ids().take(k)) by {
                        assert(e.id == component_ids()[i as int]);
                    }
                    return Err(e);
                },
            }
            i = i + 1;
        }
        assert(ids@.take(i as int) =~= ids@);
        let a = A330 {
            adirs: Element { id: StableId { category: Category::AirDataInertialReferenceSystem, index: 0 }, value: 0 },
            adirs_overhead: Element { id: StableId { category: Category::AirDataInertialReferenceSystemOverhead, index: 0 }, value: 0 },
            air_conditioning: Element { id: StableId { category: Category::AirConditioning, index: 0 }, value: 0 },
            apu: Element { id: StableId { category: Category::AuxiliaryPowerUnit, index: 1 }, value: 0 },
            asu: Element { id: StableId { category: Category::AirStarterUnit, index: 0 }, value: 0 },
            apu_fire_overhead: Element { id: StableId { category: Category::AuxiliaryPowerUnitFireOverhead, index: 0 }, value: 0 },
            apu_overhead: Element { id: StableId { category: Category::AuxiliaryPowerUnitOverhead, index: 0 }, value: 0 },
            payload: Element { id: StableId { category: Category::Payload, index: 0 }, value: 0 },
            airframe: Element { id: StableId { category: Category::Airframe, index: 0 }, value: 0 },
            electrical_overhead: Element { id: StableId { category: Category::ElectricalOverhead, index: 0 }, value: 0 },
            emergency_electrical_overhead: Element { id: StableId { category: Category::EmergencyElectricalOverhead, index: 0 }, value: 0 },
            fuel: Element { id: StableId { category: Category::Fuel, index: 0 }, value: 0 },
            pneumatic_overhead: Element { id: StableId { category: Category::PneumaticOverhead, index: 0 }, value: 0 },
            pressurization_overhead: Element { id: StableId { category: Category::PressurizationOverhead, index: 0 }, value: 0 },
            engine_1: Element { id: StableId { category: Category::Engine, index: 1 }, value: 0 },
            engine_2: Element { id: StableId { category: Category::Engine, index: 2 }, value: 0 },
            engine_fire_overhead: Element { id: StableId { category: Category::EngineFireOverhead, index: 0 }, value: 0 },
            electrical: Element { id: StableId { category: Category::Electrical, index: 0 }, value: 0 },
            power_consumption: Element { id: StableId { category: Category::PowerConsumption, index: 0 }, value: 0 },
            ext_pwr: Element { id: StableId { category: Category::ExternalPowerSource, index: 1 }, value: 0 },
            lgcius: Element { id: StableId { category: Category::LandingGearControlInterfaceUnits, index: 0 }, value: 0 },
            radio_altimeters: Element { id: StableId { category: Category::RadioAltimeters, index: 0 }, value: 0 },
            autobrake_panel: Element { id: StableId { category: Category::AutobrakePanel, index: 0 }, value: 0 },
            hydraulic: Element { id: StableId { category: Category::Hydraulic, index: 0 }, value: 0 },
            hydraulic_overhead: Element { id: StableId { category: Category::HydraulicOverhead, index: 0 }, value: 0 },
            landing_gear: Element { id: StableId { category: Category::LandingGear, index: 0 }, value: 0 },
            pneumatic: Element { id: StableId { category: Category::Pneumatic, index: 0 }, value: 0 },
            egpwc: Element { id: StableId { category: Category::GroundProximityWarningComputer, index: 0 }, value: 0 },
            reverse_thrust: Element { id: StableId { category: Category::ReverseThrust, index: 0 }, value: 0 },
            apu_settings: apu_settings(),
            lgciu_settings: lgciu_settings(),
            egpwc_settings: ground_proximity_settings(),
            apu_inputs: ApuElectricalInputs::idle(),
            electrical_apu: ApuElectricalInputs::idle(),
            refresh_network: 0,
            lgciu_external_power: false,
            log: TickLog { calls: Vec::new(), given: Vec::new() },
            stage: TickStage::Idle,
        };
        assert(a@.given =~= Seq::<Seq<Element>>::empty());
        assert(a@.elements.map_values(|e: Element| e.id) =~= component_ids());
        assert(a@.elements =~= component_ids().map_values(
            |id: StableId| Element { id, value: 0 },
        ));
        Ok(a)
    }

    /// The state words that `step`'s update call is given.
    fn given_for(&self, step: Step) -> (r: Vec<Element>)
        ensures
            r@ == given_by(self@.elements, step),
    {
        let r = match step {
            Step::ApuBeforeElectrical => vec![self.apu_overhead, self.apu_fire_overhead, self.pneumatic_overhead, self.electrical_overhead, self.pneumatic, self.fuel],
            Step::Electrical => vec![self.ext_pwr, self.electrical_overhead, self.emergency_electrical_overhead, self.apu, self.apu_overhead, self.engine_fire_overhead, self.engine_1, self.engine_2, self.hydraulic, self.lgcius],
            Step::ElectricalOverheadRefresh => vec![self.electrical],
            Step::EmergencyElectricalOverheadRefresh => vec![self.electrical],
            Step::Payload => Vec::new(),
            Step::Airframe => vec![self.fuel, self.payload],
            Step::ApuAfterPowerDistribution => vec![self.engine_1, self.engine_2, self.lgcius],
            Step::ApuOverheadRefresh => vec![self.apu],
            Step::AirStarterUnit => Vec::new(),
            Step::LandingGearControlUnits => vec![self.landing_gear, self.hydraulic, self.ext_pwr],
            Step::RadioAltimeters => Vec::new(),
            Step::Hydraulic => vec![self.engine_1, self.engine_2, self.hydraulic_overhead, self.autobrake_panel, self.engine_fire_overhead, self.lgcius, self.emergency_electrical_overhead, self.electrical, self.pneumatic, self.adirs],
            Step::ReverseThrust => vec![self.engine_1, self.engine_2, self.hydraulic],
            Step::PneumaticReservoirVolumes => vec![self.hydraulic],
            Step::HydraulicOverheadRefresh => vec![self.hydraulic],
            Step::AirDataInertialReference => vec![self.adirs_overhead],
            Step::AirDataInertialReferenceOverheadRefresh => vec![self.adirs],
            Step::PowerConsumption => Vec::new(),
            Step::Pneumatic => vec![self.engine_1, self.engine_2, self.pneumatic_overhead, self.engine_fire_overhead, self.apu, self.asu, self.air_conditioning, self.lgcius],
            Step::AirConditioningPackMixing => vec![self.pneumatic],
            Step::AirConditioning => vec![self.adirs, self.engine_1, self.engine_2, self.engine_fire_overhead, self.payload, self.pneumatic, self.pressurization_overhead, self.lgcius],
            Step::GroundProximityWarning => vec![self.adirs, self.lgcius],
        };
        assert(r@ =~= given_by(self@.elements, step));
        r
    }

    /// Runs one step of the phase before the distribution solve.
    fn run_phase_one_step(&mut self, step: Step, electricity: &mut Electricity)
        requires
            !old(self)@.calls.contains(step),
            forall|p: Step|
                needs_this_tick(step, p) && phase_of(p) == phase_of(step) ==> old(
                    self,
                )@.calls.contains(p),
        ensures
            final(self)@.calls == old(self)@.calls.push(step),
            final(self)@.given == old(self)@.given.push(given_by(old(self)@.elements, step)),
            final(self)@.elements == old(self)@.elements,
            final(self)@.same_settings(old(self)@),
            final(self)@.stage == old(self)@.stage,
            final(self)@.lgciu_external_power == old(self)@.lgciu_external_power,
            final(self)@.apu_inputs == if step == Step::ApuBeforeElectrical {
                apu_inputs_of(
                    value_of(old(self)@.elements, single(Category::AuxiliaryPowerUnitOverhead)),
                    value_of(
                        old(self)@.elements,
                        single(Category::AuxiliaryPowerUnitFireOverhead),
                    ),
                    value_of(old(self)@.elements, single(Category::PneumaticOverhead)),
                    value_of(old(self)@.elements, single(Category::ElectricalOverhead)),
                    value_of(old(self)@.elements, single(Category::Pneumatic)),
                    value_of(old(self)@.elements, single(Category::Fuel)),
                )
            } else {
                old(self)@.apu_inputs
            },
            final(self)@.electrical_apu == if step == Step::Electrical {
                old(self)@.apu_inputs
            } else {
                old(self)@.electrical_apu
            },
            final(electricity).network == if step == Step::Electrical {
                value_of(old(self)@.elements, single(Category::Electrical))
            } else {
                old(electricity).network
            },
            final(self)@.refresh_network == if step == Step::ElectricalOverheadRefresh {
                old(electricity).network
            } else {
                old(self)@.refresh_network
            },
    {
        let given = self.given_for(step);
        self.log.record(step, given);
        match step {
            Step::ApuBeforeElectrical => {
                self.apu_inputs = ApuElectricalInputs::from_state(
                    self.apu_overhead.value,
                    self.apu_fire_overhead.value,
                    self.pneumatic_overhead.value,
                    self.electrical_overhead.value,
                    self.pneumatic.value,
                    self.fuel.value,
                );
            },
            Step::Electrical => {
                self.electrical_apu = self.apu_inputs;
                electricity.network = self.electrical.value;
            },
            Step::ElectricalOverheadRefresh => {
                self.refresh_network = electricity.network;
            },
            _ => {},
        }
    }

    /// Runs one step of the phase after the distribution solve.
    fn run_phase_two_step(&mut self, step: Step)
        requires
            !old(self)@.calls.contains(step),
            forall|p: Step|
                needs_this_tick(step, p) && phase_of(p) == phase_of(step) ==> old(
                    self,
                )@.calls.contains(p),
        ensures
            final(self)@.calls == old(self)@.calls.push(step),
            final(self)@.given == old(self)@.given.push(given_by(old(self)@.elements, step)),
            final(self)@.elements == old(self)@.elements,
            final(self)@.same_settings(old(self)@),
            final(self)@.stage == old(self)@.stage,
            final(self)@.apu_inputs == old(self)@.apu_inputs,
            final(self)@.electrical_apu == old(self)@.electrical_apu,
            final(self)@.refresh_network == old(self)@.refresh_network,
            final(self)@.lgciu_external_power == if step == Step::LandingGearControlUnits {
                flag(
                    value_of(
                        old(self)@.elements,
                        StableId { category: Category::ExternalPowerSource, index: 1 },
                    ),
                    EXTERNAL_POWER_POWERED,
                )
            } else {
                old(self)@.lgciu_external_power
            },
    {
        let given = self.given_for(step);
        self.log.record(step, given);
        match step {
            Step::LandingGearControlUnits => {
                self.lgciu_external_power = has_flag(self.ext_pwr.value, EXTERNAL_POWER_POWERED);
            },
            _ => {},
        }
    }

    /// The phase before the distribution solve: the APU's update, the
    /// electrical network's update, which publishes to the ledger, the
    /// refresh of the electrical panels, the payload and the airframe.
    pub fn update_before_power_distribution(&mut self, electricity: &mut Electricity)
        requires
            old(self).wf(),
        ensures
            final(self).wf(),
            final(self)@.calls == phase_one_order(),
            final(self)@.given == given_in_order(old(self)@.elements, phase_one_order()),
            final(self)@.stage == TickStage::PowerDistributionPending,
            final(self)@.elements == old(self)@.elements,
            final(self)@.same_settings(old(self)@),
            final(self)@.apu_inputs == apu_inputs_of(
                value_of(old(self)@.elements, single(Category::AuxiliaryPowerUnitOverhead)),
                value_of(old(self)@.elements, single(Category::AuxiliaryPowerUnitFireOverhead)),
                value_of(old(self)@.elements, single(Category::PneumaticOverhead)),
                value_of(old(self)@.elements, single(Category::ElectricalOverhead)),
                value_of(old(self)@.elements, single(Category::Pneumatic)),
                value_of(old(self)@.elements, single(Category::Fuel)),
            ),
            final(self)@.electrical_apu == final(self)@.apu_inputs,
            final(self)@.lgciu_external_power == old(self)@.lgciu_external_power,
            final(electricity).network == value_of(
                old(self)@.elements,
                single(Category::Electrical),
            ),
            final(self)@.refresh_network == final(electricity).network,
    {
        self.log.restart();
        let steps = phase_one_steps();
        let ghost els = old(self)@.elements;
        let mut i: usize = 0;
        assert(steps@.take(0) =~= Seq::<Step>::empty());
        assert(given_in_order(els, steps@.take(0)) =~= Seq::<Seq<Element>>::empty());
        while i < steps.len()
            invariant
                steps@ == phase_one_order(),
                0 <= i <= steps@.len(),
                self@.calls == steps@.take(i as int),
                self@.given == given_in_order(els, steps@.take(i as int)),
                self@.elements == els,
                self@.same_settings(old(self)@),
                self@.stage == old(self)@.stage,
                self@.lgciu_external_power == old(self)@.lgciu_external_power,
                i > 0 ==> self@.apu_inputs == apu_inputs_of(
                    value_of(els, single(Category::AuxiliaryPowerUnitOverhead)),
                    value_of(els, single(Category::AuxiliaryPowerUnitFireOverhead)),
                    value_of(els, single(Category::PneumaticOverhead)),
                    value_of(els, single(Category::ElectricalOverhead)),
                    value_of(els, single(Category::Pneumatic)),
                    value_of(els, single(Category::Fuel)),
                ),
                i > 1 ==> self@.electrical_apu == self@.apu_inputs,
                i > 1 ==> electricity.network == value_of(els, single(Category::Electrical)),
                i > 2 ==> self@.refresh_network == electricity.network,
            decreases steps@.len() - i,
        {
            let step = steps[i];
            proof {
                lemma_phase_log(Seq::<Step>::empty(), phase_one_order(), i as int);
                assert(Seq::<Step>::empty() + steps@.take(i as int) =~= steps@.take(i as int));
            }
            self.run_phase_one_step(step, electricity);
            assert(steps@.take(i + 1) =~= steps@.take(i as int).push(step));
            assert(given_in_order(els, steps@.take(i + 1)) =~= given_in_order(
                els,
                steps@.take(i as int),
            ).push(given_by(els, step)));
            i = i + 1;
        }
        assert(steps@.take(i as int) =~= steps@);
        self.stage = TickStage::PowerDistributionPending;
    }

    /// The phase after the distribution solve, in its fixed order. If the
    /// first phase did not run since the last one of these, the tick log
    /// starts afresh and the first phase's outputs are the earlier ones.
    pub fn update_after_power_distribution(&mut self)
        requires
            old(self).wf(),
        ensures
            final(self).wf(),
            final(self)@.calls == (if old(self)@.stage == TickStage::PowerDistributionPending {
                phase_one_order()
            } else {
                Seq::<Step>::empty()
            }) + phase_two_order(),
            final(self)@.given == (if old(self)@.stage == TickStage::PowerDistributionPending {
                old(self)@.given
            } else {
                Seq::<Seq<Element>>::empty()
            }) + given_in_order(old(self)@.elements, phase_two_order()),
            old(self)@.stage == TickStage::PowerDistributionPending ==> final(self)@.calls
                == tick_order(),
            final(self)@.stage == TickStage::Settled,
            final(self)@.elements == old(self)@.elements,
            final(self)@.same_settings(old(self)@),
            final(self)@.apu_inputs == old(self)@.apu_inputs,
            final(self)@.electrical_apu == old(self)@.electrical_apu,
            final(self)@.refresh_network == old(self)@.refresh_network,
            final(self)@.lgciu_external_power == flag(
                value_of(
                    old(self)@.elements,
                    StableId { category: Category::ExternalPowerSource, index: 1 },
                ),
                EXTERNAL_POWER_POWERED,
            ),
    {
        match self.stage {
            TickStage::PowerDistributionPending => {},
            _ => {
                self.log.restart();
            },
        }
        let ghost start = self@.calls;
        let ghost given_start = self@.given;
        let ghost els = old(self)@.elements;
        assert(start == phase_one_order() || start == Seq::<Step>::empty());
        let steps = phase_two_steps();
        let mut i: usize = 0;
        assert(start + steps@.take(0) =~= start);
        assert(given_start + given_in_order(els, steps@.take(0)) =~= given_start);
        while i < steps.len()
            invariant
                steps@ == phase_two_order(),
                0 <= i <= steps@.len(),
                start == phase_one_order() || start == Seq::<Step>::empty(),
                start.len() == given_start.len(),
                self@.calls == start + steps@.take(i as int),
                self@.given == given_start + given_in_order(els, steps@.take(i as int)),
                self@.elements == els,
                self@.same_settings(old(self)@),
                self@.stage == old(self)@.stage,
                self@.apu_inputs == old(self)@.apu_inputs,
                self@.electrical_apu == old(self)@.electrical_apu,
                self@.refresh_network == old(self)@.refresh_network,
                i > 3 ==> self@.lgciu_external_power == flag(
                    value_of(els, StableId { category: Category::ExternalPowerSource, index: 1 }),
                    EXTERNAL_POWER_POWERED,
                ),
            decreases steps@.len() - i,
        {
            let step = steps[i];
            proof {
                lemma_phase_log(start, phase_two_order(), i as int);
            }
            self.run_phase_two_step(step);
            assert(steps@.take(i + 1) =~= steps@.take(i as int).push(step));
            assert(start + steps@.take(i + 1) =~= (start + steps@.take(i as int)).push(step));
            assert(given_start + given_in_order(els, steps@.take(i + 1)) =~= (given_start
                + given_in_order(els, steps@.take(i as int))).push(given_by(els, step)));
            i = i + 1;
        }
        assert(steps@.take(i as int) =~= steps@);
        self.stage = TickStage::Settled;
        assert(tick_order() =~= phase_one_order() + phase_two_order());
    }

    /// Visits every owned component once, in declared order: the visitor
    /// writes the values it holds for them and reads each one back. The
    /// aircraft holds no state word of its own, so its own visit is the
    /// completion signalled after all of them.
    pub fn accept(&mut self, visitor: &mut Visitor)
        requires
            old(self).wf(),
        ensures
            final(self).wf(),
            final(self)@.elements == visit_all(old(visitor).updates(), old(self)@.elements),
            final(self)@ == (AircraftView { elements: final(self)@.elements, ..old(self)@ }),
            final(visitor).updates() == old(visitor).updates(),
            final(visitor).visits() == old(visitor).visits() + readings_of(final(self)@.elements),
            final(visitor).completions() == old(visitor).completions().push(
                final(visitor).visits().len() as usize,
            ),
    {
        visitor.visit(&mut self.adirs);
        visitor.visit(&mut self.adirs_overhead);
        visitor.visit(&mut self.air_conditioning);
        visitor.visit(&mut self.apu);
        visitor.visit(&mut self.asu);
        visitor.visit(&mut self.apu_fire_overhead);
        visitor.visit(&mut self.apu_overhead);
        visitor.visit(&mut self.payload);
        visitor.visit(&mut self.airframe);
        visitor.visit(&mut self.electrical_overhead);
        visitor.visit(&mut self.emergency_electrical_overhead);
        visitor.visit(&mut self.fuel);
        visitor.visit(&mut self.pneumatic_overhead);
        visitor.visit(&mut self.pressurization_overhead);
        visitor.visit(&mut self.engine_1);
        visitor.visit(&mut self.engine_2);
        visitor.visit(&mut self.engine_fire_overhead);
        visitor.visit(&mut self.electrical);
        visitor.visit(&mut self.power_consumption);
        visitor.visit(&mut self.ext_pwr);
        visitor.visit(&mut self.lgcius);
        visitor.visit(&mut self.radio_altimeters);
        visitor.visit(&mut self.autobrake_panel);
        visitor.visit(&mut self.hydraulic);
        visitor.visit(&mut self.hydraulic_overhead);
        visitor.visit(&mut self.landing_gear);
        visitor.visit(&mut self.pneumatic);
        visitor.visit(&mut self.egpwc);
        visitor.visit(&mut self.reverse_thrust);
        visitor.complete();
        assert(self@.elements =~= visit_all(visitor.updates(), old(self)@.elements));
        assert(visitor.visits() =~= old(visitor).visits() + readings_of(self@.elements));
        assert(self@.elements.map_values(|e: Element| e.id) =~= old(self)@.elements.map_values(
            |e: Element| e.id,
        ));
    }

    /// The update calls of the current tick, in order.
    pub fn calls(&self) -> (r: &Vec<Step>)
        ensures
            r@ == self@.calls,
    {
        &self.log.calls
    }

    /// The state words that the update calls of the current tick were
    /// given, call by call.
    pub fn given(&self) -> (r: &Vec<Vec<Element>>)
        ensures
            r@.map_values(|v: Vec<Element>| v@) == self@.given,
    {
        &self.log.given
    }

    pub fn stage(&self) -> (r: TickStage)
        ensures
            r == self@.stage,
    {
        self.stage
    }

    /// What the APU was given by its last update before the electrical
    /// network.
    pub fn apu_inputs(&self) -> (r: ApuElectricalInputs)
        ensures
            r == self@.apu_inputs,
    {
        self.apu_inputs
    }

    /// The APU snapshot that the electrical network's last update was given.
    pub fn electrical_apu_inputs(&self) -> (r: ApuElectricalInputs)
        ensures
            r == self@.electrical_apu,
    {
        self.electrical_apu
    }

    /// The ledger's network state that the electrical overhead panel's last
    /// refresh was given.
    pub fn refresh_network(&self) -> (r: u64)
        ensures
            r == self@.refresh_network,
    {
        self.refresh_network
    }

    /// Whether the landing gear control units were last told that external
    /// power is powered.
    pub fn lgciu_external_power(&self) -> (r: bool)
        ensures
            r == self@.lgciu_external_power,
    {
        self.lgciu_external_power
    }

    pub fn apu_settings(&self) -> (r: ApuSettings)
        ensures
            r == self@.apu_settings,
    {
        self.apu_settings
    }

    pub fn lgciu_settings(&self) -> (r: LandingGearControlSettings)
        ensures
            r == self@.lgciu_settings,
    {
        self.lgciu_settings
    }

    pub fn ground_proximity_settings(&self) -> (r: &GroundProximitySettings)
        ensures
            r.bus == self@.egpwc_bus,
            r.ranges_nm@ == self@.egpwc_ranges_nm,
            r.initial_range_index == self@.egpwc_initial_range_index,
    {
        &self.egpwc_settings
    }
}

/// A traversal of a well-formed aircraft reads each of its identifiers
/// exactly once, in declared order, whatever the visitor writes.
pub proof fn lemma_traversal_visits_each_once(a: A330, updates: Seq<Reading>)
    requires
        a.wf(),
    ensures
        readings_of(visit_all(updates, a@.elements)).map_values(|r: Reading| r.id)
            == component_ids(),
        component_ids().no_duplicates(),
{
    lemma_component_ids_distinct();
    let ids = a@.elements.map_values(|e: Element| e.id);
    assert(readings_of(visit_all(updates, a@.elements)).map_values(|r: Reading| r.id) =~= ids);
}

} // verus!
