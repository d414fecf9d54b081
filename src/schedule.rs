use vstd::prelude::*;

verus! {

/// The two halves of a tick, on either side of the host's electrical
/// distribution solve.
#[derive(Clone, Copy, Debug, PartialEq, Eq, Structural)]
pub enum Phase {
    BeforePowerDistribution,
    AfterPowerDistribution,
}

/// One subsystem update call of a tick.
#[derive(Clone, Copy, Debug, PartialEq, Eq, Structural)]
pub enum Step {
    ApuBeforeElectrical,
    Electrical,
    ElectricalOverheadRefresh,
    EmergencyElectricalOverheadRefresh,
    Payload,
    Airframe,
    ApuAfterPowerDistribution,
    ApuOverheadRefresh,
    AirStarterUnit,
    LandingGearControlUnits,
    RadioAltimeters,
    Hydraulic,
    ReverseThrust,
    PneumaticReservoirVolumes,
    HydraulicOverheadRefresh,
    AirDataInertialReference,
    AirDataInertialReferenceOverheadRefresh,
    PowerConsumption,
    Pneumatic,
    AirConditioningPackMixing,
    AirConditioning,
    GroundProximityWarning,
}

/// The steps of the phase before the distribution solve, in order.
pub open spec fn phase_one_order() -> Seq<Step> {
    seq![
        Step::ApuBeforeElectrical,
        Step::Electrical,
        Step::ElectricalOverheadRefresh,
        Step::EmergencyElectricalOverheadRefresh,
        Step::Payload,
        Step::Airframe,
    ]
}

/// The steps of the phase after the distribution solve, in order.
pub open spec fn phase_two_order() -> Seq<Step> {
    seq![
        Step::ApuAfterPowerDistribution,
        Step::ApuOverheadRefresh,
        Step::AirStarterUnit,
        Step::LandingGearControlUnits,
        Step::RadioAltimeters,
        Step::Hydraulic,
        Step::ReverseThrust,
        Step::PneumaticReservoirVolumes,
        Step::HydraulicOverheadRefresh,
        Step::AirDataInertialReference,
        Step::AirDataInertialReferenceOverheadRefresh,
        Step::PowerConsumption,
        Step::Pneumatic,
        Step::AirConditioningPackMixing,
        Step::AirConditioning,
        Step::GroundProximityWarning,
    ]
}

/// All the steps of one tick, in order.
pub open spec fn tick_order() -> Seq<Step> {
    phase_one_order() + phase_two_order()
}

/// Where a step stands in `tick_order`.
pub open spec fn position(s: Step) -> int {
    match s {
        Step::ApuBeforeElectrical => 0,
        Step::Electrical => 1,
        Step::ElectricalOverheadRefresh => 2,
        Step::EmergencyElectricalOverheadRefresh => 3,
        Step::Payload => 4,
        Step::Airframe => 5,
        Step::ApuAfterPowerDistribution => 6,
        Step::ApuOverheadRefresh => 7,
        Step::AirStarterUnit => 8,
        Step::LandingGearControlUnits => 9,
        Step::RadioAltimeters => 10,
        Step::Hydraulic => 11,
        Step::ReverseThrust => 12,
        Step::PneumaticReservoirVolumes => 13,
        Step::HydraulicOverheadRefresh => 14,
        Step::AirDataInertialReference => 15,
        Step::AirDataInertialReferenceOverheadRefresh => 16,
        Step::PowerConsumption => 17,
        Step::Pneumatic => 18,
        Step::AirConditioningPackMixing => 19,
        Step::AirConditioning => 20,
        Step::GroundProximityWarning => 21,
    }
}

/// The phase in which a step runs.
pub open spec fn phase_of(s: Step) -> Phase {
    if position(s) < 6 {
        Phase::BeforePowerDistribution
    } else {
        Phase::AfterPowerDistribution
    }
}

/// `reader`'s update call is given the output of `producer`'s update.
/// Inputs that no update of the tick produces (switch positions, engine
/// and fuel state, which the host writes) are not steps and do not appear.
pub open spec fn consumes(reader: Step, producer: Step) -> bool {
    match reader {
        Step::ApuBeforeElectrical => {
            ||| producer == Step::Pneumatic
            ||| producer == Step::ApuOverheadRefresh
            ||| producer == Step::ElectricalOverheadRefresh
        },
        Step::Electrical => {
            ||| producer == Step::ApuBeforeElectrical
            ||| producer == Step::ElectricalOverheadRefresh
            ||| producer == Step::EmergencyElectricalOverheadRefresh
            ||| producer == Step::ApuOverheadRefresh
            ||| producer == Step::ApuAfterPowerDistribution
            ||| producer == Step::Hydraulic
            ||| producer == Step::LandingGearControlUnits
        },
        Step::ElectricalOverheadRefresh => producer == Step::Electrical,
        Step::EmergencyElectricalOverheadRefresh => producer == Step::Electrical,
        Step::Payload => false,
        Step::Airframe => producer == Step::Payload,
        Step::ApuAfterPowerDistribution => {
            ||| producer == Step::ApuBeforeElectrical
            ||| producer == Step::LandingGearControlUnits
        },
        Step::ApuOverheadRefresh => producer == Step::ApuAfterPowerDistribution,
        Step::AirStarterUnit => false,
        Step::LandingGearControlUnits => producer == Step::Hydraulic,
        Step::RadioAltimeters => false,
        Step::Hydraulic => {
            ||| producer == Step::HydraulicOverheadRefresh
            ||| producer == Step::LandingGearControlUnits
            ||| producer == Step::EmergencyElectricalOverheadRefresh
            ||| producer == Step::Electrical
            ||| producer == Step::Pneumatic
            ||| producer == Step::AirDataInertialReference
        },
        Step::ReverseThrust => producer == Step::Hydraulic,
        Step::PneumaticReservoirVolumes => producer == Step::Hydraulic,
        Step::HydraulicOverheadRefresh => producer == Step::Hydraulic,
        Step::AirDataInertialReference => producer
            == Step::AirDataInertialReferenceOverheadRefresh,
        Step::AirDataInertialReferenceOverheadRefresh => producer
            == Step::AirDataInertialReference,
        Step::PowerConsumption => false,
        Step::Pneumatic => {
            ||| producer == Step::ApuAfterPowerDistribution
            ||| producer == Step::AirStarterUnit
            ||| producer == Step::AirConditioning
            ||| producer == Step::AirConditioningPackMixing
            ||| producer == Step::LandingGearControlUnits
            ||| producer == Step::PneumaticReservoirVolumes
        },
        Step::AirConditioningPackMixing => producer == Step::Pneumatic,
        Step::AirConditioning => {
            ||| producer == Step::AirDataInertialReference
            ||| producer == Step::Payload
            ||| producer == Step::Pneumatic
            ||| producer == Step::LandingGearControlUnits
            ||| producer == Step::AirConditioningPackMixing
        },
        Step::GroundProximityWarning => {
            ||| producer == Step::AirDataInertialReference
            ||| producer == Step::LandingGearControlUnits
        },
    }
}

/// The inputs of `consumes` that `reader` takes as they were left by the
/// previous tick: feedback from a producer that runs later in the tick.
pub open spec fn carried_over(reader: Step, producer: Step) -> bool {
    match reader {
        Step::ApuBeforeElectrical => {
            ||| producer == Step::Pneumatic
            ||| producer == Step::ApuOverheadRefresh
            ||| producer == Step::ElectricalOverheadRefresh
        },
        Step::Electrical => {
            ||| producer == Step::ElectricalOverheadRefresh
            ||| producer == Step::EmergencyElectricalOverheadRefresh
            ||| producer == Step::ApuOverheadRefresh
            ||| producer == Step::ApuAfterPowerDistribution
            ||| producer == Step::Hydraulic
            ||| producer == Step::LandingGearControlUnits
        },
        Step::ApuAfterPowerDistribution => producer == Step::LandingGearControlUnits,
        Step::LandingGearControlUnits => producer == Step::Hydraulic,
        Step::Hydraulic => {
            ||| producer == Step::HydraulicOverheadRefresh
            ||| producer == Step::Pneumatic
            ||| producer == Step::AirDataInertialReference
        },
        Step::AirDataInertialReference => producer
            == Step::AirDataInertialReferenceOverheadRefresh,
        Step::Pneumatic => {
            ||| producer == Step::AirConditioning
            ||| producer == Step::AirConditioningPackMixing
        },
        _ => false,
    }
}

/// `reader` needs `producer` to have run earlier in the same tick.
pub open spec fn needs_this_tick(reader: Step, producer: Step) -> bool {
    consumes(reader, producer) && !carried_over(reader, producer)
}

/// The steps of the phase before the distribution solve, in order.
pub fn phase_one_steps() -> (r: Vec<Step>)
    ensures
        r@ == phase_one_order(),
{
    let r = vec![
        Step::ApuBeforeElectrical,
        Step::Electrical,
        Step::ElectricalOverheadRefresh,
        Step::EmergencyElectricalOverheadRefresh,
        Step::Payload,
        Step::Airframe,
    ];
    assert(r@ =~= phase_one_order());
    r
}

/// The steps of the phase after the distribution solve, in order.
pub fn phase_two_steps() -> (r: Vec<Step>)
    ensures
        r@ == phase_two_order(),
{
    let r = vec![
        Step::ApuAfterPowerDistribution,
        Step::ApuOverheadRefresh,
        Step::AirStarterUnit,
        Step::LandingGearControlUnits,
        Step::RadioAltimeters,
        Step::Hydraulic,
        Step::ReverseThrust,
        Step::PneumaticReservoirVolumes,
        Step::HydraulicOverheadRefresh,
        Step::AirDataInertialReference,
        Step::AirDataInertialReferenceOverheadRefresh,
        Step::PowerConsumption,
        Step::Pneumatic,
        Step::AirConditioningPackMixing,
        Step::AirConditioning,
        Step::GroundProximityWarning,
    ];
    assert(r@ =~= phase_two_order());
    r
}

impl Step {
    /// The phase in which this step runs.
    pub fn phase(&self) -> (r: Phase)
        ensures
            r == phase_of(*self),
    {
        match self {
            Step::ApuBeforeElectrical | Step::Electrical | Step::ElectricalOverheadRefresh
            | Step::EmergencyElectricalOverheadRefresh | Step::Payload | Step::Airframe => {
                Phase::BeforePowerDistribution
            },
            _ => Phase::AfterPowerDistribution,
        }
    }

    /// Whether this step's update is given the output of `producer`.
    pub fn consumes(&self, producer: Step) -> (r: bool)
        ensures
            r == consumes(*self, producer),
    {
        match self {
            Step::ApuBeforeElectrical => producer == Step::Pneumatic || producer
                == Step::ApuOverheadRefresh || producer == Step::ElectricalOverheadRefresh,
            Step::Electrical => producer == Step::ApuBeforeElectrical || producer
                == Step::ElectricalOverheadRefresh || producer
                == Step::EmergencyElectricalOverheadRefresh || producer
                == Step::ApuOverheadRefresh || producer == Step::ApuAfterPowerDistribution
                || producer == Step::Hydraulic || producer == Step::LandingGearControlUnits,
            Step::ElectricalOverheadRefresh => producer == Step::Electrical,
            Step::EmergencyElectricalOverheadRefresh => producer == Step::Electrical,
            Step::Payload => false,
            Step::Airframe => producer == Step::Payload,
            Step::ApuAfterPowerDistribution => producer == Step::ApuBeforeElectrical || producer
                == Step::LandingGearControlUnits,
            Step::ApuOverheadRefresh => producer == Step::ApuAfterPowerDistribution,
            Step::AirStarterUnit => false,
            Step::LandingGearControlUnits => producer == Step::Hydraulic,
            Step::RadioAltimeters => false,
            Step::Hydraulic => producer == Step::HydraulicOverheadRefresh || producer
                == Step::LandingGearControlUnits || producer
                == Step::EmergencyElectricalOverheadRefresh || producer == Step::Electrical
                || producer == Step::Pneumatic || producer == Step::AirDataInertialReference,
            Step::ReverseThrust => producer == Step::Hydraulic,
            Step::PneumaticReservoirVolumes => producer == Step::Hydraulic,
            Step::HydraulicOverheadRefresh => producer == Step::Hydraulic,
            Step::AirDataInertialReference => producer
                == Step::AirDataInertialReferenceOverheadRefresh,
            Step::AirDataInertialReferenceOverheadRefresh => producer
                == Step::AirDataInertialReference,
            Step::PowerConsumption => false,
            Step::Pneumatic => producer == Step::ApuAfterPowerDistribution || producer
                == Step::AirStarterUnit || producer == Step::AirConditioning || producer
                == Step::AirConditioningPackMixing || producer == Step::LandingGearControlUnits || producer == Step::PneumaticReservoirVolumes,
            Step::AirConditioningPackMixing => producer == Step::Pneumatic,
            Step::AirConditioning => producer == Step::AirDataInertialReference || producer
                == Step::Payload || producer == Step::Pneumatic || producer
                == Step::LandingGearControlUnits || producer == Step::AirConditioningPackMixing,
            Step::GroundProximityWarning => producer == Step::AirDataInertialReference
                || producer == Step::LandingGearControlUnits,
        }
    }

    /// Whether this step takes the output of `producer` as the previous
    /// tick left it.
    pub fn carries_over(&self, producer: Step) -> (r: bool)
        ensures
            r == carried_over(*self, producer),
    {
        match self {
            Step::ApuBeforeElectrical => producer == Step::Pneumatic || producer
                == Step::ApuOverheadRefresh || producer == Step::ElectricalOverheadRefresh,
            Step::Electrical => producer == Step::ElectricalOverheadRefresh || producer
                == Step::EmergencyElectricalOverheadRefresh || producer
                == Step::ApuOverheadRefresh || producer == Step::ApuAfterPowerDistribution
                || producer == Step::Hydraulic || producer == Step::LandingGearControlUnits,
            Step::ApuAfterPowerDistribution => producer == Step::LandingGearControlUnits,
            Step::LandingGearControlUnits => producer == Step::Hydraulic,
            Step::Hydraulic => producer == Step::HydraulicOverheadRefresh || producer
                == Step::Pneumatic || producer == Step::AirDataInertialReference,
            Step::AirDataInertialReference => producer
                == Step::AirDataInertialReferenceOverheadRefresh,
            Step::Pneumatic => producer == Step::AirConditioning || producer
                == Step::AirConditioningPackMixing,
            _ => false,
        }
    }
}

/// `position` is where each step stands in `tick_order`, and the order
/// holds each step exactly once.
pub proof fn lemma_position_in_tick_order(s: Step)
    ensures
        0 <= position(s) < tick_order().len(),
        tick_order()[position(s)] == s,
        tick_order().len() == 22,
        phase_of(s) == Phase::BeforePowerDistribution <==> phase_one_order().contains(s),
{
    reveal_with_fuel(Seq::contains, 1);
    assert(tick_order() =~= seq![
        Step::ApuBeforeElectrical,
        Step::Electrical,
        Step::ElectricalOverheadRefresh,
        Step::EmergencyElectricalOverheadRefresh,
        Step::Payload,
        Step::Airframe,
        Step::ApuAfterPowerDistribution,
        Step::ApuOverheadRefresh,
        Step::AirStarterUnit,
        Step::LandingGearControlUnits,
        Step::RadioAltimeters,
        Step::Hydraulic,
        Step::ReverseThrust,
        Step::PneumaticReservoirVolumes,
        Step::HydraulicOverheadRefresh,
        Step::AirDataInertialReference,
        Step::AirDataInertialReferenceOverheadRefresh,
        Step::PowerConsumption,
        Step::Pneumatic,
        Step::AirConditioningPackMixing,
        Step::AirConditioning,
        Step::GroundProximityWarning,
    ]);
    if phase_of(s) == Phase::BeforePowerDistribution {
        assert(phase_one_order()[position(s)] == s);
    } else {
        assert forall|i: int| 0 <= i < phase_one_order().len() implies phase_one_order()[i]
            != s by {
            assert(position(phase_one_order()[i]) == i);
        }
    }
}

/// Every input of an update that is not carried over from the previous
/// tick comes from a step that runs strictly earlier in the tick; and
/// every carried-over input comes from a step that runs no earlier than
/// its reader, so that its value this tick is the previous tick's.
pub proof fn lemma_producers_run_first(reader: Step, producer: Step)
    requires
        consumes(reader, producer),
    ensures
        !carried_over(reader, producer) <==> position(producer) < position(reader),
{
}

/// No update of the phase before the distribution solve needs, in the same
/// tick, the output of an update of the phase after it.
pub proof fn lemma_phase_one_needs_no_phase_two(reader: Step, producer: Step)
    requires
        phase_of(reader) == Phase::BeforePowerDistribution,
        needs_this_tick(reader, producer),
    ensures
        phase_of(producer) == Phase::BeforePowerDistribution,
{
    lemma_producers_run_first(reader, producer);
}

/// Two steps at the same position are the same step.
pub proof fn lemma_position_injective(a: Step, b: Step)
    requires
        position(a) == position(b),
    ensures
        a == b,
{
}

/// A phase's log, made of `start` (no step of this phase) and the phase's
/// first `i` steps, does not hold the phase's next step, and holds every
/// step of the phase whose output that step needs this tick.
pub proof fn lemma_phase_log(start: Seq<Step>, order: Seq<Step>, i: int)
    requires
        order == phase_one_order() || order == phase_two_order(),
        0 <= i < order.len(),
        forall|k: int| 0 <= k < start.len() ==> phase_of(#[trigger] start[k]) != phase_of(order[i]),
    ensures
        !(start + order.take(i)).contains(order[i]),
        forall|p: Step|
            needs_this_tick(order[i], p) && phase_of(p) == phase_of(order[i]) ==> (start
                + order.take(i)).contains(p),
{
    let base: int = if order == phase_one_order() {
        0
    } else {
        6
    };
    let log = start + order.take(i);
    assert forall|k: int| 0 <= k < order.len() implies position(#[trigger] order[k]) == base + k
        && phase_of(order[k]) == phase_of(order[i]) by {}
    if log.contains(order[i]) {
        let w = choose|w: int| 0 <= w < log.len() && log[w] == order[i];
        if w >= start.len() {
            assert(log[w] == order[w - start.len()]);
        } else {
            assert(log[w] == start[w]);
        }
    }
    assert forall|p: Step|
        needs_this_tick(order[i], p) && phase_of(p) == phase_of(order[i]) implies log.contains(
        p,
    ) by {
        lemma_producers_run_first(order[i], p);
        let k = position(p) - base;
        assert(0 <= k < i);
        lemma_position_injective(order[k], p);
        assert(log[start.len() + k] == p);
    }
}

} // verus!
