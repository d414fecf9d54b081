use vstd::prelude::*;

verus! {

/// Electrical overhead panel: the APU generator push button is on.
pub const APU_GENERATOR_ON: u64 = 1;

/// Electrical overhead panel: the external power push button is on.
pub const EXTERNAL_POWER_ON: u64 = 2;

/// Electrical overhead panel: the external power AVAIL light is lit.
pub const EXTERNAL_POWER_AVAILABLE: u64 = 4;

/// Pneumatic overhead panel: the APU bleed push button is on.
pub const APU_BLEED_ON: u64 = 1;

/// Pneumatic system: the APU bleed air valve is open.
pub const APU_BLEED_VALVE_OPEN: u64 = 1;

/// Fuel system: the left inner tank has fuel remaining.
pub const LEFT_INNER_TANK_HAS_FUEL: u64 = 1;

/// External power source: its output is powered.
pub const EXTERNAL_POWER_POWERED: u64 = 1;

/// The flag `mask` is set in the state word `word`.
pub open spec fn flag(word: u64, mask: u64) -> bool {
    word & mask != 0
}

pub fn has_flag(word: u64, mask: u64) -> (r: bool)
    ensures
        r == flag(word, mask),
{
    word & mask != 0
}

/// The APU generator is offered to the network: its push button is on and
/// external power is not both selected and available, external power
/// taking precedence.
pub open spec fn generator_in_use(
    apu_generator_on: bool,
    external_power_on: bool,
    external_power_available: bool,
) -> bool {
    apu_generator_on && !(external_power_on && external_power_available)
}

pub fn apu_generator_in_use(
    apu_generator_on: bool,
    external_power_on: bool,
    external_power_available: bool,
) -> (r: bool)
    ensures
        r == generator_in_use(apu_generator_on, external_power_on, external_power_available),
{
    apu_generator_on && !(external_power_on && external_power_available)
}

/// What the APU's update before the electrical network is given.
#[derive(Clone, Copy, Debug, PartialEq, Eq, Structural)]
pub struct ApuElectricalInputs {
    /// State word of the APU overhead panel.
    pub apu_overhead: u64,
    /// State word of the APU fire overhead panel.
    pub apu_fire_overhead: u64,
    pub apu_bleed_switch_on: bool,
    pub generator_available: bool,
    pub bleed_valve_open: bool,
    pub fuel_available: bool,
}

/// The snapshot that the state words of the panels and systems give.
pub open spec fn apu_inputs_of(
    apu_overhead: u64,
    apu_fire_overhead: u64,
    pneumatic_overhead: u64,
    electrical_overhead: u64,
    pneumatic: u64,
    fuel: u64,
) -> ApuElectricalInputs {
    ApuElectricalInputs {
        apu_overhead,
        apu_fire_overhead,
        apu_bleed_switch_on: flag(pneumatic_overhead, APU_BLEED_ON),
        generator_available: generator_in_use(
            flag(electrical_overhead, APU_GENERATOR_ON),
            flag(electrical_overhead, EXTERNAL_POWER_ON),
            flag(electrical_overhead, EXTERNAL_POWER_AVAILABLE),
        ),
        bleed_valve_open: flag(pneumatic, APU_BLEED_VALVE_OPEN),
        fuel_available: flag(fuel, LEFT_INNER_TANK_HAS_FUEL),
    }
}

impl ApuElectricalInputs {
    /// The inputs before any tick: nothing selected, nothing available.
    pub fn idle() -> (r: ApuElectricalInputs)
        ensures
            r == apu_inputs_of(0, 0, 0, 0, 0, 0),
    {
        let r = ApuElectricalInputs {
            apu_overhead: 0,
            apu_fire_overhead: 0,
            apu_bleed_switch_on: false,
            generator_available: false,
            bleed_valve_open: false,
            fuel_available: false,
        };
        assert(0u64 & 1u64 == 0 && 0u64 & 2u64 == 0 && 0u64 & 4u64 == 0) by (bit_vector);
        r
    }

    /// Reads the snapshot out of the state words of the panels and systems.
    pub fn from_state(
        apu_overhead: u64,
        apu_fire_overhead: u64,
        pneumatic_overhead: u64,
        electrical_overhead: u64,
        pneumatic: u64,
        fuel: u64,
    ) -> (r: ApuElectricalInputs)
        ensures
            r == apu_inputs_of(
                apu_overhead,
                apu_fire_overhead,
                pneumatic_overhead,
                electrical_overhead,
                pneumatic,
                fuel,
            ),
    {
        ApuElectricalInputs {
            apu_overhead,
            apu_fire_overhead,
            apu_bleed_switch_on: has_flag(pneumatic_overhead, APU_BLEED_ON),
            generator_available: apu_generator_in_use(
                has_flag(electrical_overhead, APU_GENERATOR_ON),
                has_flag(electrical_overhead, EXTERNAL_POWER_ON),
                has_flag(electrical_overhead, EXTERNAL_POWER_AVAILABLE),
            ),
            bleed_valve_open: has_flag(pneumatic, APU_BLEED_VALVE_OPEN),
            fuel_available: has_flag(fuel, LEFT_INNER_TANK_HAS_FUEL),
        }
    }
}

/// Selected and available external power keeps the APU generator off the
/// network, whatever its push button says.
pub proof fn lemma_external_power_takes_precedence(
    apu_overhead: u64,
    apu_fire_overhead: u64,
    pneumatic_overhead: u64,
    electrical_overhead: u64,
    pneumatic: u64,
    fuel: u64,
)
    requires
        flag(electrical_overhead, EXTERNAL_POWER_ON),
        flag(electrical_overhead, EXTERNAL_POWER_AVAILABLE),
    ensures
        !apu_inputs_of(
            apu_overhead,
            apu_fire_overhead,
            pneumatic_overhead,
            electrical_overhead,
            pneumatic,
            fuel,
        ).generator_available,
{
}

/// Without fuel in the left inner tank the APU is told that no fuel is
/// available.
pub proof fn lemma_no_fuel_no_apu_fuel(
    apu_overhead: u64,
    apu_fire_overhead: u64,
    pneumatic_overhead: u64,
    electrical_overhead: u64,
    pneumatic: u64,
    fuel: u64,
)
    requires
        !flag(fuel, LEFT_INNER_TANK_HAS_FUEL),
    ensures
        !apu_inputs_of(
            apu_overhead,
            apu_fire_overhead,
            pneumatic_overhead,
            electrical_overhead,
            pneumatic,
            fuel,
        ).fuel_available,
{
}

} // verus!
