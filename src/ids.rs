use vstd::prelude::*;

verus! {

/// The kinds of component that the aircraft owns.
#[derive(Clone, Copy, Debug, PartialEq, Eq, Structural)]
pub enum Category {
    AirDataInertialReferenceSystem,
    AirDataInertialReferenceSystemOverhead,
    AirConditioning,
    AuxiliaryPowerUnit,
    AirStarterUnit,
    AuxiliaryPowerUnitFireOverhead,
    AuxiliaryPowerUnitOverhead,
    PneumaticOverhead,
    PressurizationOverhead,
    ElectricalOverhead,
    EmergencyElectricalOverhead,
    Payload,
    Airframe,
    Fuel,
    Engine,
    EngineFireOverhead,
    Electrical,
    PowerConsumption,
    ExternalPowerSource,
    LandingGearControlInterfaceUnits,
    Hydraulic,
    HydraulicOverhead,
    AutobrakePanel,
    LandingGear,
    Pneumatic,
    RadioAltimeters,
    GroundProximityWarningComputer,
    ReverseThrust,
}

/// The stable name of a state value: the category of the component that
/// owns it and the component's index within that category. A component of
/// which the aircraft has a single instance carries index 0.
#[derive(Clone, Copy, Debug, PartialEq, Eq, Structural)]
pub struct StableId {
    pub category: Category,
    pub index: u8,
}

impl StableId {
    /// The identifier of the single component of a category.
    pub fn single(category: Category) -> (r: StableId)
        ensures
            r == (StableId { category, index: 0 }),
    {
        StableId { category, index: 0 }
    }

    /// The identifier of the component with the given index.
    pub fn indexed(category: Category, index: u8) -> (r: StableId)
        ensures
            r == (StableId { category, index }),
    {
        StableId { category, index }
    }
}

/// A second registration of an identifier that was registered before.
#[derive(Clone, Copy, Debug, PartialEq, Eq, Structural)]
pub struct IdentifierCollision {
    pub id: StableId,
}

/// The registration service used while the aircraft is built: it hands out
/// each stable identifier at most once.
pub struct InitContext {
    registered: Vec<StableId>,
}

impl View for InitContext {
    type V = Seq<StableId>;

    closed spec fn view(&self) -> Seq<StableId> {
        self.registered@
    }
}

impl InitContext {
    /// Every identifier is registered at most once.
    pub closed spec fn wf(&self) -> bool {
        self.registered@.no_duplicates()
    }

    pub fn new() -> (r: InitContext)
        ensures
            r.wf(),
            r@ == Seq::<StableId>::empty(),
    {
        InitContext { registered: Vec::new() }
    }

    pub fn is_registered(&self, id: StableId) -> (r: bool)
        ensures
            r == self@.contains(id),
    {
        let mut i: usize = 0;
        while i < self.registered.len()
            invariant
                0 <= i <= self.registered@.len(),
                forall|j: int| 0 <= j < i ==> self.registered@[j] != id,
            decreases self.registered@.len() - i,
        {
            if self.registered[i] == id {
                return true;
            }
            i = i + 1;
        }
        false
    }

    /// Registers `id`. A second registration of the same identifier is a
    /// collision and leaves the registry as it was.
    pub fn register(&mut self, id: StableId) -> (r: Result<(), IdentifierCollision>)
        requires
            old(self).wf(),
        ensures
            final(self).wf(),
            old(self)@.contains(id) ==> r == Err::<(), IdentifierCollision>(
                IdentifierCollision { id },
            ) && final(self)@ == old(self)@,
            !old(self)@.contains(id) ==> r is Ok && final(self)@ == old(self)@.push(id),
    {
        if self.is_registered(id) {
            Err(IdentifierCollision { id })
        } else {
            self.registered.push(id);
            Ok(())
        }
    }

    /// The number of identifiers registered so far.
    pub fn len(&self) -> (r: usize)
        ensures
            r == self@.len(),
    {
        self.registered.len()
    }

    /// The identifier registered in position `i`.
    pub fn get(&self, i: usize) -> (r: StableId)
        requires
            i < self@.len(),
        ensures
            r == self@[i as int],
    {
        self.registered[i]
    }
}

} // verus!
