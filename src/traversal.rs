use vstd::prelude::*;

use crate::ids::{IdentifierCollision, InitContext, StableId, Category};

verus! {

/// A component's state word, named by its stable identifier and kept in step
/// with the host by traversal.
#[derive(Clone, Copy, Debug, PartialEq, Eq, Structural)]
pub struct Element {
    pub id: StableId,
    pub value: u64,
}

impl Element {
    /// Builds the component `index` of `category`, registering its stable
    /// identifier. Its state starts at 0.
    pub fn new(context: &mut InitContext, category: Category, index: u8) -> (r: Result<
        Element,
        IdentifierCollision,
    >)
        requires
            old(context).wf(),
        ensures
            final(context).wf(),
            old(context)@.contains(StableId { category, index }) ==> r == Err::<
                Element,
                IdentifierCollision,
            >(IdentifierCollision { id: StableId { category, index } }) && final(context)@ == old(
                context,
            )@,
            !old(context)@.contains(StableId { category, index }) ==> r == Ok::<
                Element,
                IdentifierCollision,
            >(Element { id: StableId { category, index }, value: 0 }) && final(context)@ == old(
                context,
            )@.push(StableId { category, index }),
    {
        let id = StableId::indexed(category, index);
        match context.register(id) {
            Ok(()) => Ok(Element { id, value: 0 }),
            Err(e) => Err(e),
        }
    }
}

/// A named value as a visitor saw it.
#[derive(Clone, Copy, Debug, PartialEq, Eq, Structural)]
pub struct Reading {
    pub id: StableId,
    pub value: u64,
}

/// The value that `updates` holds for `id`: the first entry that names it.
pub open spec fn update_for(updates: Seq<Reading>, id: StableId) -> Option<u64>
    decreases updates.len(),
{
    if updates.len() == 0 {
        None
    } else if updates[0].id == id {
        Some(updates[0].value)
    } else {
        update_for(updates.drop_first(), id)
    }
}

/// What a visit with `updates` leaves in `e`.
pub open spec fn visited(updates: Seq<Reading>, e: Element) -> Element {
    match update_for(updates, e.id) {
        Some(v) => Element { id: e.id, value: v },
        None => e,
    }
}

/// The reading that an element gives.
pub open spec fn reading_of(e: Element) -> Reading {
    Reading { id: e.id, value: e.value }
}

/// A traversal of a sequence of elements with `updates`: the elements after
/// the visits.
pub open spec fn visit_all(updates: Seq<Reading>, es: Seq<Element>) -> Seq<Element> {
    es.map_values(|e: Element| visited(updates, e))
}

/// The readings that a sequence of elements gives, in order.
pub open spec fn readings_of(es: Seq<Element>) -> Seq<Reading> {
    es.map_values(|e: Element| reading_of(e))
}

/// The host's side of a traversal: it reads every visited value by its
/// stable identifier and, for a writing visitor, first writes the values it
/// holds for some of them. A composite signals the end of its traversal,
/// after all its children, as a completion.
#[derive(Debug)]
pub struct Visitor {
    updates: Vec<Reading>,
    visits: Vec<Reading>,
    completions: Vec<usize>,
}

impl Visitor {
    /// The values this visitor writes.
    pub closed spec fn updates(&self) -> Seq<Reading> {
        self.updates@
    }

    /// What this visitor has read so far, in order of visit.
    pub closed spec fn visits(&self) -> Seq<Reading> {
        self.visits@
    }

    /// For each completed traversal, how many readings had been taken when
    /// it completed.
    pub closed spec fn completions(&self) -> Seq<usize> {
        self.completions@
    }

    /// A visitor that only reads.
    pub fn reader() -> (r: Visitor)
        ensures
            r.updates() == Seq::<Reading>::empty(),
            r.visits() == Seq::<Reading>::empty(),
            r.completions() == Seq::<usize>::empty(),
    {
        Visitor { updates: Vec::new(), visits: Vec::new(), completions: Vec::new() }
    }

    /// A visitor that writes `updates` (the first entry for an identifier
    /// wins) and reads back what it visits.
    pub fn writer(updates: Vec<Reading>) -> (r: Visitor)
        ensures
            r.updates() == updates@,
            r.visits() == Seq::<Reading>::empty(),
            r.completions() == Seq::<usize>::empty(),
    {
        Visitor { updates, visits: Vec::new(), completions: Vec::new() }
    }

    /// The readings collected so far.
    pub fn readings(&self) -> (r: &Vec<Reading>)
        ensures
            r@ == self.visits(),
    {
        &self.visits
    }

    /// The completions signalled so far.
    pub fn completed(&self) -> (r: &Vec<usize>)
        ensures
            r@ == self.completions(),
    {
        &self.completions
    }

    /// Signals that a composite's traversal is complete.
    pub fn complete(&mut self)
        ensures
            final(self).updates() == old(self).updates(),
            final(self).visits() == old(self).visits(),
            final(self).completions() == old(self).completions().push(
                old(self).visits().len() as usize,
            ),
    {
        let n = self.visits.len();
        self.completions.push(n);
    }

    fn lookup(&self, id: StableId) -> (r: Option<u64>)
        ensures
            r == update_for(self.updates(), id),
    {
        let mut i: usize = 0;
        assert(self.updates@.subrange(0, self.updates@.len() as int) =~= self.updates@);
        while i < self.updates.len()
            invariant
                0 <= i <= self.updates@.len(),
                update_for(self.updates@, id) == update_for(self.updates@.subrange(
                    i as int,
                    self.updates@.len() as int,
                ), id),
            decreases self.updates@.len() - i,
        {
            let u = self.updates[i];
            let ghost rest = self.updates@.subrange(i as int, self.updates@.len() as int);
            assert(rest.drop_first() =~= self.updates@.subrange(
                i + 1,
                self.updates@.len() as int,
            ));
            if u.id == id {
                return Some(u.value);
            }
            i = i + 1;
        }
        None
    }

    /// Visits one element: writes the value held for it, if any, then reads
    /// it.
    pub fn visit(&mut self, e: &mut Element)
        ensures
            *final(e) == visited(old(self).updates(), *old(e)),
            final(self).updates() == old(self).updates(),
            final(self).visits() == old(self).visits().push(reading_of(*final(e))),
            final(self).completions() == old(self).completions(),
    {
        match self.lookup(e.id) {
            Some(v) => {
                e.value = v;
            },
            None => {},
        }
        self.visits.push(Reading { id: e.id, value: e.value });
    }
}

/// A visitor that writes nothing leaves every element as it was, so a
/// second such traversal reads exactly what the first one read.
pub proof fn lemma_read_only_traversal_idempotent(es: Seq<Element>)
    ensures
        visit_all(Seq::<Reading>::empty(), es) == es,
        readings_of(visit_all(Seq::<Reading>::empty(), visit_all(Seq::<Reading>::empty(), es)))
            == readings_of(visit_all(Seq::<Reading>::empty(), es)),
{
    assert(visit_all(Seq::<Reading>::empty(), es) =~= es);
}

} // verus!
