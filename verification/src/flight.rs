//! Who compiles a schema: one caller per schema at a time, and one parse at
//! a time in all.

use vstd::prelude::*;

verus! {

/// The answer to a caller who asks for a schema.
#[derive(Clone, Copy, Debug, PartialEq, Eq, Structural)]
pub enum Admission {
    /// The schema is compiled: use it.
    Ready,
    /// The caller is to build the schema; all who ask meanwhile wait for it.
    Lead,
    /// Another caller builds the schema: wait for what it delivers.
    Follow,
}

/// What is under way, as the laws see it.
pub struct Flights {
    /// The schemas that are being built.
    pub building: Set<Seq<char>>,
    /// The schemas that were built, and are kept.
    pub ready: Set<Seq<char>>,
    /// The schema that the engine parses, if it parses one.
    pub parsing: Option<Seq<char>>,
}

/// What happens to the table.
pub enum FlightOp {
    /// A caller asks for the schema.
    Request(Seq<char>),
    /// The build of the schema ended: well, where the flag is set.
    Complete(Seq<char>, bool),
    /// The compiled schema is no longer kept.
    Forget(Seq<char>),
}

impl Flights {
    /// The table with nothing under way and nothing kept.
    pub open spec fn fresh() -> Flights {
        Flights { building: Set::empty(), ready: Set::empty(), parsing: None }
    }

    /// What a caller who asks for `name` is told.
    pub open spec fn admission(self, name: Seq<char>) -> Admission {
        if self.ready.contains(name) {
            Admission::Ready
        } else if self.building.contains(name) {
            Admission::Follow
        } else {
            Admission::Lead
        }
    }

    /// Whether the schema `name` is being built or kept, so that who asks
    /// for it is not told to build it.
    pub open spec fn holds(self, name: Seq<char>) -> bool {
        self.ready.contains(name) || self.building.contains(name)
    }

    /// The flights after a caller asked for `name`: the schema is being
    /// built from now on where the caller was told to build it.
    pub open spec fn requested(self, name: Seq<char>) -> Flights {
        if self.admission(name) is Lead {
            Flights { building: self.building.insert(name), ..self }
        } else {
            self
        }
    }

    /// The flights after the build of `name` ended: well, where `built`, and
    /// the schema is then kept.
    pub open spec fn completed(self, name: Seq<char>, built: bool) -> Flights {
        Flights {
            building: self.building.remove(name),
            ready: if built && self.building.contains(name) {
                self.ready.insert(name)
            } else {
                self.ready
            },
            ..self
        }
    }

    /// The flights after the compiled schema `name` was given up.
    pub open spec fn forgotten(self, name: Seq<char>) -> Flights {
        Flights { ready: self.ready.remove(name), ..self }
    }

    /// The flights after `op`.
    pub open spec fn applied(self, op: FlightOp) -> Flights {
        match op {
            FlightOp::Request(name) => self.requested(name),
            FlightOp::Complete(name, built) => self.completed(name, built),
            FlightOp::Forget(name) => self.forgotten(name),
        }
    }

    /// The flights after `ops`, one after the other.
    pub open spec fn after(self, ops: Seq<FlightOp>) -> Flights
        decreases ops.len(),
    {
        if ops.len() == 0 {
            self
        } else {
            self.after(ops.drop_last()).applied(ops.last())
        }
    }

    /// How many callers were told to build `name` in the course of `ops`.
    pub open spec fn leaders(self, ops: Seq<FlightOp>, name: Seq<char>) -> nat
        decreases ops.len(),
    {
        if ops.len() == 0 {
            0
        } else {
            self.leaders(ops.drop_last(), name) + if ops.last() == FlightOp::Request(name)
                && self.after(ops.drop_last()).admission(name) is Lead {
                1nat
            } else {
                0nat
            }
        }
    }
}

/// How often, in the course of `ops`, the schema `name` was let go: a
/// build of it ended badly, or the compiled schema was given up.
pub open spec fn releases(ops: Seq<FlightOp>, name: Seq<char>) -> nat
    decreases ops.len(),
{
    if ops.len() == 0 {
        0
    } else {
        releases(ops.drop_last(), name) + if ops.last() == FlightOp::Complete(name, false)
            || ops.last() == FlightOp::Forget(name) {
            1nat
        } else {
            0nat
        }
    }
}

/// A set of names, kept as a list.
#[derive(Clone, Debug, PartialEq, Eq)]
pub struct NameSet {
    names: Vec<String>,
}

impl View for NameSet {
    type V = Set<Seq<char>>;

    closed spec fn view(&self) -> Set<Seq<char>> {
        Set::new(
            |name: Seq<char>|
                exists|i: int| 0 <= i < self.names@.len() && (#[trigger] self.names@[i])@ == name,
        )
    }
}

impl NameSet {
    /// Whether no name stands twice in the list.
    pub closed spec fn well_formed(&self) -> bool {
        forall|i: int, j: int|
            0 <= i < j < self.names@.len() ==> (#[trigger] self.names@[i])@ != (
            #[trigger] self.names@[j])@
    }

    /// The set of no names.
    pub fn new() -> (s: NameSet)
        ensures
            s.well_formed(),
            s@ == Set::<Seq<char>>::empty(),
    {
        let s = NameSet { names: Vec::new() };
        assert(s@ =~= Set::<Seq<char>>::empty());
        s
    }

    fn position(&self, name: &str) -> (r: Option<usize>)
        ensures
            match r {
                Some(i) => i < self.names@.len() && self.names@[i as int]@ == name@,
                None => !self@.contains(name@),
            },
    {
        let mut i: usize = 0;
        while i < self.names.len()
            invariant
                i <= self.names.len(),
                forall|k: int| 0 <= k < i ==> (#[trigger] self.names@[k])@ != name@,
            decreases self.names.len() - i,
        {
            if crate::text::str_is(self.names[i].as_str(), name) {
                return Some(i);
            }
            i = i + 1;
        }
        None
    }

    /// Whether `name` is in the set.
    pub fn contains(&self, name: &str) -> (b: bool)
        ensures
            b == self@.contains(name@),
    {
        self.position(name).is_some()
    }

    /// Puts `name` into the set.
    pub fn insert(&mut self, name: &str)
        requires
            old(self).well_formed(),
        ensures
            final(self).well_formed(),
            final(self)@ == old(self)@.insert(name@),
    {
        match self.position(name) {
            Some(i) => {
                assert(self@.contains(name@));
                assert(self@ =~= old(self)@.insert(name@));
            },
            None => {
                let ghost before = self.names@;
                self.names.push(name.to_owned());
                proof {
                    assert forall|i: int, j: int|
                        0 <= i < j < self.names@.len() implies (#[trigger] self.names@[i])@ != (
                    #[trigger] self.names@[j])@ by {
                        assert(self.names@[i] == before[i]);
                        if j < before.len() {
                            assert(self.names@[j] == before[j]);
                        } else {
                            assert(old(self)@.contains(before[i]@));
                        }
                    }
                    assert forall|n: Seq<char>| self@.contains(n) == old(self)@.insert(
                        name@,
                    ).contains(n) by {
                        if self@.contains(n) {
                            let k = choose|k: int|
                                0 <= k < self.names@.len() && (#[trigger] self.names@[k])@ == n;
                            if k < before.len() {
                                assert(self.names@[k] == before[k]);
                            }
                        }
                        if old(self)@.contains(n) {
                            let k = choose|k: int|
                                0 <= k < before.len() && (#[trigger] before[k])@ == n;
                            assert(self.names@[k] == before[k]);
                        }
                        if n == name@ {
                            assert(self.names@[before.len() as int]@ == n);
                        }
                    }
                    assert(self@ =~= old(self)@.insert(name@));
                }
            },
        }
    }

    /// Takes `name` out of the set.
    pub fn remove(&mut self, name: &str)
        requires
            old(self).well_formed(),
        ensures
            final(self).well_formed(),
            final(self)@ == old(self)@.remove(name@),
    {
        match self.position(name) {
            Some(i) => {
                let ghost before = self.names@;
                let gone = self.names.remove(i);
                proof {
                    assert forall|a: int, b: int|
                        0 <= a < b < self.names@.len() implies (#[trigger] self.names@[a])@ != (
                    #[trigger] self.names@[b])@ by {
                        let a0 = if a < i { a } else { a + 1 };
                        let b0 = if b < i { b } else { b + 1 };
                        assert(self.names@[a] == before[a0]);
                        assert(self.names@[b] == before[b0]);
                    }
                    assert forall|n: Seq<char>| self@.contains(n) == old(self)@.remove(
                        name@,
                    ).contains(n) by {
                        if self@.contains(n) {
                            let k = choose|k: int|
                                0 <= k < self.names@.len() && (#[trigger] self.names@[k])@ == n;
                            let k0 = if k < i { k } else { k + 1 };
                            assert(self.names@[k] == before[k0]);
                            assert(old(self)@.contains(before[k0]@));
                        }
                        if old(self)@.contains(n) && n != name@ {
                            let k = choose|k: int|
                                0 <= k < before.len() && (#[trigger] before[k])@ == n;
                            let k1 = if k < i { k } else { k - 1 };
                            assert(self.names@[k1] == before[k]);
                        }
                    }
                    assert(self@ =~= old(self)@.remove(name@));
                }
            },
            None => {
                assert(self@ =~= old(self)@.remove(name@));
            },
        }
    }
}

/// The table of what is under way and what is kept.
#[derive(Clone, Debug, PartialEq, Eq)]
pub struct FlightTable {
    building: NameSet,
    ready: NameSet,
    parsing: Option<String>,
}

impl View for FlightTable {
    type V = Flights;

    closed spec fn view(&self) -> Flights {
        Flights {
            building: self.building@,
            ready: self.ready@,
            parsing: match self.parsing {
                Some(name) => Some(name@),
                None => None,
            },
        }
    }
}

impl FlightTable {
    /// Whether no schema stands twice in the table.
    pub closed spec fn well_formed(&self) -> bool {
        self.building.well_formed() && self.ready.well_formed()
    }

    /// The table with nothing under way and nothing kept.
    pub fn new() -> (t: FlightTable)
        ensures
            t.well_formed(),
            t@ == Flights::fresh(),
    {
        FlightTable { building: NameSet::new(), ready: NameSet::new(), parsing: None }
    }

    /// A caller asks for the schema `name`: it is told to use the schema
    /// where it is kept, to wait where it is being built, and to build it
    /// otherwise; the schema is then being built.
    pub fn request(&mut self, name: &str) -> (a: Admission)
        requires
            old(self).well_formed(),
        ensures
            final(self).well_formed(),
            a == old(self)@.admission(name@),
            final(self)@ == old(self)@.requested(name@),
    {
        if self.ready.contains(name) {
            Admission::Ready
        } else if self.building.contains(name) {
            Admission::Follow
        } else {
            self.building.insert(name);
            Admission::Lead
        }
    }

    /// The build of the schema `name` ended. Where it ended well (`built`)
    /// the schema is kept from now on; where it ended badly, who asks for
    /// the schema next is told to build it.
    pub fn complete(&mut self, name: &str, built: bool)
        requires
            old(self).well_formed(),
        ensures
            final(self).well_formed(),
            final(self)@ == old(self)@.completed(name@, built),
    {
        if built && self.building.contains(name) {
            self.ready.insert(name);
        }
        self.building.remove(name);
    }

    /// The compiled schema `name` is no longer kept: who asks for it next
    /// is told to build it, unless it is being built.
    pub fn forget(&mut self, name: &str)
        requires
            old(self).well_formed(),
        ensures
            final(self).well_formed(),
            final(self)@ == old(self)@.forgotten(name@),
    {
        self.ready.remove(name);
    }

    /// A caller is about to have the schema `name` parsed: it may, unless
    /// the engine is parsing.
    pub fn begin_parse(&mut self, name: &str) -> (granted: bool)
        requires
            old(self).well_formed(),
        ensures
            final(self).well_formed(),
            granted == (old(self)@.parsing is None),
            final(self)@.building == old(self)@.building,
            final(self)@.ready == old(self)@.ready,
            final(self)@.parsing == if granted {
                Some(name@)
            } else {
                old(self)@.parsing
            },
    {
        if self.parsing.is_none() {
            self.parsing = Some(name.to_owned());
            true
        } else {
            false
        }
    }

    /// The engine has parsed.
    pub fn end_parse(&mut self)
        requires
            old(self).well_formed(),
        ensures
            final(self).well_formed(),
            final(self)@.building == old(self)@.building,
            final(self)@.ready == old(self)@.ready,
            final(self)@.parsing is None,
    {
        self.parsing = None;
    }

    /// Whether the schema `name` is being built.
    pub fn is_building(&self, name: &str) -> (b: bool)
        ensures
            b == self@.building.contains(name@),
    {
        self.building.contains(name)
    }

    /// Whether the schema `name` is kept.
    pub fn is_ready(&self, name: &str) -> (b: bool)
        ensures
            b == self@.ready.contains(name@),
    {
        self.ready.contains(name)
    }

    /// Whether the engine is parsing.
    pub fn is_parsing(&self) -> (b: bool)
        ensures
            b == (self@.parsing is Some),
    {
        self.parsing.is_some()
    }
}

/// What happens to one schema leaves the others as they are.
pub proof fn lemma_untouched(flights: Flights, ops: Seq<FlightOp>, name: Seq<char>)
    requires
        forall|i: int|
            0 <= i < ops.len() ==> #[trigger] ops[i] != FlightOp::Request(name) && ops[i]
                != FlightOp::Complete(name, true) && ops[i] != FlightOp::Complete(name, false)
                && ops[i] != FlightOp::Forget(name),
    ensures
        flights.after(ops).building.contains(name) == flights.building.contains(name),
        flights.after(ops).ready.contains(name) == flights.ready.contains(name),
        flights.leaders(ops, name) == 0,
    decreases ops.len(),
{
    if ops.len() > 0 {
        assert(ops.last() == ops[ops.len() - 1]);
        assert forall|i: int| 0 <= i < ops.drop_last().len() implies #[trigger] ops.drop_last()[i]
            != FlightOp::Request(name) && ops.drop_last()[i] != FlightOp::Complete(name, true)
            && ops.drop_last()[i] != FlightOp::Complete(name, false) && ops.drop_last()[i]
            != FlightOp::Forget(name) by {
            assert(ops.drop_last()[i] == ops[i]);
        }
        lemma_untouched(flights, ops.drop_last(), name);
    }
}

/// Single flight: whatever happens to the table, one after the other, a
/// caller is told to build a schema only while it is neither being built
/// nor kept. So the callers told to build it are at most one more than the
/// times it was let go: one at most while every build of it ends well and
/// what was built is kept. And once it is being built or kept, somebody was
/// told to build it.
pub proof fn lemma_single_flight(ops: Seq<FlightOp>, name: Seq<char>)
    ensures
        Flights::fresh().leaders(ops, name) <= releases(ops, name) + if Flights::fresh().after(
            ops,
        ).holds(name) {
            1nat
        } else {
            0nat
        },
        Flights::fresh().after(ops).holds(name) ==> Flights::fresh().leaders(ops, name) >= 1,
        releases(ops, name) == 0 ==> Flights::fresh().leaders(ops, name) <= 1,
    decreases ops.len(),
{
    if ops.len() > 0 {
        lemma_single_flight(ops.drop_last(), name);
    }
}

/// One build for all who ask: while every build of a schema ends well and
/// what was built is kept, exactly one of those who ask for the schema is
/// told to build it, however many ask and whatever else happens to the
/// table meanwhile.
pub proof fn lemma_one_build(ops: Seq<FlightOp>, name: Seq<char>)
    requires
        releases(ops, name) == 0,
        ops.contains(FlightOp::Request(name)),
    ensures
        Flights::fresh().leaders(ops, name) == 1,
{
    lemma_single_flight(ops, name);
    lemma_asked_is_held(ops, name);
}

/// A schema that was asked for and never let go is being built or kept.
pub proof fn lemma_asked_is_held(ops: Seq<FlightOp>, name: Seq<char>)
    requires
        releases(ops, name) == 0,
        ops.contains(FlightOp::Request(name)),
    ensures
        Flights::fresh().after(ops).holds(name),
    decreases ops.len(),
{
    let before = ops.drop_last();
    assert(ops.len() > 0);
    assert(ops.last() == ops[ops.len() - 1]);
    if before.contains(FlightOp::Request(name)) {
        lemma_asked_is_held(before, name);
    } else {
        let i = choose|i: int| 0 <= i < ops.len() && ops[i] == FlightOp::Request(name);
        if i < before.len() {
            assert(before[i] == ops[i]);
        }
        assert(ops.last() == FlightOp::Request(name));
    }
}

} // verus!
