//! The pool of validations: which file starts when, and when the run is
//! over.

use crate::validator::{
    FileValidationResult, ValidationConfig, ValidationPhase, ValidationProgress,
};
use vstd::prelude::*;
use vstd::set_lib::{lemma_int_range, lemma_subset_equality, set_int_range};

verus! {

/// What the pool's driver is to do next.
#[derive(Clone, Copy, Debug, PartialEq, Eq, Structural)]
pub enum Dispatch {
    /// Start the work on the file with this index: a permit is taken.
    Start { index: usize },
    /// Every permit is taken, or nothing may be started: wait for a result.
    Wait,
    /// Nothing runs and nothing is left to start.
    Done,
}

/// The pool, as the laws see it.
pub struct Pool {
    /// The files of the run, in the order in which they are started.
    pub files: Seq<Seq<char>>,
    /// How many validations may run at the same time.
    pub limit: nat,
    /// Whether the first result that is not `Valid` stops the scheduling.
    pub fail_fast: bool,
    /// How many files have been started.
    pub started: nat,
    /// How many validations run.
    pub in_flight: nat,
    /// Whether the scheduling has been stopped.
    pub stopped: bool,
    /// The results that have come in, in the order of their coming.
    pub outcomes: Seq<FileValidationResult>,
    /// For each result, the index of the file that it is the result of.
    pub origin: Seq<int>,
}

impl Pool {
    /// The pool before anything was started.
    pub open spec fn fresh(files: Seq<Seq<char>>, limit: nat, fail_fast: bool) -> Pool {
        Pool {
            files,
            limit,
            fail_fast,
            started: 0,
            in_flight: 0,
            stopped: false,
            outcomes: Seq::empty(),
            origin: Seq::empty(),
        }
    }

    /// How many files there are.
    pub open spec fn total(self) -> nat {
        self.files.len()
    }

    /// Whether one of the results is not `Valid`.
    pub open spec fn has_failure(self) -> bool {
        exists|i: int| 0 <= i < self.outcomes.len() && !((#[trigger] self.outcomes[i]).status is Valid)
    }

    /// Whether the file with the index `index` was started and has no
    /// result yet.
    pub open spec fn runs(self, index: int) -> bool {
        0 <= index < self.started && !self.origin.contains(index)
    }

    /// What holds of a pool at all times: there is at least one permit and
    /// no more validations run than there are permits; every file started
    /// either runs or has its result; the scheduling is stopped exactly
    /// when the pool is fail-fast and a result is not `Valid`; and every
    /// result is that of a file that was started, bears that file's path,
    /// and is the only result of that file.
    pub open spec fn in_order(self) -> bool {
        &&& self.limit >= 1
        &&& self.in_flight <= self.limit
        &&& self.started <= self.total()
        &&& self.outcomes.len() + self.in_flight == self.started
        &&& self.stopped <==> self.fail_fast && self.has_failure()
        &&& self.origin.len() == self.outcomes.len()
        &&& self.origin.no_duplicates()
        &&& forall|k: int|
            0 <= k < self.origin.len() ==> 0 <= #[trigger] self.origin[k] < self.started
                && self.outcomes[k].path@ == self.files[self.origin[k]]
    }

    /// Whether a file may be started: the scheduling goes on, a file is
    /// left, and a permit is free.
    pub open spec fn may_start(self) -> bool {
        !self.stopped && self.started < self.total() && self.in_flight < self.limit
    }

    /// What the driver is told.
    pub open spec fn dispatch(self) -> Dispatch {
        if self.may_start() {
            Dispatch::Start { index: self.started as usize }
        } else if self.in_flight > 0 {
            Dispatch::Wait
        } else {
            Dispatch::Done
        }
    }

    /// The pool after the driver was told.
    pub open spec fn dispatched(self) -> Pool {
        if self.may_start() {
            Pool { started: self.started + 1, in_flight: self.in_flight + 1, ..self }
        } else {
            self
        }
    }

    /// The pool after `k` turns of the driver without a result coming in.
    pub open spec fn dispatched_times(self, k: nat) -> Pool
        decreases k,
    {
        if k == 0 {
            self
        } else {
            self.dispatched().dispatched_times((k - 1) as nat)
        }
    }

    /// The pool after the result `outcome` of the file with the index
    /// `index` came in.
    pub open spec fn recorded(self, index: int, outcome: FileValidationResult) -> Pool {
        Pool {
            in_flight: (self.in_flight - 1) as nat,
            stopped: self.stopped || (self.fail_fast && !(outcome.status is Valid)),
            outcomes: self.outcomes.push(outcome),
            origin: self.origin.push(index),
            ..self
        }
    }

    /// Whether the file with the index `index` has exactly one result, and
    /// that result bears the file's path.
    pub open spec fn has_its_result(self, index: int) -> bool {
        exists|k: int|
            0 <= k < self.outcomes.len() && #[trigger] self.origin[k] == index
                && self.outcomes[k].path@ == self.files[index] && forall|other: int|
                0 <= other < self.outcomes.len() && self.origin[other] == index ==> other == k
    }
}

/// The pool of validations of one run.
pub struct Scheduler {
    files: Vec<String>,
    limit: usize,
    fail_fast: bool,
    started: usize,
    in_flight: usize,
    stopped: bool,
    results: Vec<FileValidationResult>,
    origin: Vec<usize>,
    settled: Vec<bool>,
}

impl View for Scheduler {
    type V = Pool;

    closed spec fn view(&self) -> Pool {
        Pool {
            files: self.files.deep_view(),
            limit: self.limit as nat,
            fail_fast: self.fail_fast,
            started: self.started as nat,
            in_flight: self.in_flight as nat,
            stopped: self.stopped,
            outcomes: self.results@,
            origin: self.origin@.map_values(|i: usize| i as int),
        }
    }
}

impl Scheduler {
    /// Whether the pool is in order and knows of each file whether it has
    /// its result.
    pub closed spec fn well_formed(&self) -> bool {
        &&& self@.in_order()
        &&& self.settled@.len() == self.files@.len()
        &&& forall|i: int|
            0 <= i < self.settled@.len() ==> (#[trigger] self.settled@[i] <==> self@.origin.contains(
                i,
            ))
    }

    /// The pool for the files `files` under the configuration `config`.
    pub fn new(files: Vec<String>, config: &ValidationConfig) -> (s: Scheduler)
        requires
            config.max_concurrent_validations >= 1,
        ensures
            s@ == Pool::fresh(
                files.deep_view(),
                config.max_concurrent_validations as nat,
                config.fail_fast,
            ),
            s@.in_order(),
            s.well_formed(),
    {
        let mut settled: Vec<bool> = Vec::new();
        let mut i: usize = 0;
        while i < files.len()
            invariant
                i <= files@.len(),
                settled@.len() == i,
                forall|k: int| 0 <= k < i ==> !(#[trigger] settled@[k]),
            decreases files@.len() - i,
        {
            settled.push(false);
            i = i + 1;
        }
        let s = Scheduler {
            files,
            limit: config.max_concurrent_validations,
            fail_fast: config.fail_fast,
            started: 0,
            in_flight: 0,
            stopped: false,
            results: Vec::new(),
            origin: Vec::new(),
            settled,
        };
        assert(s@.origin =~= Seq::<int>::empty());
        assert(!s@.has_failure());
        s
    }

    /// How many files there are.
    pub fn total(&self) -> (n: usize)
        ensures
            n == self@.total(),
    {
        self.files.len()
    }

    /// The file with the index `index`.
    pub fn file(&self, index: usize) -> (path: &String)
        requires
            index < self@.total(),
        ensures
            path@ == self@.files[index as int],
    {
        &self.files[index]
    }

    /// Whether the file with the index `index` was started and has no
    /// result yet.
    pub fn is_running(&self, index: usize) -> (b: bool)
        requires
            self.well_formed(),
        ensures
            b == self@.runs(index as int),
    {
        index < self.started && !self.settled[index]
    }

    /// Tells the driver what to do next, and takes a permit where that is
    /// to start a file.
    pub fn next(&mut self) -> (d: Dispatch)
        requires
            old(self).well_formed(),
        ensures
            d == old(self)@.dispatch(),
            final(self)@ == old(self)@.dispatched(),
            final(self)@.in_order(),
            final(self).well_formed(),
    {
        proof {
            lemma_dispatched_keeps_order(self@);
        }
        if !self.stopped && self.started < self.files.len() && self.in_flight < self.limit {
            let index = self.started;
            self.started = self.started + 1;
            self.in_flight = self.in_flight + 1;
            Dispatch::Start { index }
        } else if self.in_flight > 0 {
            Dispatch::Wait
        } else {
            Dispatch::Done
        }
    }

    /// Takes in the result `outcome` of the file with the index `index`,
    /// whose validation ran, gives its permit back, and says how far the run
    /// has come.
    pub fn record(&mut self, index: usize, outcome: FileValidationResult) -> (progress:
        ValidationProgress)
        requires
            old(self).well_formed(),
            old(self)@.runs(index as int),
            outcome.path@ == old(self)@.files[index as int],
        ensures
            final(self)@ == old(self)@.recorded(index as int, outcome),
            final(self)@.in_order(),
            final(self).well_formed(),
            progress.completed == final(self)@.outcomes.len(),
            progress.total == final(self)@.total(),
            progress.phase == ValidationPhase::Validation,
            progress.current_file matches Some(p) && p@ == outcome.path@,
    {
        let ghost before = self@;
        proof {
            lemma_running_holds_a_permit(before, index as int);
        }
        let current_file = Some(outcome.path.clone());
        if self.fail_fast && !outcome.status.is_valid() {
            self.stopped = true;
        }
        self.in_flight = self.in_flight - 1;
        self.results.push(outcome);
        self.origin.push(index);
        self.settled.set(index, true);
        proof {
            lemma_recorded_keeps_order(before, index as int, outcome);
            assert(self@.origin =~= before.origin.push(index as int));
            assert(self@ == before.recorded(index as int, outcome));
            assert forall|i: int| 0 <= i < self.settled@.len() implies (#[trigger] self.settled@[i]
                <==> self@.origin.contains(i)) by {
                if i == index {
                    assert(self@.origin[before.origin.len() as int] == i);
                } else {
                    if before.origin.contains(i) {
                        let k = choose|k: int| 0 <= k < before.origin.len() && before.origin[k] == i;
                        assert(self@.origin[k] == i);
                    }
                    if self@.origin.contains(i) {
                        let k = choose|k: int| 0 <= k < self@.origin.len() && self@.origin[k] == i;
                        assert(k < before.origin.len());
                        assert(before.origin[k] == i);
                    }
                }
            }
        }
        ValidationProgress {
            current_file,
            completed: self.results.len(),
            total: self.files.len(),
            phase: ValidationPhase::Validation,
        }
    }

    /// Whether the scheduling has been stopped.
    pub fn is_stopped(&self) -> (b: bool)
        ensures
            b == self@.stopped,
    {
        self.stopped
    }

    /// How many validations run.
    pub fn in_flight(&self) -> (n: usize)
        ensures
            n == self@.in_flight,
    {
        self.in_flight
    }

    /// How many results have come in.
    pub fn completed(&self) -> (n: usize)
        ensures
            n == self@.outcomes.len(),
    {
        self.results.len()
    }

    /// The results that have come in, in the order of their coming.
    pub fn into_results(self) -> (r: Vec<FileValidationResult>)
        ensures
            r@ == self@.outcomes,
    {
        self.results
    }
}

/// A result that comes in for a file that runs, and bears that file's path,
/// leaves the pool in order.
pub proof fn lemma_recorded_keeps_order(pool: Pool, index: int, outcome: FileValidationResult)
    requires
        pool.in_order(),
        pool.in_flight > 0,
        pool.runs(index),
        outcome.path@ == pool.files[index],
    ensures
        pool.recorded(index, outcome).in_order(),
{
    let after = pool.recorded(index, outcome);
    let n = pool.outcomes.len() as int;
    assert(after.outcomes[n] == outcome);
    assert(after.origin[n] == index);
    if pool.has_failure() {
        let i = choose|i: int|
            0 <= i < pool.outcomes.len() && !((#[trigger] pool.outcomes[i]).status is Valid);
        assert(after.outcomes[i] == pool.outcomes[i]);
    }
    if after.has_failure() {
        let i = choose|i: int|
            0 <= i < after.outcomes.len() && !((#[trigger] after.outcomes[i]).status is Valid);
        if i < n {
            assert(after.outcomes[i] == pool.outcomes[i]);
        }
    }
    assert forall|k: int| 0 <= k < after.origin.len() implies 0 <= #[trigger] after.origin[k]
        < after.started && after.outcomes[k].path@ == after.files[after.origin[k]] by {
        if k < n {
            assert(after.origin[k] == pool.origin[k]);
            assert(after.outcomes[k] == pool.outcomes[k]);
        }
    }
    assert forall|i: int, j: int|
        0 <= i < after.origin.len() && 0 <= j < after.origin.len() && i != j implies after.origin[i]
        != after.origin[j] by {
        if i < n {
            assert(after.origin[i] == pool.origin[i]);
        }
        if j < n {
            assert(after.origin[j] == pool.origin[j]);
        }
    }
}

/// A turn of the driver leaves the pool in order.
pub proof fn lemma_dispatched_keeps_order(pool: Pool)
    requires
        pool.in_order(),
    ensures
        pool.dispatched().in_order(),
        forall|i: int| pool.dispatched().origin.contains(i) <==> pool.origin.contains(i),
{
    assert(pool.dispatched().outcomes == pool.outcomes);
    assert(pool.dispatched().origin == pool.origin);
    assert(pool.dispatched().has_failure() == pool.has_failure());
}

/// Bounded concurrency: in a pool that is in order, never more validations
/// run than there are permits, and a file is started only while one is free.
pub proof fn lemma_bounded(pool: Pool)
    requires
        pool.in_order(),
    ensures
        pool.in_flight <= pool.limit,
        pool.dispatch() is Start ==> pool.in_flight < pool.limit,
        pool.dispatched().in_flight <= pool.limit,
{
}

/// No file is started twice: the file that the driver is told to start is
/// the first that was never started. It has no result and does not run
/// before the turn, and it runs after it; and a result that comes in takes
/// nothing back, so that every later start is that of a later file.
pub proof fn lemma_started_afresh(pool: Pool, index: int, outcome: FileValidationResult)
    requires
        pool.in_order(),
        pool.total() <= usize::MAX,
    ensures
        pool.dispatch() matches Dispatch::Start { index: first } ==> first == pool.started
            && !pool.runs(first as int) && !pool.origin.contains(first as int)
            && pool.dispatched().runs(first as int) && pool.dispatched().started == first + 1,
        pool.recorded(index, outcome).started == pool.started,
{
    if pool.may_start() {
        if pool.origin.contains(pool.started as int) {
            let k = choose|k: int| 0 <= k < pool.origin.len() && pool.origin[k] == pool.started;
            assert(pool.origin[k] < pool.started);
        }
    }
}

/// Full use of the permits: while the scheduling goes on and at least as
/// many files are left as permits are free, the driver's next turns each
/// start a file until every permit is taken.
pub proof fn lemma_pool_fills(pool: Pool, k: nat)
    requires
        pool.in_order(),
        !pool.stopped,
        k <= pool.limit - pool.in_flight,
        k <= pool.total() - pool.started,
    ensures
        pool.dispatched_times(k).in_flight == pool.in_flight + k,
        pool.dispatched_times(k).started == pool.started + k,
        pool.dispatched_times(k).in_order(),
        k == pool.limit - pool.in_flight ==> pool.dispatched_times(k).in_flight == pool.limit,
        k > 0 ==> pool.dispatch() is Start,
    decreases k,
{
    if k > 0 {
        lemma_dispatched_keeps_order(pool);
        lemma_pool_fills(pool.dispatched(), (k - 1) as nat);
    }
}

/// A list of `n` different indices below `n` holds every index below `n`.
proof fn lemma_fills_range(origin: Seq<int>, n: nat)
    requires
        origin.no_duplicates(),
        origin.len() == n,
        forall|k: int| 0 <= k < n ==> 0 <= #[trigger] origin[k] < n,
    ensures
        forall|i: int| 0 <= i < n ==> origin.contains(i),
{
    broadcast use vstd::seq_lib::group_seq_properties;

    let held = origin.to_set();
    let range = set_int_range(0, n as int);
    origin.unique_seq_to_set();
    lemma_int_range(0, n as int);
    assert(held.subset_of(range)) by {
        assert forall|x: int| held.contains(x) implies range.contains(x) by {
            let k = choose|k: int| 0 <= k < origin.len() && origin[k] == x;
            assert(0 <= origin[k] < n);
        }
    }
    lemma_subset_equality(held, range);
    assert forall|i: int| 0 <= i < n implies origin.contains(i) by {
        assert(range.contains(i));
        assert(held.contains(i));
    }
}

/// A file that runs holds a permit: as long as a file was started and has
/// no result, a validation runs.
pub proof fn lemma_running_holds_a_permit(pool: Pool, index: int)
    requires
        pool.in_order(),
        pool.runs(index),
    ensures
        pool.in_flight > 0,
{
    if pool.in_flight == 0 {
        lemma_fills_range(pool.origin, pool.started);
    }
}

/// Coverage: when the driver is told that the run is over and the
/// scheduling was never stopped, there are as many results as files, and
/// every file has exactly one result, which bears the file's path.
pub proof fn lemma_done_covers(pool: Pool)
    requires
        pool.in_order(),
        pool.dispatch() is Done,
        !pool.stopped,
    ensures
        pool.outcomes.len() == pool.total(),
        forall|index: int| 0 <= index < pool.total() ==> #[trigger] pool.has_its_result(index),
{
    lemma_fills_range(pool.origin, pool.total());
    assert forall|index: int| 0 <= index < pool.total() implies #[trigger] pool.has_its_result(
        index,
    ) by {
        assert(pool.origin.contains(index));
        let k = choose|k: int| 0 <= k < pool.origin.len() && pool.origin[k] == index;
        assert(pool.origin[k] == index);
    }
}

/// Every result that a pool in order holds is the only result of a file of
/// the run, and bears that file's path: no file is counted twice, and no
/// result is counted that is not a file's.
pub proof fn lemma_results_are_files(pool: Pool, k: int)
    requires
        pool.in_order(),
        0 <= k < pool.outcomes.len(),
    ensures
        0 <= pool.origin[k] < pool.total(),
        pool.outcomes[k].path@ == pool.files[pool.origin[k]],
        pool.has_its_result(pool.origin[k]),
{
}

/// Fail-fast: once a fail-fast pool holds a result that is not `Valid`, no
/// file is started any more, whatever comes in afterwards; what runs may
/// still hand in its result.
pub proof fn lemma_fail_fast(pool: Pool)
    requires
        pool.in_order(),
        pool.fail_fast,
        pool.has_failure(),
    ensures
        !(pool.dispatch() is Start),
        pool.dispatched() == pool,
        forall|index: int, outcome: FileValidationResult|
            pool.in_flight > 0 ==> (#[trigger] pool.recorded(index, outcome)).has_failure()
                && pool.recorded(index, outcome).stopped,
{
    assert forall|index: int, outcome: FileValidationResult| pool.in_flight > 0 implies (
    #[trigger] pool.recorded(index, outcome)).has_failure() && pool.recorded(
        index,
        outcome,
    ).stopped by {
        let i = choose|i: int|
            0 <= i < pool.outcomes.len() && !((#[trigger] pool.outcomes[i]).status is Valid);
        assert(pool.recorded(index, outcome).outcomes[i] == pool.outcomes[i]);
    }
}

/// Without fail-fast a result that is not `Valid` stops nothing, and the
/// results that came in before stay as they are.
pub proof fn lemma_others_unaffected(pool: Pool, index: int, outcome: FileValidationResult)
    requires
        pool.in_order(),
        pool.in_flight > 0,
    ensures
        pool.recorded(index, outcome).outcomes.take(pool.outcomes.len() as int) == pool.outcomes,
        !pool.fail_fast ==> !pool.recorded(index, outcome).stopped,
        pool.recorded(index, outcome).files == pool.files,
        pool.recorded(index, outcome).started == pool.started,
{
    assert(pool.recorded(index, outcome).outcomes.take(pool.outcomes.len() as int)
        =~= pool.outcomes);
}

} // verus!
