use vstd::prelude::*;

use crate::migrate::{valid_versions, Registry};

verus! {

/// A migration script failed; later migrations were not attempted.
#[derive(Debug)]
pub struct ApplyError {
    pub version: u64,
    pub message: String,
}

/// What the store has to do next.
#[derive(Debug, Clone, Copy, PartialEq, Eq, Structural)]
pub enum RunnerStep {
    /// Run the script of the migration at `index` and, in the same unit of
    /// work, record `version` as the applied version.
    Execute { index: usize, version: u64 },
    /// Every pending migration has been applied.
    Finished,
    /// The migration with this version failed.
    Halted { version: u64 },
}

/// The applied version after every pending migration has succeeded.
pub open spec fn full_run(vs: Seq<u64>, applied: u64) -> u64 {
    if vs.len() > 0 && vs.last() > applied {
        vs.last()
    } else {
        applied
    }
}

/// `first` is where the migrations newer than `applied` begin.
pub open spec fn splits_at(vs: Seq<u64>, applied: u64, first: int) -> bool {
    &&& 0 <= first <= vs.len()
    &&& forall|i: int| 0 <= i < vs.len() ==> (#[trigger] vs[i] > applied <==> i >= first)
}

/// Applying a registry's migrations to a store: the store is read for its
/// applied version, then each migration newer than it is executed in
/// ascending order, stopping at the first failure.
pub struct MigrationRunner {
    applied_version: u64,
    next: usize,
    failure: Option<ApplyError>,
    start: Ghost<u64>,
    first: Ghost<int>,
}

impl MigrationRunner {
    /// The applied version read from the store when the run began.
    pub closed spec fn start(&self) -> u64 {
        self.start@
    }

    pub closed spec fn applied(&self) -> u64 {
        self.applied_version
    }

    /// Index of the next migration to execute.
    pub closed spec fn next(&self) -> int {
        self.next as int
    }

    /// Index of the first migration that was pending when the run began.
    pub closed spec fn first(&self) -> int {
        self.first@
    }

    pub closed spec fn halted(&self) -> bool {
        self.failure is Some
    }

    /// The message that the failed migration was reported with.
    pub closed spec fn failure_message(&self) -> Seq<char> {
        match self.failure {
            Some(e) => e.message@,
            None => Seq::empty(),
        }
    }

    /// Versions executed successfully during this run, in order.
    pub open spec fn executed(&self, vs: Seq<u64>) -> Seq<u64> {
        vs.subrange(self.first(), self.next())
    }

    pub closed spec fn wf(&self, reg: &Registry) -> bool {
        let vs = reg.versions();
        &&& reg.wf()
        &&& splits_at(vs, self.start@, self.first@)
        &&& self.first@ <= self.next <= vs.len() <= usize::MAX
        &&& self.applied_version == if self.next == self.first@ {
            self.start@
        } else {
            vs[self.next - 1]
        }
        &&& self.failure matches Some(e) ==> self.next < vs.len() && e.version == vs[self.next as int]
    }

    /// Starts a run on a store whose applied version is `applied_version`
    /// (zero for a store that has never been migrated).
    pub fn new(reg: &Registry, applied_version: u64) -> (r: MigrationRunner)
        requires
            reg.wf(),
        ensures
            r.wf(reg),
            r.start() == applied_version,
            r.applied() == applied_version,
            r.next() == r.first(),
            0 <= r.next() <= reg.versions().len(),
            !r.halted(),
            forall|i: int|
                0 <= i < reg.versions().len() ==> (#[trigger] reg.versions()[i] > applied_version
                    <==> i >= r.next()),
    {
        let ghost vs = reg.versions();
        let n = reg.len();
        let mut i: usize = 0;
        while i < n && reg.get(i).version <= applied_version
            invariant
                n == vs.len(),
                reg.wf(),
                valid_versions(vs),
                vs == reg.versions(),
                i <= n,
                forall|k: int| 0 <= k < i ==> #[trigger] vs[k] <= applied_version,
            decreases n - i,
        {
            i = i + 1;
        }
        proof {
            assert forall|k: int| 0 <= k < vs.len() implies (#[trigger] vs[k] > applied_version
                <==> k >= i) by {
                if k > i {
                    assert(vs[i as int] < vs[k]);
                }
            }
        }
        MigrationRunner {
            applied_version,
            next: i,
            failure: None,
            start: Ghost(applied_version),
            first: Ghost(i as int),
        }
    }

    /// What the store has to do next.
    pub fn next_step(&self, reg: &Registry) -> (r: RunnerStep)
        requires
            self.wf(reg),
        ensures
            self.halted() ==> r == (RunnerStep::Halted { version: reg.versions()[self.next()] }),
            !self.halted() && self.next() < reg.versions().len() ==> r == (RunnerStep::Execute {
                index: self.next() as usize,
                version: reg.versions()[self.next()],
            }),
            !self.halted() && self.next() >= reg.versions().len() ==> r == RunnerStep::Finished,
            r == RunnerStep::Finished ==> self.applied() == full_run(reg.versions(), self.start()),
            r == RunnerStep::Finished ==> self.executed(reg.versions()) == reg.versions().subrange(
                self.first(),
                reg.versions().len() as int,
            ),
    {
        let ghost vs = reg.versions();
        match &self.failure {
            Some(e) => RunnerStep::Halted { version: e.version },
            None => {
                if self.next < reg.len() {
                    RunnerStep::Execute { index: self.next, version: reg.get(self.next).version }
                } else {
                    proof {
                        if vs.len() > 0 && vs.last() > self.start@ {
                            assert(vs[vs.len() - 1] > self.start@);
                        } else if self.next as int != self.first@ {
                            assert(vs[self.next - 1] > self.start@);
                        }
                    }
                    RunnerStep::Finished
                }
            },
        }
    }

    /// The migration at `next()` ran and its version was recorded.
    pub fn record_success(&mut self, reg: &Registry)
        requires
            old(self).wf(reg),
            !old(self).halted(),
            old(self).next() < reg.versions().len(),
        ensures
            final(self).wf(reg),
            final(self).start() == old(self).start(),
            final(self).first() == old(self).first(),
            !final(self).halted(),
            final(self).next() == old(self).next() + 1,
            final(self).applied() == reg.versions()[old(self).next()],
            final(self).applied() > old(self).applied(),
    {
        let ghost vs = reg.versions();
        proof {
            if self.next as int != self.first@ {
                assert(vs[self.next - 1] < vs[self.next as int]);
            }
        }
        self.applied_version = reg.get(self.next).version;
        self.next = self.next + 1;
    }

    /// The migration at `next()` failed with `message`: the run halts and the
    /// applied version stays as it was.
    pub fn record_failure(&mut self, reg: &Registry, message: String)
        requires
            old(self).wf(reg),
            !old(self).halted(),
            old(self).next() < reg.versions().len(),
        ensures
            final(self).wf(reg),
            final(self).start() == old(self).start(),
            final(self).first() == old(self).first(),
            final(self).halted(),
            final(self).failure_message() == message@,
            final(self).next() == old(self).next(),
            final(self).applied() == old(self).applied(),
    {
        let version = reg.get(self.next).version;
        self.failure = Some(ApplyError { version, message });
    }

    pub fn applied_version(&self) -> (r: u64)
        ensures
            r == self.applied(),
    {
        self.applied_version
    }

    /// The result of a run that has stopped: `Ok` with the applied version, or
    /// the failure that halted it.
    pub fn finish(self, reg: &Registry) -> (r: Result<u64, ApplyError>)
        requires
            self.wf(reg),
            self.halted() || self.next() >= reg.versions().len(),
        ensures
            !self.halted() <==> r is Ok,
            r matches Ok(v) ==> v == self.applied() && v == full_run(reg.versions(), self.start()),
            r matches Err(e) ==> e.version == reg.versions()[self.next()] && e.message@
                == self.failure_message(),
    {
        let ghost vs = reg.versions();
        match self.failure {
            Some(e) => Err(e),
            None => {
                proof {
                    if vs.len() > 0 && vs.last() > self.start@ {
                        assert(vs[vs.len() - 1] > self.start@);
                    } else if self.next as int != self.first@ {
                        assert(vs[self.next - 1] > self.start@);
                    }
                }
                Ok(self.applied_version)
            },
        }
    }

    /// Properties that hold in every state of a run.
    pub proof fn lemma_state(&self, reg: &Registry)
        requires
            self.wf(reg),
        ensures
            reg.wf(),
            self.applied() >= self.start(),
            self.applied() == self.start() || reg.versions().contains(self.applied()),
            0 <= self.first() <= self.next() <= reg.versions().len(),
    {
        let vs = reg.versions();
        if self.next as int != self.first@ {
            assert(vs[self.next - 1] > self.start@);
            assert(vs.contains(vs[self.next - 1]));
        }
    }
}

/// Running every pending migration and then running again changes nothing:
/// the second run starts with no migration newer than the applied version,
/// so it executes nothing and leaves the applied version as the first left it.
pub proof fn lemma_apply_twice(vs: Seq<u64>, applied: u64)
    requires
        valid_versions(vs),
    ensures
        full_run(vs, full_run(vs, applied)) == full_run(vs, applied),
        splits_at(vs, full_run(vs, applied), vs.len() as int),
{
    let v = full_run(vs, applied);
    assert forall|i: int| 0 <= i < vs.len() implies !(#[trigger] vs[i] > v) by {
        if i < vs.len() - 1 {
            assert(vs[i] < vs[vs.len() - 1]);
        }
    }
}

/// A successful run never lowers the applied version, and ends either where
/// it started or on a version of the registry.
pub proof fn lemma_full_run_monotone(vs: Seq<u64>, applied: u64)
    requires
        valid_versions(vs),
    ensures
        full_run(vs, applied) >= applied,
        full_run(vs, applied) == applied || vs.contains(full_run(vs, applied)),
{
    if vs.len() > 0 && vs.last() > applied {
        assert(vs[vs.len() - 1] == vs.last());
    }
}

proof fn lemma_chain(runs: Seq<MigrationRunner>, k: int, l: int)
    requires
        0 <= k <= l < runs.len(),
        forall|j: int| 0 <= j < runs.len() ==> (#[trigger] runs[j]).applied() >= runs[j].start(),
        forall|j: int| 0 < j < runs.len() ==> (#[trigger] runs[j]).start() == runs[j - 1].applied(),
    ensures
        runs[k].applied() <= runs[l].applied(),
    decreases l - k,
{
    if k < l {
        lemma_chain(runs, k, l - 1);
        assert(runs[l].start() == runs[l - 1].applied());
    }
}

proof fn lemma_chain_in_registry(vs: Seq<u64>, runs: Seq<MigrationRunner>, k: int)
    requires
        0 <= k < runs.len(),
        runs[0].start() == 0,
        forall|j: int|
            0 <= j < runs.len() ==> (#[trigger] runs[j]).applied() == runs[j].start()
                || vs.contains(runs[j].applied()),
        forall|j: int| 0 < j < runs.len() ==> (#[trigger] runs[j]).start() == runs[j - 1].applied(),
    ensures
        runs[k].applied() == 0 || vs.contains(runs[k].applied()),
    decreases k,
{
    assert(runs[k].applied() == runs[k].start() || vs.contains(runs[k].applied()));
    if k > 0 {
        lemma_chain_in_registry(vs, runs, k - 1);
        assert(runs[k].start() == runs[k - 1].applied());
    }
}

/// Over any sequence of runs on one store, each starting from the version the
/// previous one left and the first from an empty store, the applied version
/// never decreases and is always zero or a version of the registry.
pub proof fn lemma_runs_monotone(reg: &Registry, runs: Seq<MigrationRunner>)
    requires
        runs.len() > 0,
        runs[0].start() == 0,
        forall|k: int| 0 <= k < runs.len() ==> (#[trigger] runs[k]).wf(reg),
        forall|k: int| 0 < k < runs.len() ==> (#[trigger] runs[k]).start() == runs[k - 1].applied(),
    ensures
        forall|k: int, l: int| 0 <= k <= l < runs.len() ==> (#[trigger] runs[k]).applied() <= (
        #[trigger] runs[l]).applied(),
        forall|k: int|
            0 <= k < runs.len() ==> (#[trigger] runs[k]).applied() == 0
                || reg.versions().contains(runs[k].applied()),
{
    assert forall|j: int| 0 <= j < runs.len() implies (#[trigger] runs[j]).applied()
        >= runs[j].start() && (runs[j].applied() == runs[j].start() || reg.versions().contains(
        runs[j].applied())) by {
        runs[j].lemma_state(reg);
    }
    assert forall|k: int, l: int| 0 <= k <= l < runs.len() implies (#[trigger] runs[k]).applied()
        <= (#[trigger] runs[l]).applied() by {
        lemma_chain(runs, k, l);
    }
    assert forall|k: int| 0 <= k < runs.len() implies (#[trigger] runs[k]).applied() == 0
        || reg.versions().contains(runs[k].applied()) by {
        lemma_chain_in_registry(reg.versions(), runs, k);
    }
}

} // verus!
