use vstd::prelude::*;

use crate::ensure::{next_phase, phase_action, EnsureDocument, Phase, Scope, StoreAction, StoreEvent};
use crate::stats::StatValue;
use crate::PlayerId;

verus! {

/// The counter deltas of one bundle.
pub struct StatsUpdate {
    /// Per player, the delta of each statistic.
    pub players: Vec<(PlayerId, Vec<(String, StatValue)>)>,
    /// Network-wide deltas, if the bundle carries any.
    pub global: Option<Vec<(String, StatValue)>>,
}

/// A batch of counter deltas for one namespace, sent by a game server.
pub struct GameStatsBundle {
    pub namespace: String,
    pub stats: StatsUpdate,
}

/// The request to ingest a bundle.
pub struct UploadStatsBundle(pub GameStatsBundle);

/// The increments for one counter document of a bundle.
pub struct UploadJob {
    pub scope: Scope,
    pub increments: Vec<(String, StatValue)>,
}

/// The jobs of a bundle: one per player, the players taken from the last, then
/// one for the network-wide deltas if there are any.
pub open spec fn bundle_jobs_ok(b: GameStatsBundle, jobs: Seq<UploadJob>) -> bool {
    let players = b.stats.players@;
    let n = players.len() as int;
    &&& jobs.len() == n + if b.stats.global is Some { 1int } else { 0int }
    &&& forall|i: int|
        0 <= i < n ==> #[trigger] jobs[i].scope == Scope::Player(players[n - 1 - i].0)
            && jobs[i].increments@ == players[n - 1 - i].1@
    &&& b.stats.global matches Some(g) ==> jobs[n].scope == Scope::Global && jobs[n].increments@
        == g@
}

/// Splits a bundle into the jobs of its counter documents.
pub fn bundle_jobs(bundle: GameStatsBundle) -> (jobs: Vec<UploadJob>)
    ensures
        bundle_jobs_ok(bundle, jobs@),
{
    let GameStatsBundle { namespace: _, stats } = bundle;
    let StatsUpdate { players, global } = stats;
    let ghost all = players@;
    let mut players = players;
    let mut jobs: Vec<UploadJob> = Vec::new();
    while players.len() > 0
        invariant
            players@ == all.subrange(0, players@.len() as int),
            jobs@.len() + players@.len() == all.len(),
            forall|i: int|
                0 <= i < jobs@.len() ==> #[trigger] jobs@[i].scope == Scope::Player(
                    all[all.len() - 1 - i].0,
                ) && jobs@[i].increments@ == all[all.len() - 1 - i].1@,
        decreases players@.len(),
    {
        let (player, increments) = players.pop().unwrap();
        assert(players@ == all.subrange(0, players@.len() as int));
        jobs.push(UploadJob { scope: Scope::Player(player), increments });
    }
    match global {
        Some(g) => jobs.push(UploadJob { scope: Scope::Global, increments: g }),
        None => {},
    }
    jobs
}

/// What an upload asks of the store next.
pub enum UploadStep {
    /// A request of the ensure run of the document of `scope`.
    Ensure(Scope, StoreAction),
    /// Add `delta` to the statistic `stat` of the document of `scope`.
    Increment(Scope, String, StatValue),
}

/// A bundle upload in progress: for each job in turn, an ensure run on its
/// document and then its increments. A job that fails is counted and left;
/// the next one goes ahead, and increments already made stay.
pub struct BundleUpload {
    pub namespace: String,
    pub jobs: Vec<UploadJob>,
    /// The job at hand; all jobs are done once it reaches their number.
    pub job: usize,
    /// The ensure run of the job at hand.
    pub ensure: EnsureDocument,
    /// The increment at hand, once the job's document is ensured.
    pub increment: Option<usize>,
    /// How many jobs have failed.
    pub failures: usize,
}

impl BundleUpload {
    pub open spec fn wf(self) -> bool {
        &&& self.job <= self.jobs@.len()
        &&& self.failures <= self.job
        &&& self.job < self.jobs@.len() ==> {
            &&& self.ensure.scope == self.jobs@[self.job as int].scope
            &&& self.ensure.namespace == self.namespace
            &&& match self.increment {
                None => !self.ensure.phase.is_terminal(),
                Some(k) => k < self.jobs@[self.job as int].increments@.len(),
            }
        }
    }

    /// The state once the job at hand is left: the next one starts from its ensure run.
    pub open spec fn moved_on(self, next: BundleUpload, failed: bool) -> bool {
        &&& next.job == self.job + 1
        &&& next.failures == self.failures + if failed { 1int } else { 0int }
        &&& next.increment is None
        &&& next.job < next.jobs@.len() ==> next.ensure.phase == Phase::Start
    }

    /// How the upload moves on when the store answers `event` to its last step.
    pub open spec fn steps_to(self, next: BundleUpload, event: StoreEvent) -> bool {
        &&& self.job >= self.jobs@.len() ==> next == self
        &&& self.job < self.jobs@.len() ==> match self.increment {
                None => {
                    let p = next_phase(self.ensure.scope, self.ensure.phase, event);
                    let n = self.jobs@[self.job as int].increments@.len();
                    if p is Failed {
                        self.moved_on(next, true)
                    } else if p is Succeeded && n == 0 {
                        self.moved_on(next, false)
                    } else if p is Succeeded {
                        next.job == self.job && next.failures == self.failures
                            && next.increment == Some(0usize)
                    } else {
                        next.job == self.job && next.failures == self.failures
                            && next.increment is None && next.ensure.phase == p
                    }
                },
                Some(k) => {
                    let n = self.jobs@[self.job as int].increments@.len();
                    if event != StoreEvent::Done {
                        self.moved_on(next, true)
                    } else if k + 1 == n {
                        self.moved_on(next, false)
                    } else {
                        next.job == self.job && next.failures == self.failures
                            && next.increment == Some((k + 1) as usize)
                    }
                },
    }
    }

    fn start_job(namespace: &String, jobs: &Vec<UploadJob>, job: usize) -> (r: EnsureDocument)
        requires
            job < jobs@.len(),
        ensures
            r.scope == jobs@[job as int].scope,
            r.namespace == *namespace,
            r.phase == Phase::Start,
    {
        EnsureDocument::new(jobs[job].scope, namespace.clone())
    }

    /// Starts the upload of a bundle.
    pub fn new(bundle: GameStatsBundle) -> (r: BundleUpload)
        ensures
            r.wf(),
            r.namespace == bundle.namespace,
            bundle_jobs_ok(bundle, r.jobs@),
            r.job == 0,
            r.failures == 0,
            r.increment is None,
            r.jobs@.len() > 0 ==> r.ensure.phase == Phase::Start,
    {
        let namespace = bundle.namespace.clone();
        let jobs = bundle_jobs(bundle);
        let ensure = if jobs.len() > 0 {
            Self::start_job(&namespace, &jobs, 0)
        } else {
            EnsureDocument::new(Scope::Global, namespace.clone())
        };
        BundleUpload { namespace, jobs, job: 0, ensure, increment: None, failures: 0 }
    }

    /// Whether every job has been done or has failed.
    pub fn finished(&self) -> (r: bool)
        ensures
            r == (self.job >= self.jobs@.len()),
    {
        self.job >= self.jobs.len()
    }

    /// The next request to the store, or `None` once the upload has finished.
    pub fn step(&self) -> (r: Option<UploadStep>)
        requires
            self.wf(),
        ensures
            self.job >= self.jobs@.len() ==> r is None,
            self.job < self.jobs@.len() ==> match self.increment {
                None => r matches Some(UploadStep::Ensure(scope, a)) && scope == self.ensure.scope
                    && phase_action(self.ensure.scope, self.ensure.phase) == Some(a),
                Some(k) => r matches Some(UploadStep::Increment(scope, stat, delta)) && scope
                    == self.ensure.scope && (stat, delta) == self.jobs@[self.job as int].increments@[k as int],
            },
    {
        if self.job >= self.jobs.len() {
            return None;
        }
        match self.increment {
            None => match self.ensure.action() {
                Some(a) => Some(UploadStep::Ensure(self.ensure.scope, a)),
                None => None,
            },
            Some(k) => {
                let (stat, delta) = &self.jobs[self.job].increments[k];
                Some(UploadStep::Increment(self.ensure.scope, stat.clone(), *delta))
            },
        }
    }

    fn leave_job(&mut self, failed: bool)
        requires
            old(self).failures <= old(self).job,
            old(self).job < old(self).jobs@.len(),
        ensures
            final(self).wf(),
            final(self).namespace == old(self).namespace,
            final(self).jobs == old(self).jobs,
            old(self).moved_on(*final(self), failed),
    {
        let len = self.jobs.len();
        assert(self.job < len);
        self.job = self.job + 1;
        if failed {
            self.failures = self.failures + 1;
        }
        self.increment = None;
        if self.job < self.jobs.len() {
            self.ensure = Self::start_job(&self.namespace, &self.jobs, self.job);
        }
    }

    /// Takes the store's answer to the last step.
    pub fn advance(&mut self, event: StoreEvent)
        requires
            old(self).wf(),
        ensures
            final(self).wf(),
            final(self).namespace == old(self).namespace,
            final(self).jobs == old(self).jobs,
            old(self).steps_to(*final(self), event),
    {
        if self.job >= self.jobs.len() {
            return;
        }
        match self.increment {
            None => {
                self.ensure.advance(event);
                match self.ensure.phase {
                    Phase::Failed => self.leave_job(true),
                    Phase::Succeeded => {
                        if self.jobs[self.job].increments.len() == 0 {
                            self.leave_job(false);
                        } else {
                            self.increment = Some(0);
                        }
                    },
                    _ => {},
                }
            },
            Some(k) => {
                let done = match event {
                    StoreEvent::Done => true,
                    _ => false,
                };
                if !done {
                    self.leave_job(true);
                } else if k == self.jobs[self.job].increments.len() - 1 {
                    self.leave_job(false);
                } else {
                    self.increment = Some(k + 1);
                }
            },
        }
    }
}

/// A job whose request fails is counted and left, and the next job starts from
/// a fresh ensure run of its own document: a failure for one player never
/// keeps the other players' increments of the bundle from being made.
pub proof fn lemma_failure_isolated(u: BundleUpload, next: BundleUpload)
    requires
        u.wf(),
        next.wf(),
        next.jobs == u.jobs,
        u.job < u.jobs@.len(),
        u.steps_to(next, StoreEvent::Failed),
    ensures
        next.job == u.job + 1,
        next.failures == u.failures + 1,
        next.increment is None,
        next.job < next.jobs@.len() ==> next.ensure.phase == Phase::Start
            && next.ensure.scope == u.jobs@[next.job as int].scope,
{
}

} // verus!
