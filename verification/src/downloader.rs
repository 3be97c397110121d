//! The download scheduler: at most a fixed number of downloads run at once,
//! the most recently requested one goes first, and no source is fetched twice.

use vstd::prelude::*;
use vstd::string::*;
use crate::registry::{after_claim, may_claim, EnqueueRegistry, PriorityGate, WorkerPool};

verus! {

/// Terminal outcome of one download task.
#[derive(Debug)]
pub enum DownloadResult {
    Completed { source_id: String, file_path: String },
    Failed { source_id: String },
}

impl DownloadResult {
    /// The source that the result is about.
    pub open spec fn id_view(&self) -> Seq<char> {
        match self {
            DownloadResult::Completed { source_id, .. } => source_id@,
            DownloadResult::Failed { source_id } => source_id@,
        }
    }

    /// The source that the result is about.
    pub fn source_id(&self) -> (id: &str)
        ensures
            id@ == self.id_view(),
    {
        match self {
            DownloadResult::Completed { source_id, .. } => source_id.as_str(),
            DownloadResult::Failed { source_id } => source_id.as_str(),
        }
    }
}

/// What a task learns when it asks to start its download.
#[derive(Clone, Copy, Debug, PartialEq, Eq, Structural)]
pub enum StartOutcome {
    /// The task holds a permit and has priority: it may spawn its process.
    Started,
    /// Every permit is taken.
    NoPermit,
    /// A permit was free, but a more recent request goes first; the permit
    /// went back to the pool.
    Outranked,
}

/// The scheduler as contracts see it.
pub struct SchedulerView {
    /// Sources in flight or with a result not yet picked up.
    pub enqueued: Set<Seq<char>>,
    /// The most recent request that has not been granted priority.
    pub latest: Option<Seq<char>>,
    /// Number of permits.
    pub capacity: nat,
    /// Number of permits held by running downloads.
    pub active: nat,
}

/// One call on the scheduler, for statements about sequences of calls.
pub enum SchedulerOp {
    Request(Seq<char>),
    TryStart(Seq<char>),
    Finish,
    Acknowledge(Seq<char>),
}

impl SchedulerView {
    /// Never more downloads running than there are permits.
    pub open spec fn wf(self) -> bool {
        self.active <= self.capacity
    }

    /// Whether a request for `id` starts a new task (it is not enqueued yet).
    pub open spec fn accepts(self, id: Seq<char>) -> bool {
        !self.enqueued.contains(id)
    }

    /// The scheduler after a request for `id`.
    pub open spec fn request(self, id: Seq<char>) -> Self {
        SchedulerView { enqueued: self.enqueued.insert(id), latest: Some(id), ..self }
    }

    /// What a task for `id` is told when it asks to start.
    pub open spec fn start_outcome(self, id: Seq<char>) -> StartOutcome {
        if self.active >= self.capacity {
            StartOutcome::NoPermit
        } else if may_claim(self.latest, id) {
            StartOutcome::Started
        } else {
            StartOutcome::Outranked
        }
    }

    /// The scheduler after a task for `id` asked to start.
    pub open spec fn try_start(self, id: Seq<char>) -> Self {
        if self.start_outcome(id) == StartOutcome::Started {
            SchedulerView { latest: after_claim(self.latest, id), active: self.active + 1, ..self }
        } else {
            self
        }
    }

    /// The scheduler after a running download gave its permit back.
    pub open spec fn finish(self) -> Self {
        SchedulerView {
            active: if self.active > 0 {
                (self.active - 1) as nat
            } else {
                0
            },
            ..self
        }
    }

    /// The scheduler after the result for `id` was picked up.
    pub open spec fn acknowledge(self, id: Seq<char>) -> Self {
        SchedulerView {
            enqueued: self.enqueued.remove(id),
            latest: after_claim(self.latest, id),
            ..self
        }
    }

    /// The scheduler after one call.
    pub open spec fn apply(self, op: SchedulerOp) -> Self {
        match op {
            SchedulerOp::Request(id) => self.request(id),
            SchedulerOp::TryStart(id) => self.try_start(id),
            SchedulerOp::Finish => self.finish(),
            SchedulerOp::Acknowledge(id) => self.acknowledge(id),
        }
    }

    /// The scheduler after a sequence of calls, first to last.
    pub open spec fn run(self, ops: Seq<SchedulerOp>) -> Self
        decreases ops.len(),
    {
        if ops.len() == 0 {
            self
        } else {
            self.run(ops.drop_last()).apply(ops.last())
        }
    }
}

/// Client-side scheduler for downloads of remote audio sources.
///
/// It remembers which sources are enqueued, so that none is downloaded twice,
/// and lets the most recently requested one start first.
pub struct Downloader {
    pool: WorkerPool,
    registry: EnqueueRegistry,
    gate: PriorityGate,
}

impl Downloader {
    pub closed spec fn view(&self) -> SchedulerView {
        SchedulerView {
            enqueued: self.registry@,
            latest: self.gate@,
            capacity: self.pool.capacity_view(),
            active: self.pool.in_use_view(),
        }
    }

    /// The parts are well formed; then so is the view.
    pub closed spec fn wf(&self) -> bool {
        &&& self.pool.wf()
        &&& self.registry.wf()
    }

    /// A well-formed scheduler never runs more downloads than it has permits.
    pub proof fn lemma_wf_view(&self)
        requires
            self.wf(),
        ensures
            self@.wf(),
    {
    }

    /// A scheduler that lets up to `max_downloads` downloads run at once.
    pub fn new(max_downloads: usize) -> (d: Self)
        ensures
            d.wf(),
            d@ == (SchedulerView {
                enqueued: Set::empty(),
                latest: None,
                capacity: max_downloads as nat,
                active: 0,
            }),
    {
        Downloader {
            pool: WorkerPool::new(max_downloads),
            registry: EnqueueRegistry::new(),
            gate: PriorityGate::new(),
        }
    }

    /// Records a request for `id`: it becomes the most recent request in any
    /// case, and it is enqueued unless it already was. Returns whether a new
    /// download task is owed (`false`: the request is a duplicate).
    pub fn request(&mut self, id: &str) -> (fresh: bool)
        requires
            old(self).wf(),
        ensures
            final(self).wf(),
            fresh == old(self)@.accepts(id@),
            final(self)@ == old(self)@.request(id@),
    {
        self.gate.set_latest(id);
        self.registry.try_register(id)
    }

    /// Asks to start the download of `id`: takes a permit if one is free and
    /// keeps it only if no more recent request is waiting.
    pub fn try_start(&mut self, id: &str) -> (outcome: StartOutcome)
        requires
            old(self).wf(),
        ensures
            final(self).wf(),
            outcome == old(self)@.start_outcome(id@),
            final(self)@ == old(self)@.try_start(id@),
    {
        if !self.pool.try_acquire() {
            return StartOutcome::NoPermit;
        }
        if self.gate.try_claim(id) {
            StartOutcome::Started
        } else {
            self.pool.release();
            StartOutcome::Outranked
        }
    }

    /// Gives back the permit of a download whose process has ended or could
    /// not be spawned.
    pub fn finish(&mut self)
        requires
            old(self).wf(),
        ensures
            final(self).wf(),
            final(self)@ == old(self)@.finish(),
    {
        self.pool.release();
    }

    /// Retires `id` once its result has been picked up: it leaves the set of
    /// enqueued sources, and the priority token is cleared if it still marks
    /// `id`.
    pub fn acknowledge(&mut self, id: &str)
        requires
            old(self).wf(),
        ensures
            final(self).wf(),
            final(self)@ == old(self)@.acknowledge(id@),
    {
        self.registry.unregister(id);
        self.gate.release(id);
    }

    /// Whether `id` is in flight or waits to be picked up.
    pub fn is_enqueued(&self, id: &str) -> (r: bool)
        ensures
            r == self@.enqueued.contains(id@),
    {
        self.registry.contains(id)
    }

    /// Whether `id` is the most recent request not yet granted priority.
    pub fn is_latest(&self, id: &str) -> (r: bool)
        ensures
            r == (self@.latest == Some(id@)),
    {
        self.gate.is_latest(id)
    }

    /// Number of downloads that hold a permit.
    pub fn active(&self) -> (r: usize)
        ensures
            r == self@.active,
    {
        self.pool.in_use()
    }

    /// Number of permits.
    pub fn capacity(&self) -> (r: usize)
        ensures
            r == self@.capacity,
    {
        self.pool.capacity()
    }
}

/// Whether a call leaves the priority token alone when it marks `b`: it is
/// no request, and it is neither a start attempt nor a pick-up for `b`.
pub open spec fn keeps_token(op: SchedulerOp, b: Seq<char>) -> bool {
    match op {
        SchedulerOp::Request(_) => false,
        SchedulerOp::TryStart(x) => x != b,
        SchedulerOp::Finish => true,
        SchedulerOp::Acknowledge(x) => x != b,
    }
}

/// A source requested twice without its result being picked up in between
/// is refused the second time, whatever else the scheduler was asked
/// meanwhile.
pub proof fn lemma_duplicate_request_refused(s: SchedulerView, id: Seq<char>, ops: Seq<SchedulerOp>)
    requires
        forall|i: int| 0 <= i < ops.len() ==> ops[i] != SchedulerOp::Acknowledge(id),
    ensures
        !s.request(id).run(ops).accepts(id),
    decreases ops.len(),
{
    if ops.len() > 0 {
        let head = ops.drop_last();
        assert forall|i: int| 0 <= i < head.len() implies head[i] != SchedulerOp::Acknowledge(
            id,
        ) by {
            assert(head[i] == ops[i]);
        }
        lemma_duplicate_request_refused(s, id, head);
        assert(ops.last() == ops[ops.len() - 1]);
    }
}

/// However many requests arrive and in whatever order the tasks try to
/// start and end, the number of running downloads never exceeds the number
/// of permits, and that number never changes.
pub proof fn lemma_active_within_capacity(s: SchedulerView, ops: Seq<SchedulerOp>)
    requires
        s.wf(),
    ensures
        s.run(ops).wf(),
        s.run(ops).capacity == s.capacity,
    decreases ops.len(),
{
    if ops.len() > 0 {
        lemma_active_within_capacity(s, ops.drop_last());
    }
}

/// After requests for `a` and then for another source `b`, and until `b`
/// has started, a task for `a` is never let through, and a task for `b` is
/// let through as soon as a permit is free: the most recent request gets
/// the first freed permit.
pub proof fn lemma_latest_request_goes_first(
    s: SchedulerView,
    a: Seq<char>,
    b: Seq<char>,
    ops: Seq<SchedulerOp>,
)
    requires
        a != b,
        forall|i: int| 0 <= i < ops.len() ==> keeps_token(ops[i], b),
    ensures
        ({
            let t = s.request(a).request(b).run(ops);
            &&& t.latest == Some(b)
            &&& t.start_outcome(a) != StartOutcome::Started
            &&& t.try_start(a) == t
            &&& t.active < t.capacity ==> t.start_outcome(b) == StartOutcome::Started
        }),
    decreases ops.len(),
{
    if ops.len() > 0 {
        let head = ops.drop_last();
        assert forall|i: int| 0 <= i < head.len() implies keeps_token(head[i], b) by {
            assert(head[i] == ops[i]);
        }
        lemma_latest_request_goes_first(s, a, b, head);
        assert(keeps_token(ops[ops.len() - 1], b));
    }
}

/// Once the most recent request has started, the priority token is clear
/// and an older request starts as soon as a permit is free.
pub proof fn lemma_older_request_follows(s: SchedulerView, a: Seq<char>, b: Seq<char>)
    requires
        s.latest == Some(b),
        s.active < s.capacity,
    ensures
        s.try_start(b).latest is None,
        s.try_start(b).active < s.capacity ==> s.try_start(b).start_outcome(a)
            == StartOutcome::Started,
{
}

} // verus!
