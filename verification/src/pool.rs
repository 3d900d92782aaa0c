//! A bounded worker pool with one shared FIFO queue and a graceful-shutdown
//! protocol.
//!
//! The pool owns a fixed, positive number of workers and the write end of a
//! shared queue of [`Message`]s.  Callers hand in jobs through
//! [`WorkerPool::execute`]; each job is an opaque value that is consumed
//! exactly once by exactly one worker.  Shutdown appends exactly one
//! [`Message::Shutdown`] per worker behind all pending work, so every job
//! submitted before shutdown is delivered before the last worker stops.
//!
//! A worker "runs" a job by pulling it from the front of the queue; the
//! pulled job is returned to the driver of [`WorkerPool::worker_step`], which
//! performs its effect.  A harness that runs jobs on real threads keeps the
//! minimal failure policy: a job that fails terminates only its own worker
//! and is not replaced.

use vstd::prelude::*;
use vstd::seq_lib::lemma_multiset_commutative;

verus! {

/// A control message travelling through the shared queue.
pub enum Message<J> {
    /// A job to execute.
    Work(J),
    /// Tells the worker that pulls it to stop pulling further messages.
    Shutdown,
}

/// Why constructing a pool failed.
#[derive(Debug, PartialEq, Eq, Structural)]
pub enum PoolError {
    /// A pool with no workers can never make progress.
    ZeroSize,
}

/// What one call of [`WorkerPool::worker_step`] observed.
pub enum Dispatch<J> {
    /// The worker pulled a job from the queue; the caller performs its effect.
    Ran(J),
    /// The worker pulled [`Message::Shutdown`] and stopped.
    Stopped,
    /// The worker had already stopped, or the queue was empty.
    Idle,
}

/// One execution unit of the pool: a numeric identifier for diagnostics and
/// a flag recording whether the worker is still pulling messages.
pub struct Worker {
    id: usize,
    alive: bool,
}

impl Worker {
    pub closed spec fn spec_id(&self) -> usize {
        self.id
    }

    pub closed spec fn spec_alive(&self) -> bool {
        self.alive
    }

    fn new(id: usize) -> (w: Worker)
        ensures
            w.spec_id() == id,
            w.spec_alive(),
    {
        Worker { id, alive: true }
    }

    pub fn id(&self) -> (r: usize)
        ensures
            r == self.spec_id(),
    {
        self.id
    }

    pub fn is_alive(&self) -> (r: bool)
        ensures
            r == self.spec_alive(),
    {
        self.alive
    }
}

/// The jobs carried by a queue, front first, with the shutdown signals
/// filtered out.
pub open spec fn queue_jobs<J>(q: Seq<Message<J>>) -> Seq<J>
    decreases q.len(),
{
    if q.len() == 0 {
        Seq::empty()
    } else {
        match q[0] {
            Message::Work(j) => seq![j] + queue_jobs(q.skip(1)),
            Message::Shutdown => queue_jobs(q.skip(1)),
        }
    }
}

/// How many shutdown signals a queue carries.
pub open spec fn shutdown_count<J>(q: Seq<Message<J>>) -> nat
    decreases q.len(),
{
    if q.len() == 0 {
        0
    } else {
        (if q[0] is Shutdown {
            1nat
        } else {
            0nat
        }) + shutdown_count(q.skip(1))
    }
}

/// Shutdown signals sit behind all pending work: once a queue position holds
/// `Shutdown`, so does every later position.
pub open spec fn shutdowns_last<J>(q: Seq<Message<J>>) -> bool {
    forall|i: int, j: int|
        #![trigger q[i], q[j]]
        0 <= i <= j < q.len() && q[i] is Shutdown ==> q[j] is Shutdown
}

/// How many of these workers are still pulling messages.
pub open spec fn alive_count(ws: Seq<Worker>) -> nat
    decreases ws.len(),
{
    if ws.len() == 0 {
        0
    } else {
        (if ws[0].spec_alive() {
            1nat
        } else {
            0nat
        }) + alive_count(ws.skip(1))
    }
}

/// A fixed set of workers pulling jobs from one shared FIFO queue.
pub struct WorkerPool<J> {
    workers: Vec<Worker>,
    queue: Vec<Message<J>>,
    shutdown_sent: bool,
    live: usize,
    submitted_log: Ghost<Seq<J>>,
    delivered_log: Ghost<Seq<J>>,
}

impl<J> WorkerPool<J> {
    /// The number of workers, fixed at construction.
    pub closed spec fn worker_count(&self) -> nat {
        self.workers@.len()
    }

    /// How many workers have not yet stopped.
    pub closed spec fn live_workers(&self) -> nat {
        alive_count(self.workers@)
    }

    /// Whether worker `i` has not yet stopped.
    pub closed spec fn worker_alive(&self, i: int) -> bool {
        self.workers@[i].spec_alive()
    }

    /// Whether shutdown has been initiated.
    pub closed spec fn is_shutdown(&self) -> bool {
        self.shutdown_sent
    }

    /// The messages still in the shared queue, front first.
    pub closed spec fn pending(&self) -> Seq<Message<J>> {
        self.queue@
    }

    /// The jobs still in the shared queue, front first.
    pub closed spec fn pending_jobs(&self) -> Seq<J> {
        queue_jobs(self.queue@)
    }

    /// Every job ever accepted by `execute`, in submission order.
    pub closed spec fn submitted(&self) -> Seq<J> {
        self.submitted_log@
    }

    /// Every job pulled by a worker so far, in delivery order.
    pub closed spec fn delivered(&self) -> Seq<J> {
        self.delivered_log@
    }

    /// The pool's invariant.
    pub closed spec fn wf(&self) -> bool {
        &&& self.workers@.len() > 0
        &&& self.live == alive_count(self.workers@)
        &&& (forall|i: int|
            0 <= i < self.workers@.len() ==> (#[trigger] self.workers@[i]).spec_id() == i)
        &&& shutdowns_last(self.queue@)
        &&& (if self.shutdown_sent {
            shutdown_count(self.queue@) == alive_count(self.workers@)
        } else {
            shutdown_count(self.queue@) == 0 && alive_count(self.workers@)
                == self.workers@.len()
        })
        &&& (self.shutdown_sent && alive_count(self.workers@) == 0 ==> self.queue@.len() == 0)
        &&& self.submitted_log@ == self.delivered_log@ + queue_jobs(self.queue@)
    }

    /// Creates a pool of `size` workers sharing one queue.
    ///
    /// A pool with no workers could never make progress, so `size == 0` is
    /// rejected before any worker is created.
    pub fn new(size: usize) -> (r: Result<WorkerPool<J>, PoolError>)
        ensures
            r is Ok <==> size > 0,
            r is Err ==> r == Result::<WorkerPool<J>, PoolError>::Err(PoolError::ZeroSize),
            r matches Ok(pool) ==> {
                &&& pool.wf()
                &&& pool.worker_count() == size
                &&& pool.live_workers() == size
                &&& (forall|i: int| 0 <= i < size ==> pool.worker_alive(i))
                &&& !pool.is_shutdown()
                &&& pool.pending() == Seq::<Message<J>>::empty()
                &&& pool.submitted() == Seq::<J>::empty()
                &&& pool.delivered() == Seq::<J>::empty()
            },
    {
        if size == 0 {
            return Err(PoolError::ZeroSize);
        }
        let mut workers: Vec<Worker> = Vec::new();
        let mut id: usize = 0;
        while id < size
            invariant
                id <= size,
                workers@.len() == id,
                forall|i: int|
                    0 <= i < id ==> (#[trigger] workers@[i]).spec_id() == i
                        && workers@[i].spec_alive(),
            decreases size - id,
        {
            workers.push(Worker::new(id));
            id = id + 1;
        }
        proof {
            lemma_alive_count_full(workers@);
        }
        let pool = WorkerPool {
            workers,
            queue: Vec::new(),
            shutdown_sent: false,
            live: size,
            submitted_log: Ghost(Seq::empty()),
            delivered_log: Ghost(Seq::empty()),
        };
        proof {
            assert(pool.submitted_log@ =~= pool.delivered_log@ + queue_jobs(pool.queue@));
        }
        Ok(pool)
    }

    /// Enqueues a job behind all pending messages.
    ///
    /// Fails once shutdown has been initiated; the rejected job is handed
    /// back to the caller unchanged, never silently dropped.
    pub fn execute(&mut self, job: J) -> (r: Result<(), J>)
        requires
            old(self).wf(),
        ensures
            final(self).wf(),
            old(self).is_shutdown() ==> r == Result::<(), J>::Err(job) && *final(self)
                == *old(self),
            !old(self).is_shutdown() ==> {
                &&& r is Ok
                &&& final(self).submitted() == old(self).submitted().push(job)
                &&& final(self).pending() == old(self).pending().push(Message::Work(job))
                &&& final(self).pending_jobs() == old(self).pending_jobs().push(job)
                &&& final(self).delivered() == old(self).delivered()
                &&& final(self).worker_count() == old(self).worker_count()
                &&& final(self).live_workers() == old(self).live_workers()
                &&& (forall|i: int|
                    0 <= i < old(self).worker_count() ==> final(self).worker_alive(i)
                        == old(self).worker_alive(i))
                &&& !final(self).is_shutdown()
            },
    {
        if self.shutdown_sent {
            return Err(job);
        }
        proof {
            lemma_shutdown_count_zero(self.queue@);
            lemma_queue_jobs_push_work(self.queue@, job);
            lemma_shutdown_count_push_work(self.queue@, job);
            assert forall|i: int, j: int|
                0 <= i <= j < self.queue@.push(Message::Work(job)).len() && (#[trigger] self
                    .queue@.push(Message::Work(job))[i]) is Shutdown implies (#[trigger] self
                .queue@.push(Message::Work(job))[j]) is Shutdown by {
                assert(!(self.queue@.push(Message::Work(job))[i] is Shutdown));
            }
        }
        self.submitted_log = Ghost(self.submitted_log@.push(job));
        self.queue.push(Message::Work(job));
        proof {
            assert(self.submitted_log@ =~= self.delivered_log@ + queue_jobs(self.queue@));
        }
        Ok(())
    }

    /// Initiates shutdown: appends exactly one [`Message::Shutdown`] per
    /// worker behind all pending work.  Pending jobs are kept; no new job is
    /// accepted afterwards.
    pub fn begin_shutdown(&mut self)
        requires
            old(self).wf(),
            !old(self).is_shutdown(),
        ensures
            final(self).wf(),
            final(self).is_shutdown(),
            final(self).worker_count() == old(self).worker_count(),
            final(self).live_workers() == old(self).live_workers(),
            forall|i: int|
                0 <= i < old(self).worker_count() ==> final(self).worker_alive(i) == old(
                self).worker_alive(i),
            final(self).submitted() == old(self).submitted(),
            final(self).delivered() == old(self).delivered(),
            final(self).pending_jobs() == old(self).pending_jobs(),
    {
        let n = self.workers.len();
        let mut i: usize = 0;
        while i < n
            invariant
                old(self).wf(),
                !old(self).is_shutdown(),
                i <= n,
                n == old(self).worker_count(),
                self.workers == old(self).workers,
                self.live == old(self).live,
                self.shutdown_sent == false,
                self.submitted_log == old(self).submitted_log,
                self.delivered_log == old(self).delivered_log,
                queue_jobs(self.queue@) == queue_jobs(old(self).queue@),
                shutdown_count(self.queue@) == i,
                shutdowns_last(self.queue@),
            decreases n - i,
        {
            proof {
                lemma_queue_jobs_push_shutdown::<J>(self.queue@);
                lemma_shutdown_count_push_shutdown::<J>(self.queue@);
                assert forall|a: int, b: int|
                    0 <= a <= b < self.queue@.push(Message::Shutdown).len() && (#[trigger] self
                        .queue@.push(Message::Shutdown)[a]) is Shutdown implies (
                #[trigger] self.queue@.push(Message::Shutdown)[b]) is Shutdown by {
                    if b < self.queue@.len() {
                        assert(self.queue@[a] is Shutdown ==> self.queue@[b] is Shutdown);
                    }
                }
            }
            self.queue.push(Message::Shutdown);
            i = i + 1;
        }
        self.shutdown_sent = true;
    }

    /// Lets worker `w` pull one message from the front of the shared queue.
    ///
    /// A pulled job is returned to the caller, who performs its effect; a
    /// pulled shutdown signal stops worker `w` for good.  A stopped worker,
    /// or an empty queue, leaves the pool unchanged.
    pub fn worker_step(&mut self, w: usize) -> (r: Dispatch<J>)
        requires
            old(self).wf(),
            w < old(self).worker_count(),
        ensures
            final(self).wf(),
            final(self).worker_count() == old(self).worker_count(),
            final(self).is_shutdown() == old(self).is_shutdown(),
            final(self).submitted() == old(self).submitted(),
            (r is Idle) <==> (!old(self).worker_alive(w as int) || old(self).pending().len()
                == 0),
            r is Idle ==> *final(self) == *old(self),
            !(r is Idle) ==> final(self).pending() == old(self).pending().skip(1),
            (r is Ran) <==> (old(self).worker_alive(w as int) && old(self).pending().len() > 0
                && old(self).pending()[0] is Work),
            r is Ran ==> old(self).pending_jobs().len() > 0,
            r is Ran ==> old(self).pending()[0] == Message::Work(old(self).pending_jobs()[0]),
            r is Ran ==> r == Dispatch::Ran(old(self).pending_jobs()[0]),
            r is Ran ==> final(self).pending_jobs() == old(self).pending_jobs().skip(1),
            r is Ran ==> final(self).delivered() == old(self).delivered().push(
                old(self).pending_jobs()[0]),
            r is Ran ==> final(self).live_workers() == old(self).live_workers(),
            r is Ran ==> forall|i: int|
                0 <= i < old(self).worker_count() ==> final(self).worker_alive(i) == old(
                self).worker_alive(i),
            (r is Stopped) <==> (old(self).worker_alive(w as int) && old(self).pending().len()
                > 0 && old(self).pending()[0] is Shutdown),
            r is Stopped ==> final(self).pending_jobs() == old(self).pending_jobs(),
            r is Stopped ==> final(self).delivered() == old(self).delivered(),
            r is Stopped ==> final(self).live_workers() == old(self).live_workers() - 1,
            r is Stopped ==> !final(self).worker_alive(w as int),
            r is Stopped ==> forall|i: int|
                0 <= i < old(self).worker_count() && i != w ==> final(self).worker_alive(i)
                    == old(self).worker_alive(i),
    {
        let alive = self.workers[w].alive;
        if !alive {
            return Dispatch::Idle;
        }
        if self.queue.len() == 0 {
            return Dispatch::Idle;
        }
        proof {
            lemma_alive_count_pos(self.workers@, w as int);
            assert(old(self).queue@.remove(0) =~= old(self).queue@.skip(1));
            assert forall|a: int, b: int|
                0 <= a <= b < old(self).queue@.skip(1).len() && (#[trigger] old(
                self).queue@.skip(1)[a]) is Shutdown implies (#[trigger] old(self).queue@.skip(
                1)[b]) is Shutdown by {
                assert(old(self).queue@[a + 1] is Shutdown ==> old(self).queue@[b + 1]
                    is Shutdown);
            }
        }
        let msg = self.queue.remove(0);
        match msg {
            Message::Work(job) => {
                self.delivered_log = Ghost(self.delivered_log@.push(job));
                proof {
                    assert(old(self).submitted_log@ =~= old(self).delivered_log@ + (seq![job]
                        + queue_jobs(self.queue@)));
                    assert(self.submitted_log@ =~= self.delivered_log@ + queue_jobs(
                        self.queue@));
                }
                Dispatch::Ran(job)
            },
            Message::Shutdown => {
                proof {
                    assert(shutdown_count(old(self).queue@) >= 1);
                }
                self.workers[w].alive = false;
                self.live = self.live - 1;
                proof {
                    lemma_alive_count_update(old(self).workers@, w as int, self.workers@[
                        w as int]);
                    assert(self.workers@ =~= old(self).workers@.update(w as int, self.workers@[
                        w as int]));
                    if alive_count(self.workers@) == 0 {
                        assert forall|b: int| 0 <= b < old(self).queue@.len() implies (
                        #[trigger] old(self).queue@[b]) is Shutdown by {
                            assert(old(self).queue@[0] is Shutdown);
                        }
                        lemma_all_shutdown_count(old(self).queue@);
                    }
                }
                Dispatch::Stopped
            },
        }
    }

    /// Drives workers until every one of them has stopped, and returns the
    /// jobs that were run along the way, in delivery order.
    ///
    /// When it returns, the queue is empty, no worker is left running, and
    /// every submitted job has been delivered exactly once.
    pub fn join(&mut self) -> (ran: Vec<J>)
        requires
            old(self).wf(),
            old(self).is_shutdown(),
        ensures
            final(self).wf(),
            final(self).is_shutdown(),
            final(self).worker_count() == old(self).worker_count(),
            final(self).live_workers() == 0,
            forall|i: int| 0 <= i < final(self).worker_count() ==> !final(self).worker_alive(i),
            final(self).pending() == Seq::<Message<J>>::empty(),
            final(self).pending_jobs() == Seq::<J>::empty(),
            final(self).submitted() == old(self).submitted(),
            final(self).delivered() == old(self).delivered() + ran@,
            final(self).delivered() == final(self).submitted(),
    {
        let mut ran: Vec<J> = Vec::new();
        while self.live > 0
            invariant
                self.wf(),
                self.is_shutdown(),
                self.worker_count() == old(self).worker_count(),
                self.submitted() == old(self).submitted(),
                self.delivered() == old(self).delivered() + ran@,
            decreases self.queue@.len(),
        {
            proof {
                if self.queue@.len() == 0 {
                    assert(shutdown_count(self.queue@) == 0);
                }
            }
            let w = self.find_live_worker();
            let d = self.worker_step(w);
            match d {
                Dispatch::Ran(job) => {
                    proof {
                        assert(self.delivered() =~= old(self).delivered() + ran@.push(job));
                    }
                    ran.push(job);
                },
                Dispatch::Stopped => {},
                Dispatch::Idle => {
                    proof {
                        assert(false);
                    }
                },
            }
        }
        proof {
            assert(self.queue@.len() == 0);
            assert(self.submitted() =~= self.delivered() + queue_jobs(self.queue@));
            assert(self.delivered() =~= self.submitted());
            assert(self.pending() =~= Seq::<Message<J>>::empty());
            assert(self.pending_jobs() =~= Seq::<J>::empty());
            lemma_alive_count_empty(self.workers@);
        }
        ran
    }

    /// Initiates shutdown and waits for every worker to stop, in one call:
    /// the orderly-teardown protocol.  Returns the jobs run while draining.
    pub fn shutdown(&mut self) -> (ran: Vec<J>)
        requires
            old(self).wf(),
            !old(self).is_shutdown(),
        ensures
            final(self).wf(),
            final(self).is_shutdown(),
            final(self).worker_count() == old(self).worker_count(),
            final(self).live_workers() == 0,
            forall|i: int| 0 <= i < final(self).worker_count() ==> !final(self).worker_alive(i),
            final(self).pending() == Seq::<Message<J>>::empty(),
            final(self).pending_jobs() == Seq::<J>::empty(),
            final(self).submitted() == old(self).submitted(),
            final(self).delivered() == old(self).delivered() + ran@,
            final(self).delivered() == final(self).submitted(),
    {
        self.begin_shutdown();
        self.join()
    }

    /// The number of workers the pool was built with.
    pub fn num_workers(&self) -> (r: usize)
        ensures
            r == self.worker_count(),
    {
        self.workers.len()
    }

    /// How many workers have not yet stopped.
    pub fn num_live(&self) -> (r: usize)
        requires
            self.wf(),
        ensures
            r == self.live_workers(),
    {
        self.live
    }

    /// Whether shutdown has been initiated.
    pub fn shutdown_started(&self) -> (r: bool)
        ensures
            r == self.is_shutdown(),
    {
        self.shutdown_sent
    }

    /// How many messages sit in the shared queue.
    pub fn pending_count(&self) -> (r: usize)
        ensures
            r == self.pending().len(),
    {
        self.queue.len()
    }

    fn find_live_worker(&self) -> (w: usize)
        requires
            self.wf(),
            self.live_workers() > 0,
        ensures
            w < self.worker_count(),
            self.worker_alive(w as int),
    {
        let n = self.workers.len();
        let mut i: usize = 0;
        while i < n
            invariant
                i <= n,
                n == self.worker_count(),
                forall|k: int| 0 <= k < i ==> !(#[trigger] self.workers@[k]).spec_alive(),
            decreases n - i,
        {
            if self.workers[i].alive {
                return i;
            }
            i = i + 1;
        }
        proof {
            lemma_alive_count_none(self.workers@);
        }
        0
    }
}

/// Law: no job is lost and none is duplicated.  In every well-formed pool
/// state, the multiset of submitted jobs is exactly the delivered jobs
/// together with the jobs still waiting in the queue.
pub proof fn lemma_job_conservation<J>(p: &WorkerPool<J>)
    requires
        p.wf(),
    ensures
        p.submitted().to_multiset() == p.delivered().to_multiset().add(
            p.pending_jobs().to_multiset()),
{
    lemma_multiset_commutative(p.delivered(), p.pending_jobs());
}

/// Law: jobs are delivered in submission order.  In every well-formed pool
/// state, the delivered jobs are a prefix of the submitted jobs; with a
/// single worker this is exactly serialized, in-order execution.
pub proof fn lemma_fifo_delivery<J>(p: &WorkerPool<J>)
    requires
        p.wf(),
    ensures
        p.delivered().len() <= p.submitted().len(),
        p.delivered() == p.submitted().take(p.delivered().len() as int),
{
    assert(p.submitted().take(p.delivered().len() as int) =~= p.delivered());
}

proof fn lemma_alive_count_full(ws: Seq<Worker>)
    requires
        forall|i: int| 0 <= i < ws.len() ==> (#[trigger] ws[i]).spec_alive(),
    ensures
        alive_count(ws) == ws.len(),
    decreases ws.len(),
{
    if ws.len() > 0 {
        assert forall|i: int| 0 <= i < ws.skip(1).len() implies (#[trigger] ws.skip(
        1)[i]).spec_alive() by {
            assert(ws[i + 1].spec_alive());
        }
        lemma_alive_count_full(ws.skip(1));
    }
}

proof fn lemma_alive_count_none(ws: Seq<Worker>)
    requires
        forall|i: int| 0 <= i < ws.len() ==> !(#[trigger] ws[i]).spec_alive(),
    ensures
        alive_count(ws) == 0,
    decreases ws.len(),
{
    if ws.len() > 0 {
        assert forall|i: int| 0 <= i < ws.skip(1).len() implies !(#[trigger] ws.skip(
        1)[i]).spec_alive() by {
            assert(!ws[i + 1].spec_alive());
        }
        lemma_alive_count_none(ws.skip(1));
    }
}

proof fn lemma_alive_count_empty(ws: Seq<Worker>)
    requires
        alive_count(ws) == 0,
    ensures
        forall|i: int| 0 <= i < ws.len() ==> !(#[trigger] ws[i]).spec_alive(),
    decreases ws.len(),
{
    if ws.len() > 0 {
        lemma_alive_count_empty(ws.skip(1));
        assert forall|i: int| 0 <= i < ws.len() implies !(#[trigger] ws[i]).spec_alive() by {
            if i > 0 {
                assert(ws.skip(1)[i - 1] == ws[i]);
            }
        }
    }
}

proof fn lemma_alive_count_pos(ws: Seq<Worker>, i: int)
    requires
        0 <= i < ws.len(),
        ws[i].spec_alive(),
    ensures
        alive_count(ws) >= 1,
    decreases ws.len(),
{
    if i > 0 {
        assert(ws.skip(1)[i - 1] == ws[i]);
        lemma_alive_count_pos(ws.skip(1), i - 1);
    }
}

proof fn lemma_alive_count_update(ws: Seq<Worker>, i: int, w: Worker)
    requires
        0 <= i < ws.len(),
    ensures
        alive_count(ws.update(i, w)) == alive_count(ws) - (if ws[i].spec_alive() {
            1int
        } else {
            0int
        }) + (if w.spec_alive() {
            1int
        } else {
            0int
        }),
    decreases ws.len(),
{
    if i == 0 {
        assert(ws.update(0, w).skip(1) =~= ws.skip(1));
    } else {
        assert(ws.update(i, w).skip(1) =~= ws.skip(1).update(i - 1, w));
        lemma_alive_count_update(ws.skip(1), i - 1, w);
    }
}

proof fn lemma_shutdown_count_zero<J>(q: Seq<Message<J>>)
    requires
        shutdown_count(q) == 0,
    ensures
        forall|i: int| 0 <= i < q.len() ==> !((#[trigger] q[i]) is Shutdown),
    decreases q.len(),
{
    if q.len() > 0 {
        lemma_shutdown_count_zero(q.skip(1));
        assert forall|i: int| 0 <= i < q.len() implies !((#[trigger] q[i]) is Shutdown) by {
            if i > 0 {
                assert(q.skip(1)[i - 1] == q[i]);
            }
        }
    }
}

proof fn lemma_all_shutdown_count<J>(q: Seq<Message<J>>)
    requires
        forall|i: int| 0 <= i < q.len() ==> (#[trigger] q[i]) is Shutdown,
    ensures
        shutdown_count(q) == q.len(),
    decreases q.len(),
{
    if q.len() > 0 {
        assert forall|i: int| 0 <= i < q.skip(1).len() implies (#[trigger] q.skip(
        1)[i]) is Shutdown by {
            assert(q[i + 1] is Shutdown);
        }
        lemma_all_shutdown_count(q.skip(1));
    }
}

proof fn lemma_queue_jobs_push_work<J>(q: Seq<Message<J>>, j: J)
    ensures
        queue_jobs(q.push(Message::Work(j))) == queue_jobs(q).push(j),
    decreases q.len(),
{
    let p = q.push(Message::Work(j));
    if q.len() == 0 {
        assert(p.len() == 1);
        assert(p[0] == Message::Work(j));
        assert(p.skip(1) =~= Seq::<Message<J>>::empty());
        assert(queue_jobs(p) == seq![j] + queue_jobs(p.skip(1)));
        assert(queue_jobs(p) =~= queue_jobs(q).push(j));
    } else {
        assert(p[0] == q[0]);
        assert(p.skip(1) =~= q.skip(1).push(Message::Work(j)));
        lemma_queue_jobs_push_work(q.skip(1), j);
        match q[0] {
            Message::Work(k) => {
                assert(queue_jobs(p) == seq![k] + queue_jobs(p.skip(1)));
                assert(queue_jobs(q) == seq![k] + queue_jobs(q.skip(1)));
                assert(queue_jobs(p) =~= queue_jobs(q).push(j));
            },
            Message::Shutdown => {
                assert(queue_jobs(p) == queue_jobs(p.skip(1)));
                assert(queue_jobs(q) == queue_jobs(q.skip(1)));
                assert(queue_jobs(p) =~= queue_jobs(q).push(j));
            },
        }
    }
}

proof fn lemma_queue_jobs_push_shutdown<J>(q: Seq<Message<J>>)
    ensures
        queue_jobs(q.push(Message::Shutdown)) == queue_jobs(q),
    decreases q.len(),
{
    let p = q.push(Message::Shutdown);
    if q.len() == 0 {
        assert(p.len() == 1);
        assert(p[0] == Message::<J>::Shutdown);
        assert(p.skip(1) =~= Seq::<Message<J>>::empty());
        assert(queue_jobs(p) == queue_jobs(p.skip(1)));
        assert(queue_jobs(p) =~= queue_jobs(q));
    } else {
        assert(p[0] == q[0]);
        assert(p.skip(1) =~= q.skip(1).push(Message::Shutdown));
        lemma_queue_jobs_push_shutdown(q.skip(1));
        match q[0] {
            Message::Work(k) => {
                assert(queue_jobs(p) == seq![k] + queue_jobs(p.skip(1)));
                assert(queue_jobs(q) == seq![k] + queue_jobs(q.skip(1)));
                assert(queue_jobs(p) =~= queue_jobs(q));
            },
            Message::Shutdown => {
                assert(queue_jobs(p) == queue_jobs(p.skip(1)));
                assert(queue_jobs(q) == queue_jobs(q.skip(1)));
                assert(queue_jobs(p) =~= queue_jobs(q));
            },
        }
    }
}

proof fn lemma_shutdown_count_push_work<J>(q: Seq<Message<J>>, j: J)
    ensures
        shutdown_count(q.push(Message::Work(j))) == shutdown_count(q),
    decreases q.len(),
{
    let p = q.push(Message::Work(j));
    if q.len() == 0 {
        assert(p.len() == 1);
        assert(p[0] == Message::Work(j));
        assert(p.skip(1) =~= Seq::<Message<J>>::empty());
        assert(shutdown_count(p) == shutdown_count(p.skip(1)));
        assert(shutdown_count(p) == shutdown_count(q));
    } else {
        assert(p[0] == q[0]);
        assert(p.skip(1) =~= q.skip(1).push(Message::Work(j)));
        lemma_shutdown_count_push_work(q.skip(1), j);
        assert(shutdown_count(p) == (if p[0] is Shutdown {
            1nat
        } else {
            0nat
        }) + shutdown_count(p.skip(1)));
        assert(shutdown_count(q) == (if q[0] is Shutdown {
            1nat
        } else {
            0nat
        }) + shutdown_count(q.skip(1)));
    }
}

proof fn lemma_shutdown_count_push_shutdown<J>(q: Seq<Message<J>>)
    ensures
        shutdown_count(q.push(Message::Shutdown)) == shutdown_count(q) + 1,
    decreases q.len(),
{
    let p = q.push(Message::Shutdown);
    if q.len() == 0 {
        assert(p.len() == 1);
        assert(p[0] == Message::<J>::Shutdown);
        assert(p.skip(1) =~= Seq::<Message<J>>::empty());
        assert(shutdown_count(p) == 1 + shutdown_count(p.skip(1)));
        assert(shutdown_count(p) == shutdown_count(q) + 1);
    } else {
        assert(p[0] == q[0]);
        assert(p.skip(1) =~= q.skip(1).push(Message::Shutdown));
        lemma_shutdown_count_push_shutdown(q.skip(1));
        assert(shutdown_count(p) == (if p[0] is Shutdown {
            1nat
        } else {
            0nat
        }) + shutdown_count(p.skip(1)));
        assert(shutdown_count(q) == (if q[0] is Shutdown {
            1nat
        } else {
            0nat
        }) + shutdown_count(q.skip(1)));
    }
}

} // verus!
