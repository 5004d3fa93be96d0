//! A fixed-size worker pool with graceful shutdown, as a state machine.
//!
//! `Pool` holds every decision the pool makes: which workers exist, what sits
//! on the shared work queue, which worker gets which message, and when the
//! pool is closed. A host that owns real threads keeps a `Pool` behind one
//! lock, calls `submit` for each task, and lets each worker thread call
//! `receive` with its own id: the answer is the task to run, the order to
//! stop, or nothing yet (wait and ask again).
//!
//! Tasks are known here by the number that `submit` gives them; the host
//! keeps the callable itself under that number.
use vstd::prelude::*;

verus! {

/// The largest number of workers a pool may have.
pub const MAX_POOL_SIZE: usize = 255;

/// A message on the work queue.
#[derive(PartialEq, Eq, Structural, Clone, Copy, Debug)]
pub enum Message {
    /// Run the task with this number.
    Run(u64),
    /// Stop for good.
    Stop,
}

/// What a worker is doing.
#[derive(PartialEq, Eq, Structural, Clone, Copy, Debug)]
pub enum WorkerState {
    /// Waiting for a message or running a task.
    Running,
    /// Has taken a `Stop` and left its loop.
    Stopped,
}

/// A worker: its identity and its state.
#[derive(PartialEq, Eq, Structural, Clone, Copy, Debug)]
pub struct Worker {
    pub id: usize,
    pub state: WorkerState,
}

/// Why a submission was refused.
#[derive(PartialEq, Eq, Structural, Clone, Copy, Debug)]
pub enum PoolError {
    /// Shutdown has begun: no more tasks are taken.
    PoolClosed,
}

/// The number of running workers in `ws`.
pub open spec fn count_running(ws: Seq<Worker>) -> nat
    decreases ws.len(),
{
    if ws.len() == 0 {
        0
    } else {
        count_running(ws.drop_last()) + if ws.last().state == WorkerState::Running {
            1nat
        } else {
            0nat
        }
    }
}

/// The abstract state of a pool.
///
/// The work queue holds the `Run` messages of `pending`, oldest first, and
/// behind them `stops` messages `Stop`. Nothing is queued behind a `Stop`:
/// `Stop`s are queued only at shutdown, after which nothing is submitted.
pub struct PoolModel {
    /// Worker `i` is `workers[i]`.
    pub workers: Seq<Worker>,
    /// Numbers of the tasks queued and not yet handed to a worker.
    pub pending: Seq<u64>,
    /// `Stop` messages queued behind them.
    pub stops: nat,
    /// Whether shutdown has begun.
    pub closed: bool,
    /// How many tasks have been accepted; the next task gets this number.
    pub submitted: nat,
    /// Every task handed out so far, with the worker that got it.
    pub delivered: Seq<(u64, usize)>,
}

impl PoolModel {
    /// The work queue as a sequence of messages, front first.
    pub open spec fn queue(self) -> Seq<Message> {
        self.pending.map_values(|t: u64| Message::Run(t)) + Seq::new(
            self.stops,
            |i: int| Message::Stop,
        )
    }

    pub open spec fn size(self) -> nat {
        self.workers.len()
    }

    pub open spec fn running(self) -> nat {
        count_running(self.workers)
    }

    /// The tasks handed out so far, in the order they were handed out.
    pub open spec fn delivered_tasks(self) -> Seq<u64> {
        self.delivered.map_values(|d: (u64, usize)| d.0)
    }

    /// Every accepted task: handed out, then still queued.
    pub open spec fn accounted(self) -> Seq<u64> {
        self.delivered_tasks() + self.pending
    }

    /// Shutdown has begun and every worker has stopped.
    pub open spec fn finished(self) -> bool {
        self.closed && self.running() == 0
    }

    pub open spec fn wf(self) -> bool {
        &&& 0 < self.size() <= MAX_POOL_SIZE
        &&& forall|i: int| 0 <= i < self.size() ==> (#[trigger] self.workers[i]).id == i
        &&& !self.closed ==> self.stops == 0
        &&& !self.closed ==> forall|i: int|
            0 <= i < self.size() ==> (#[trigger] self.workers[i]).state == WorkerState::Running
        &&& self.closed ==> self.stops == self.running()
        &&& self.closed && self.running() < self.size() ==> self.pending.len() == 0
        &&& self.submitted <= u64::MAX
        &&& self.accounted().no_duplicates()
        &&& forall|t: u64| (t as int) < self.submitted <==> #[trigger] self.accounted().contains(t)
        &&& forall|k: int|
            0 <= k < self.delivered.len() ==> (#[trigger] self.delivered[k]).1 < self.size()
    }

    /// A pool of `size` running workers with ids `0..size` and an empty queue.
    pub open spec fn initial(size: nat) -> PoolModel {
        PoolModel {
            workers: Seq::new(size, |i: int| Worker { id: i as usize, state: WorkerState::Running }),
            pending: Seq::empty(),
            stops: 0,
            closed: false,
            submitted: 0,
            delivered: Seq::empty(),
        }
    }

    pub open spec fn submit_result(self) -> Result<u64, PoolError> {
        if self.closed {
            Err(PoolError::PoolClosed)
        } else {
            Ok(self.submitted as u64)
        }
    }

    /// A submission queues `Run` of a fresh task number, unless the pool is closed.
    pub open spec fn after_submit(self) -> PoolModel {
        if self.closed {
            self
        } else {
            PoolModel {
                workers: self.workers,
                pending: self.pending.push(self.submitted as u64),
                stops: self.stops,
                closed: self.closed,
                submitted: self.submitted + 1,
                delivered: self.delivered,
            }
        }
    }

    /// How many `Stop` messages a shutdown sends.
    pub open spec fn shutdown_result(self) -> nat {
        if self.closed {
            0
        } else {
            self.running()
        }
    }

    /// Shutdown closes the pool and queues one `Stop` per running worker.
    pub open spec fn after_shutdown(self) -> PoolModel {
        if self.closed {
            self
        } else {
            PoolModel {
                workers: self.workers,
                pending: self.pending,
                stops: self.running(),
                closed: true,
                submitted: self.submitted,
                delivered: self.delivered,
            }
        }
    }

    /// What a worker gets from the front of the queue, `None` if it is empty.
    pub open spec fn receive_result(self) -> Option<Message> {
        if self.pending.len() > 0 {
            Some(Message::Run(self.pending[0]))
        } else if self.stops > 0 {
            Some(Message::Stop)
        } else {
            None
        }
    }

    /// Worker `w` takes the front message: a task is handed to it alone; a
    /// `Stop` stops it.
    pub open spec fn after_receive(self, w: usize) -> PoolModel {
        if self.pending.len() > 0 {
            PoolModel {
                workers: self.workers,
                pending: self.pending.drop_first(),
                stops: self.stops,
                closed: self.closed,
                submitted: self.submitted,
                delivered: self.delivered.push((self.pending[0], w)),
            }
        } else if self.stops > 0 {
            PoolModel {
                workers: self.workers.update(w as int, Worker { id: w, state: WorkerState::Stopped }),
                pending: self.pending,
                stops: (self.stops - 1) as nat,
                closed: self.closed,
                submitted: self.submitted,
                delivered: self.delivered,
            }
        } else {
            self
        }
    }
}

proof fn lemma_count_running_bound(ws: Seq<Worker>)
    ensures
        count_running(ws) <= ws.len(),
    decreases ws.len(),
{
    if ws.len() > 0 {
        lemma_count_running_bound(ws.drop_last());
    }
}

proof fn lemma_count_all_running(ws: Seq<Worker>)
    requires
        forall|i: int| 0 <= i < ws.len() ==> (#[trigger] ws[i]).state == WorkerState::Running,
    ensures
        count_running(ws) == ws.len(),
    decreases ws.len(),
{
    if ws.len() > 0 {
        lemma_count_all_running(ws.drop_last());
    }
}

proof fn lemma_count_none_running(ws: Seq<Worker>)
    requires
        count_running(ws) == 0,
    ensures
        forall|i: int| 0 <= i < ws.len() ==> (#[trigger] ws[i]).state == WorkerState::Stopped,
    decreases ws.len(),
{
    if ws.len() > 0 {
        lemma_count_none_running(ws.drop_last());
        assert forall|i: int| 0 <= i < ws.len() implies (#[trigger] ws[i]).state
            == WorkerState::Stopped by {
            if i < ws.len() - 1 {
                assert(ws[i] == ws.drop_last()[i]);
            }
        }
    }
}

proof fn lemma_count_stop_one(ws: Seq<Worker>, i: int, w: Worker)
    requires
        0 <= i < ws.len(),
        ws[i].state == WorkerState::Running,
        w.state == WorkerState::Stopped,
    ensures
        count_running(ws.update(i, w)) + 1 == count_running(ws),
    decreases ws.len(),
{
    if i == ws.len() - 1 {
        assert(ws.update(i, w).drop_last() =~= ws.drop_last());
    } else {
        lemma_count_stop_one(ws.drop_last(), i, w);
        assert(ws.update(i, w).drop_last() =~= ws.drop_last().update(i, w));
    }
}

/// A new pool is well formed and all of its workers run.
pub proof fn lemma_initial_wf(size: nat)
    requires
        0 < size <= MAX_POOL_SIZE,
    ensures
        PoolModel::initial(size).wf(),
        PoolModel::initial(size).running() == size,
{
    let m = PoolModel::initial(size);
    lemma_count_all_running(m.workers);
    assert(m.delivered_tasks() =~= Seq::<u64>::empty());
    assert(m.accounted() =~= Seq::<u64>::empty());
}

/// A submission keeps the pool well formed.
pub proof fn lemma_submit_wf(m: PoolModel)
    requires
        m.wf(),
        m.submitted < u64::MAX,
    ensures
        m.after_submit().wf(),
{
    if !m.closed {
        let n = m.after_submit();
        let t = m.submitted as u64;
        assert(n.accounted() =~= m.accounted().push(t));
        assert(!m.accounted().contains(t));
        assert forall|u: u64| (u as int) < n.submitted <==> #[trigger] n.accounted().contains(u) by {
            if u == t {
                assert(n.accounted()[n.accounted().len() - 1] == u);
            } else {
                if m.accounted().contains(u) {
                    let k = choose|k: int| 0 <= k < m.accounted().len() && m.accounted()[k] == u;
                    assert(n.accounted()[k] == u);
                }
                if n.accounted().contains(u) {
                    let k = choose|k: int| 0 <= k < n.accounted().len() && n.accounted()[k] == u;
                    assert(m.accounted()[k] == u);
                }
            }
        }
    }
}

/// A shutdown keeps the pool well formed.
pub proof fn lemma_shutdown_wf(m: PoolModel)
    requires
        m.wf(),
    ensures
        m.after_shutdown().wf(),
{
    if !m.closed {
        lemma_count_all_running(m.workers);
    }
}

/// A running worker taking a message keeps the pool well formed.
pub proof fn lemma_receive_wf(m: PoolModel, w: usize)
    requires
        m.wf(),
        w < m.size(),
        m.workers[w as int].state == WorkerState::Running,
    ensures
        m.after_receive(w).wf(),
{
    let n = m.after_receive(w);
    if m.pending.len() > 0 {
        let t = m.pending[0];
        assert(n.delivered_tasks() =~= m.delivered_tasks().push(t));
        assert(n.accounted() =~= m.accounted());
        assert forall|k: int| 0 <= k < n.delivered.len() implies (#[trigger] n.delivered[k]).1
            < n.size() by {
            if k < m.delivered.len() {
                assert(n.delivered[k] == m.delivered[k]);
            }
        }
    } else if m.stops > 0 {
        lemma_count_stop_one(m.workers, w as int, Worker { id: w, state: WorkerState::Stopped });
        lemma_count_running_bound(n.workers);
        assert(n.accounted() =~= m.accounted());
    }
}

/// A pool made with `size` workers has exactly `size` of them, all running,
/// and worker `i` has the identity `i`, so identities are unique and lie in
/// `0..size`.
pub proof fn lemma_new_pool_workers(size: nat)
    requires
        0 < size <= MAX_POOL_SIZE,
    ensures
        PoolModel::initial(size).size() == size,
        PoolModel::initial(size).running() == size,
        forall|i: int|
            0 <= i < size ==> (#[trigger] PoolModel::initial(size).workers[i]).id == i,
        forall|i: int, j: int|
            0 <= i < size && 0 <= j < size && i != j ==> PoolModel::initial(size).workers[i].id
                != PoolModel::initial(size).workers[j].id,
{
    lemma_initial_wf(size);
}

/// No task is handed out twice, to the same worker or to two: every accepted
/// task is either still queued or was handed to exactly one worker, never
/// both, and nothing else was handed out.
pub proof fn lemma_each_task_once(m: PoolModel)
    requires
        m.wf(),
    ensures
        forall|i: int, j: int|
            0 <= i < m.delivered.len() && 0 <= j < m.delivered.len() && i != j
                ==> m.delivered[i].0 != m.delivered[j].0,
        forall|t: u64|
            (t as int) < m.submitted <==> (m.delivered_tasks().contains(t) || m.pending.contains(t)),
        forall|t: u64| !(m.delivered_tasks().contains(t) && m.pending.contains(t)),
{
    let d = m.delivered_tasks();
    let a = m.accounted();
    assert forall|i: int, j: int|
        0 <= i < m.delivered.len() && 0 <= j < m.delivered.len() && i != j implies m.delivered[i].0
        != m.delivered[j].0 by {
        assert(a[i] == d[i] && a[j] == d[j]);
    }
    assert forall|t: u64|
        (t as int) < m.submitted <==> (m.delivered_tasks().contains(t) || m.pending.contains(t)) by {
        if d.contains(t) {
            let k = choose|k: int| 0 <= k < d.len() && d[k] == t;
            assert(a[k] == t);
        }
        if m.pending.contains(t) {
            let k = choose|k: int| 0 <= k < m.pending.len() && m.pending[k] == t;
            assert(a[d.len() + k] == t);
        }
        if a.contains(t) {
            let k = choose|k: int| 0 <= k < a.len() && a[k] == t;
            if k < d.len() {
                assert(d[k] == t);
            } else {
                assert(m.pending[k - d.len()] == t);
            }
        }
    }
    assert forall|t: u64| !(m.delivered_tasks().contains(t) && m.pending.contains(t)) by {
        if d.contains(t) && m.pending.contains(t) {
            let k1 = choose|k: int| 0 <= k < d.len() && d[k] == t;
            let k2 = choose|k: int| 0 <= k < m.pending.len() && m.pending[k] == t;
            assert(a[k1] == a[d.len() + k2]);
        }
    }
}

/// Shutdown of an open pool queues exactly one `Stop` per worker, behind
/// everything already queued, and closes the pool; shutting down a pool
/// that is already closed queues nothing.
pub proof fn lemma_shutdown_one_stop_per_worker(m: PoolModel)
    requires
        m.wf(),
    ensures
        !m.closed ==> m.shutdown_result() == m.size(),
        !m.closed ==> m.after_shutdown().queue() == m.queue() + Seq::new(
            m.size(),
            |i: int| Message::Stop,
        ),
        m.after_shutdown().closed,
        m.after_shutdown().stops == m.after_shutdown().running(),
        m.closed ==> m.shutdown_result() == 0 && m.after_shutdown() == m,
{
    lemma_shutdown_wf(m);
    if !m.closed {
        lemma_count_all_running(m.workers);
        let n = m.after_shutdown();
        assert(Seq::new(n.stops, |i: int| Message::Stop) =~= Seq::<Message>::empty() + Seq::new(
            m.size(),
            |i: int| Message::Stop,
        ));
        assert(m.queue() =~= m.pending.map_values(|t: u64| Message::Run(t)));
        assert(n.queue() =~= m.queue() + Seq::new(m.size(), |i: int| Message::Stop));
    }
}

/// Once shutdown has begun and every worker has stopped, the queue is empty
/// and every accepted task was handed out, each exactly once.
pub proof fn lemma_finished_drained(m: PoolModel)
    requires
        m.wf(),
        m.finished(),
    ensures
        m.queue().len() == 0,
        forall|i: int| 0 <= i < m.size() ==> (#[trigger] m.workers[i]).state == WorkerState::Stopped,
        forall|t: u64| (t as int) < m.submitted <==> #[trigger] m.delivered_tasks().contains(t),
        m.delivered_tasks().no_duplicates(),
{
    lemma_count_none_running(m.workers);
    assert(m.accounted() =~= m.delivered_tasks());
}

/// After shutdown a submission is refused with `PoolClosed` and queues
/// nothing, however many times it is tried.
pub proof fn lemma_no_submit_after_shutdown(m: PoolModel)
    requires
        m.wf(),
    ensures
        m.after_shutdown().submit_result() == Err::<u64, PoolError>(PoolError::PoolClosed),
        m.after_shutdown().after_submit() == m.after_shutdown(),
{
}

/// A worker that has stopped never gets another message: whatever is
/// submitted, shut down or taken by others afterwards, it stays stopped.
pub proof fn lemma_stopped_stays_stopped(m: PoolModel, w: usize, other: usize)
    requires
        m.wf(),
        w < m.size(),
        m.workers[w as int].state == WorkerState::Stopped,
        other < m.size(),
        m.workers[other as int].state == WorkerState::Running,
    ensures
        m.after_submit().workers[w as int].state == WorkerState::Stopped,
        m.after_shutdown().workers[w as int].state == WorkerState::Stopped,
        m.after_receive(other).workers[w as int].state == WorkerState::Stopped,
{
}

/// A pool of workers and its work queue.
pub struct Pool {
    workers: Vec<Worker>,
    pending: Vec<u64>,
    stops: usize,
    closed: bool,
    submitted: u64,
    delivered: Ghost<Seq<(u64, usize)>>,
}

impl View for Pool {
    type V = PoolModel;

    closed spec fn view(&self) -> PoolModel {
        PoolModel {
            workers: self.workers@,
            pending: self.pending@,
            stops: self.stops as nat,
            closed: self.closed,
            submitted: self.submitted as nat,
            delivered: self.delivered@,
        }
    }
}

impl Pool {
    pub open spec fn wf(&self) -> bool {
        self@.wf()
    }

    /// Makes a pool of `size` workers with ids `0..size`, all running, and
    /// an empty work queue.
    pub fn new(size: usize) -> (r: Pool)
        requires
            0 < size <= MAX_POOL_SIZE,
        ensures
            r.wf(),
            r@ == PoolModel::initial(size as nat),
    {
        let mut workers: Vec<Worker> = Vec::with_capacity(size);
        let mut i: usize = 0;
        while i < size
            invariant
                i <= size,
                workers@ =~= Seq::new(
                    i as nat,
                    |j: int| Worker { id: j as usize, state: WorkerState::Running },
                ),
            decreases size - i,
        {
            workers.push(Worker { id: i, state: WorkerState::Running });
            i = i + 1;
        }
        let r = Pool {
            workers,
            pending: Vec::new(),
            stops: 0,
            closed: false,
            submitted: 0,
            delivered: Ghost(Seq::empty()),
        };
        proof {
            assert(r@.pending =~= Seq::<u64>::empty());
            assert(r@ =~= PoolModel::initial(size as nat));
            lemma_initial_wf(size as nat);
        }
        r
    }

    /// Queues a new task and returns its number, or refuses it once
    /// shutdown has begun, leaving the pool as it was.
    pub fn submit(&mut self) -> (r: Result<u64, PoolError>)
        requires
            old(self).wf(),
            old(self)@.submitted < u64::MAX,
        ensures
            final(self).wf(),
            r == old(self)@.submit_result(),
            final(self)@ == old(self)@.after_submit(),
    {
        proof {
            lemma_submit_wf(self@);
        }
        if self.closed {
            return Err(PoolError::PoolClosed);
        }
        let t = self.submitted;
        self.pending.push(t);
        self.submitted = t + 1;
        Ok(t)
    }

    /// Begins shutdown: closes the pool to new tasks and queues one `Stop`
    /// for each running worker. Returns how many were queued; once the pool
    /// is closed it does nothing and returns 0.
    pub fn shutdown(&mut self) -> (r: usize)
        requires
            old(self).wf(),
        ensures
            final(self).wf(),
            r == old(self)@.shutdown_result(),
            final(self)@ == old(self)@.after_shutdown(),
    {
        proof {
            lemma_shutdown_wf(self@);
            if !self.closed {
                lemma_count_all_running(self@.workers);
            }
        }
        if self.closed {
            return 0;
        }
        let n = self.workers.len();
        self.stops = n;
        self.closed = true;
        n
    }

    /// Worker `worker` takes the message at the front of the queue: a task
    /// to run, or `Stop`, upon which it counts as stopped. `None` when the
    /// queue is empty: the worker waits and asks again.
    pub fn receive(&mut self, worker: usize) -> (r: Option<Message>)
        requires
            old(self).wf(),
            worker < old(self)@.size(),
            old(self)@.workers[worker as int].state == WorkerState::Running,
        ensures
            final(self).wf(),
            r == old(self)@.receive_result(),
            final(self)@ == old(self)@.after_receive(worker),
    {
        proof {
            lemma_receive_wf(self@, worker);
        }
        if self.pending.len() > 0 {
            let t = self.pending.remove(0);
            self.delivered = Ghost(self.delivered@.push((t, worker)));
            proof {
                assert(self@.pending =~= old(self)@.pending.drop_first());
            }
            Some(Message::Run(t))
        } else if self.stops > 0 {
            self.stops = self.stops - 1;
            self.workers.set(worker, Worker { id: worker, state: WorkerState::Stopped });
            Some(Message::Stop)
        } else {
            None
        }
    }

    /// Whether shutdown has begun and every worker has stopped.
    pub fn is_finished(&self) -> (r: bool)
        requires
            self.wf(),
        ensures
            r == self@.finished(),
    {
        self.closed && self.stops == 0
    }

    /// Whether shutdown has begun.
    pub fn is_closed(&self) -> (r: bool)
        ensures
            r == self@.closed,
    {
        self.closed
    }

    /// The number of workers.
    pub fn size(&self) -> (r: usize)
        ensures
            r == self@.size(),
    {
        self.workers.len()
    }

    /// The number of workers that have not stopped.
    pub fn running_workers(&self) -> (r: usize)
        requires
            self.wf(),
        ensures
            r == self@.running(),
    {
        if self.closed {
            self.stops
        } else {
            proof {
                lemma_count_all_running(self@.workers);
            }
            self.workers.len()
        }
    }

    /// The ids of the workers, in order.
    pub fn worker_ids(&self) -> (r: Vec<usize>)
        ensures
            r@ == self@.workers.map_values(|w: Worker| w.id),
    {
        let mut r: Vec<usize> = Vec::new();
        let mut i: usize = 0;
        while i < self.workers.len()
            invariant
                i <= self@.workers.len(),
                r@ =~= self@.workers.subrange(0, i as int).map_values(|w: Worker| w.id),
            decreases self.workers.len() - i,
        {
            r.push(self.workers[i].id);
            i = i + 1;
        }
        proof {
            assert(self@.workers.subrange(0, i as int) =~= self@.workers);
        }
        r
    }

    /// The state of worker `worker`.
    pub fn worker_state(&self, worker: usize) -> (r: WorkerState)
        requires
            worker < self@.size(),
        ensures
            r == self@.workers[worker as int].state,
    {
        self.workers[worker].state
    }

    /// How many tasks have been accepted.
    pub fn submitted(&self) -> (r: u64)
        ensures
            r == self@.submitted,
    {
        self.submitted
    }

    /// The numbers of the queued tasks, oldest first.
    pub fn pending_tasks(&self) -> (r: Vec<u64>)
        ensures
            r@ == self@.pending,
    {
        self.pending.clone()
    }

    /// How many `Stop` messages are queued.
    pub fn pending_stops(&self) -> (r: usize)
        ensures
            r == self@.stops,
    {
        self.stops
    }
}

} // verus!
