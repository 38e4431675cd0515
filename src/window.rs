use vstd::prelude::*;

verus! {

/// What the driver of a run must do next. Jobs are numbered by tickets in
/// the order their paths left the source.
#[derive(Clone, Copy, Debug, PartialEq, Eq)]
pub enum Action {
    /// Take the next path from the conduit (or learn that it is closed).
    Pull,
    /// Start the hash job for the path just taken, under this ticket.
    Spawn(u64),
    /// Wait for the job with this ticket, the oldest still open, and emit
    /// its result.
    AwaitHead(u64),
    /// Every job has been emitted: the run is over.
    Finish,
}

/// The sliding window of a run: jobs `emitted..admitted` are running, in
/// ticket order, and at most `capacity` of them at once.
pub struct Window {
    capacity: usize,
    admitted: u64,
    emitted: u64,
    held: bool,
    closed: bool,
}

impl Window {
    pub closed spec fn capacity(&self) -> nat {
        self.capacity as nat
    }

    /// Jobs started so far; the next one gets this number as its ticket.
    pub closed spec fn admitted(&self) -> nat {
        self.admitted as nat
    }

    /// Jobs whose results were emitted so far.
    pub closed spec fn emitted(&self) -> nat {
        self.emitted as nat
    }

    /// A path has been taken from the conduit but its job not yet started.
    pub closed spec fn held(&self) -> bool {
        self.held
    }

    /// The conduit reported that no path is left.
    pub closed spec fn closed(&self) -> bool {
        self.closed
    }

    /// Paths taken from the conduit so far.
    pub open spec fn taken(&self) -> nat {
        self.admitted() + if self.held() { 1nat } else { 0nat }
    }

    /// Jobs running (so files open) right now.
    pub open spec fn in_flight(&self) -> int {
        self.admitted() - self.emitted()
    }

    pub open spec fn wf(&self) -> bool {
        &&& self.capacity() >= 1
        &&& self.emitted() <= self.admitted()
        &&& self.in_flight() <= self.capacity()
        &&& (self.held() ==> !self.closed() && self.admitted() < u64::MAX)
    }

    /// The decision rule: a taken path starts as soon as the window has
    /// room, else the oldest job is awaited first; an empty hand pulls
    /// while the conduit is open; once it is closed the window drains.
    pub open spec fn next_spec(&self) -> Action {
        if self.held() {
            if self.in_flight() < self.capacity() {
                Action::Spawn(self.admitted() as u64)
            } else {
                Action::AwaitHead(self.emitted() as u64)
            }
        } else if !self.closed() {
            Action::Pull
        } else if self.in_flight() > 0 {
            Action::AwaitHead(self.emitted() as u64)
        } else {
            Action::Finish
        }
    }

    /// An empty window for `capacity` concurrent jobs.
    pub fn new(capacity: usize) -> (r: Window)
        requires
            capacity >= 1,
        ensures
            r.wf(),
            r.capacity() == capacity,
            r.admitted() == 0,
            r.emitted() == 0,
            !r.held(),
            !r.closed(),
    {
        Window { capacity, admitted: 0, emitted: 0, held: false, closed: false }
    }

    /// Jobs started so far.
    pub fn admitted_count(&self) -> (r: u64)
        ensures
            r as nat == self.admitted(),
    {
        self.admitted
    }

    /// The next action of the run.
    pub fn next_action(&self) -> (r: Action)
        requires
            self.wf(),
        ensures
            r == self.next_spec(),
    {
        if self.held {
            if self.admitted - self.emitted < self.capacity as u64 {
                Action::Spawn(self.admitted)
            } else {
                Action::AwaitHead(self.emitted)
            }
        } else if !self.closed {
            Action::Pull
        } else if self.admitted > self.emitted {
            Action::AwaitHead(self.emitted)
        } else {
            Action::Finish
        }
    }

    /// After `Pull`: the conduit handed over a path.
    pub fn path_taken(&mut self)
        requires
            old(self).wf(),
            old(self).next_spec() == Action::Pull,
            old(self).admitted() < u64::MAX,
        ensures
            final(self).wf(),
            final(self).held(),
            final(self).taken() == old(self).taken() + 1,
            final(self).admitted() == old(self).admitted(),
            final(self).emitted() == old(self).emitted(),
            final(self).capacity() == old(self).capacity(),
            final(self).closed() == old(self).closed(),
    {
        self.held = true;
    }

    /// After `Pull`: the conduit is closed and empty.
    pub fn source_closed(&mut self)
        requires
            old(self).wf(),
            old(self).next_spec() == Action::Pull,
        ensures
            final(self).wf(),
            final(self).closed(),
            !final(self).held(),
            final(self).admitted() == old(self).admitted(),
            final(self).emitted() == old(self).emitted(),
            final(self).capacity() == old(self).capacity(),
    {
        self.closed = true;
    }

    /// After `Spawn(t)`: the job with ticket `t` runs.
    pub fn spawned(&mut self)
        requires
            old(self).wf(),
            old(self).next_spec() is Spawn,
        ensures
            final(self).wf(),
            !final(self).held(),
            final(self).admitted() == old(self).admitted() + 1,
            final(self).taken() == old(self).taken(),
            final(self).emitted() == old(self).emitted(),
            final(self).capacity() == old(self).capacity(),
            final(self).closed() == old(self).closed(),
    {
        self.admitted = self.admitted + 1;
        self.held = false;
    }

    /// After `AwaitHead(t)`: the result of ticket `t` was emitted.
    pub fn head_emitted(&mut self)
        requires
            old(self).wf(),
            old(self).next_spec() is AwaitHead,
        ensures
            final(self).wf(),
            final(self).emitted() == old(self).emitted() + 1,
            final(self).admitted() == old(self).admitted(),
            final(self).held() == old(self).held(),
            final(self).capacity() == old(self).capacity(),
            final(self).closed() == old(self).closed(),
    {
        self.emitted = self.emitted + 1;
    }
}

/// Order and boundedness of the window, in every state: a job is started
/// under the number of paths taken before its own, the job awaited is
/// always the oldest running one (so the `k`-th result emitted is that of
/// the `k`-th path taken, whatever order the jobs finish in), no result is
/// awaited before the window is full unless the source is exhausted, and
/// no action starts a job beyond the window's capacity.
pub proof fn lemma_window_order(w: Window)
    requires
        w.wf(),
    ensures
        w.in_flight() <= w.capacity(),
        w.next_spec() is Spawn ==> w.next_spec()->Spawn_0 == w.taken() - 1
            && w.in_flight() + 1 <= w.capacity(),
        w.next_spec() is AwaitHead ==> w.next_spec()->AwaitHead_0 == w.emitted()
            && w.emitted() < w.admitted()
            && (w.in_flight() == w.capacity() || w.closed()),
        w.next_spec() == Action::Finish ==> w.closed() && w.emitted() == w.taken(),
{
}

/// Drives a window of `capacity` jobs over a source of `n_paths` paths,
/// whatever the jobs' durations: the window only ever waits for its oldest
/// job. Returns the tickets in the order their results were emitted, and
/// the largest number of jobs that ran at once.
pub fn run_order(capacity: usize, n_paths: u64) -> (r: (Vec<u64>, usize))
    requires
        capacity >= 1,
    ensures
        r.0@.len() == n_paths,
        forall|i: int| 0 <= i < r.0@.len() ==> r.0@[i] == i,
        r.1 as int == if n_paths < capacity { n_paths as int } else { capacity as int },
{
    let mut w = Window::new(capacity);
    let mut out: Vec<u64> = Vec::new();
    let mut peak: usize = 0;
    loop
        invariant
            w.wf(),
            w.capacity() == capacity,
            w.taken() <= n_paths,
            w.closed() ==> w.taken() == n_paths,
            !w.closed() && w.admitted() < capacity ==> w.emitted() == 0,
            out@.len() == w.emitted(),
            forall|i: int| 0 <= i < out@.len() ==> out@[i] == i,
            peak as int == if w.admitted() < capacity { w.admitted() as int } else { capacity as int },
        ensures
            out@.len() == n_paths,
            w.admitted() == n_paths,
            forall|i: int| 0 <= i < out@.len() ==> out@[i] == i,
            peak as int == if w.admitted() < capacity { w.admitted() as int } else { capacity as int },
        decreases
            4 * (n_paths - w.taken()) + (if w.held() { 2int } else { 0int }) + w.in_flight()
                + (if w.closed() { 0int } else { 1int }),
    {
        match w.next_action() {
            Action::Pull => {
                if (w.admitted + (if w.held { 1u64 } else { 0u64 })) < n_paths {
                    w.path_taken();
                } else {
                    w.source_closed();
                }
            },
            Action::Spawn(_) => {
                w.spawned();
                if peak < capacity {
                    peak = peak + 1;
                }
            },
            Action::AwaitHead(t) => {
                out.push(t);
                w.head_emitted();
            },
            Action::Finish => {
                proof {
                    lemma_window_order(w);
                }
                break;
            },
        }
    }
    (out, peak)
}

} // verus!
