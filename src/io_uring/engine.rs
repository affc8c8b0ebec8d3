//! The I/O driver: the registry of in-flight operations, the submission queue and its
//! backlog, and the dispatch of completions.
//!
//! The driver keeps the submissions waiting for the next submit in a queue of the ring's
//! depth. A submission that finds the queue full waits in the backlog, which is drained
//! into the queue at the start of every pump iteration, before any completion is handled.

use std::collections::VecDeque;

use vstd::prelude::*;

use super::cancel::Cancel;
use super::completion::{CompletionEntry, CompletionStatus, Submission};
use super::error::{is_transient, Error, EBUSY, ETIME};
use super::operation::Operation;
use super::slots::{
    slab_contains, slab_entries, slab_get, slab_get_mut, slab_insert, slab_len,
    slab_try_remove, slab_with_capacity,
};

verus! {

/// The submission of `op` registered under slot `k`.
pub open spec fn stamped(op: Operation, k: usize) -> Submission {
    Submission { user_data: k as u64, ..op.entry_spec() }
}

/// The cancel the driver submits for slot `k`; the kernel posts nothing when it succeeds.
pub open spec fn cancel_entry(k: usize) -> Submission {
    Submission { skip_success: true, ..Submission::cancel_of(k as u64) }
}

/// The ticket handed out after `t`.
pub open spec fn next_after(t: u64) -> u64 {
    if t == u64::MAX {
        0
    } else {
        (t + 1) as u64
    }
}

/// A registered operation and the ticket it was registered with. Tickets tell apart the
/// operations that use one slot one after another.
pub struct Slot {
    pub ticket: u64,
    pub op: Operation,
}

/// The smaller of two naturals.
pub open spec fn min_nat(a: nat, b: nat) -> nat {
    if a <= b {
        a
    } else {
        b
    }
}

/// Whether none of the first `n` completions names slot `k`.
pub open spec fn untouched(cs: Seq<CompletionEntry>, n: int, k: usize) -> bool {
    forall|j: int| 0 <= j < n ==> #[trigger] cs[j].user_data != k as u64
}

/// Whether a pump iteration must stop because the submit-and-wait that began it failed.
pub open spec fn fatal(wait: Result<(), i32>) -> bool {
    wait matches Err(e) && !is_transient(e)
}

/// The outcome of the submit-and-wait that begins a pump iteration: a busy ring and a timed
/// out wait are not errors; any other failure is.
pub fn submit_outcome(wait: Result<(), i32>) -> (r: Result<(), Error>)
    ensures
        fatal(wait) ==> (wait matches Err(e) && r == Err::<(), Error>(Error::IO(e))),
        !fatal(wait) ==> r is Ok,
{
    match wait {
        Ok(()) => Ok(()),
        Err(e) => {
            if e == EBUSY || e == ETIME {
                Ok(())
            } else {
                Err(Error::IO(e))
            }
        },
    }
}

/// One driver per worker thread: it owns the operations in flight on that worker's ring.
pub struct UringDriver {
    state: slab::Slab<Slot>,
    next_ticket: u64,
    queue: Vec<Submission>,
    backlog: VecDeque<Submission>,
    depth: usize,
    submit_timeout_ns: u64,
    min_completions: usize,
}

impl UringDriver {
    /// The operations in flight, by slot.
    pub closed spec fn ops(&self) -> Map<usize, Operation> {
        slab_entries(self.state).map_values(|s: Slot| s.op)
    }

    /// The ticket each live slot was registered with.
    pub closed spec fn tickets(&self) -> Map<usize, u64> {
        slab_entries(self.state).map_values(|s: Slot| s.ticket)
    }

    /// The ticket the next registration gets.
    pub closed spec fn next_ticket(&self) -> u64 {
        self.next_ticket
    }

    proof fn lemma_slot_domains(&self)
        ensures
            self.ops().dom() == self.tickets().dom(),
    {
        assert(self.ops().dom() =~= self.tickets().dom());
    }

    /// Whether slot `k` holds the operation registered with ticket `t`.
    pub open spec fn holds(&self, k: usize, t: u64) -> bool {
        self.tickets().contains_key(k) && self.tickets()[k] == t
    }

    /// The submissions waiting for the next submit, oldest first.
    pub closed spec fn queued(&self) -> Seq<Submission> {
        self.queue@
    }

    /// The submissions that found the queue full, oldest first.
    pub closed spec fn parked(&self) -> Seq<Submission> {
        self.backlog@
    }

    /// How many submissions the queue holds: the ring's depth.
    pub closed spec fn depth(&self) -> nat {
        self.depth as nat
    }

    /// The fixed parameters of the wait that begins every pump iteration.
    pub closed spec fn wait_params(&self) -> (nat, u64) {
        (self.min_completions as nat, self.submit_timeout_ns)
    }

    /// Every submission not yet handed to the kernel.
    pub open spec fn pending(&self) -> Seq<Submission> {
        self.queued() + self.parked()
    }

    /// The queue never holds more than the ring's depth.
    pub open spec fn wf(&self) -> bool {
        self.depth() > 0 && self.queued().len() <= self.depth()
    }

    /// Whether the backlog only holds entries while the queue is full, so that new entries
    /// line up behind every parked one.
    pub open spec fn drained(&self) -> bool {
        self.parked().len() > 0 ==> self.queued().len() == self.depth()
    }

    /// `post` is this driver with `entry` added: to the queue while it has room, else to the
    /// backlog. The operations are not touched.
    pub open spec fn enqueued(self, entry: Submission, post: Self) -> bool {
        &&& post.depth() == self.depth()
        &&& post.wait_params() == self.wait_params()
        &&& if self.queued().len() < self.depth() {
            post.queued() == self.queued().push(entry) && post.parked() == self.parked()
        } else {
            post.queued() == self.queued() && post.parked() == self.parked().push(entry)
        }
    }

    /// `post` has this driver's submissions, parameters and next ticket.
    pub open spec fn same_queue(self, post: Self) -> bool {
        &&& post.queued() == self.queued()
        &&& post.parked() == self.parked()
        &&& post.depth() == self.depth()
        &&& post.wait_params() == self.wait_params()
        &&& post.next_ticket() == self.next_ticket()
    }

    /// `post` is this driver with its slots and submissions unchanged.
    pub open spec fn unchanged(self, post: Self) -> bool {
        &&& post.ops() == self.ops()
        &&& post.tickets() == self.tickets()
        &&& self.same_queue(post)
    }

    /// `post` is this driver with slot `k` freed and nothing else changed.
    pub open spec fn freed(self, k: usize, post: Self) -> bool {
        &&& post.ops() == self.ops().remove(k)
        &&& post.tickets() == self.tickets().remove(k)
        &&& self.same_queue(post)
    }

    /// `post` is this driver after `op` was registered under slot `k`: the slot was free,
    /// now holds `op`, and the operation's submission, stamped with `k`, was enqueued.
    /// The slot gets the next ticket.
    pub open spec fn registered(self, op: Operation, post: Self, k: usize) -> bool {
        &&& !self.ops().contains_key(k)
        &&& post.ops() == self.ops().insert(k, op)
        &&& post.tickets() == self.tickets().insert(k, self.next_ticket())
        &&& post.next_ticket() == next_after(self.next_ticket())
        &&& self.enqueued(stamped(op, k), post)
    }

    /// `post` is this driver after slot `k` was deregistered: a live slot is freed and one
    /// cancel targeting it is enqueued; a free slot changes nothing.
    pub open spec fn deregistered(self, k: usize, post: Self) -> bool {
        if self.ops().contains_key(k) {
            &&& post.ops() == self.ops().remove(k)
            &&& post.tickets() == self.tickets().remove(k)
            &&& post.next_ticket() == self.next_ticket()
            &&& self.enqueued(cancel_entry(k), post)
        } else {
            self.unchanged(post)
        }
    }

    /// `post` is this driver after it handled completion `cqe`, with outcome `r`. A
    /// completion for no live slot is dropped. Otherwise the slot's operation resolves it:
    /// a single-shot operation is finalized and its slot freed; a multi-shot one stays in its
    /// slot, and is submitted again under the same slot when the kernel has dropped it.
    pub open spec fn resolved(
        self,
        cqe: CompletionEntry,
        post: Self,
        r: Option<CompletionStatus>,
    ) -> bool {
        if cqe.user_data > usize::MAX || !self.ops().contains_key(cqe.user_data as usize) {
            r is None && self.unchanged(post)
        } else {
            let k = cqe.user_data as usize;
            let op = self.ops()[k];
            &&& r is Some
            &&& !op.is_multishot() ==> r == Some(CompletionStatus::Finalized)
            &&& exists|after: Operation|
                #[trigger] op.settles(cqe, after) && (r != Some(CompletionStatus::Finalized)
                    ==> post.ops()[k] == after)
            &&& r == Some(CompletionStatus::Finalized) ==> self.freed(k, post)
            &&& r != Some(CompletionStatus::Finalized) ==> {
                &&& post.ops() == self.ops().insert(k, post.ops()[k])
                &&& post.tickets() == self.tickets()
                &&& post.next_ticket() == self.next_ticket()
                &&& post.ops()[k].entry_spec() == op.entry_spec()
                &&& post.ops()[k].is_multishot() == op.is_multishot()
            }
            &&& r == Some(CompletionStatus::Armed) ==> cqe.more() && self.same_queue(post)
            &&& r == Some(CompletionStatus::Rearm) ==> !cqe.more() && self.enqueued(
                stamped(op, k),
                post,
            )
        }
    }

    /// `post` is this driver after the backlog was drained, oldest first, into the queue as
    /// far as the queue has room.
    pub open spec fn cleared(self, post: Self) -> bool {
        let m = min_nat(self.parked().len(), (self.depth() - self.queued().len()) as nat);
        &&& post.queued() == self.queued() + self.parked().take(m as int)
        &&& post.parked() == self.parked().skip(m as int)
        &&& post.ops() == self.ops()
        &&& post.tickets() == self.tickets()
        &&& post.depth() == self.depth()
        &&& post.wait_params() == self.wait_params()
        &&& post.next_ticket() == self.next_ticket()
    }

    /// A driver for a ring of depth `entries`, with nothing in flight. Each pump iteration
    /// waits for one completion or 100 ms.
    pub fn new(entries: u32) -> (d: UringDriver)
        requires
            entries > 0,
        ensures
            d.wf(),
            d.drained(),
            d.ops() == Map::<usize, Operation>::empty(),
            d.tickets() == Map::<usize, u64>::empty(),
            d.next_ticket() == 0,
            d.queued() == Seq::<Submission>::empty(),
            d.parked() == Seq::<Submission>::empty(),
            d.depth() == entries,
            d.wait_params() == (1nat, 100_000_000u64),
    {
        let state = slab_with_capacity(1024);
        proof {
            assert(slab_entries(state).map_values(|s: Slot| s.op) =~= Map::<usize, Operation>::empty());
            assert(slab_entries(state).map_values(|s: Slot| s.ticket) =~= Map::<usize, u64>::empty());
        }
        UringDriver {
            state,
            next_ticket: 0,
            queue: Vec::new(),
            backlog: VecDeque::with_capacity(1024),
            depth: entries as usize,
            submit_timeout_ns: 100_000_000,
            min_completions: 1,
        }
    }

    /// The least number of completions each pump iteration waits for.
    pub fn min_completions(&self) -> (r: usize)
        ensures
            r == self.wait_params().0,
    {
        self.min_completions
    }

    /// How long each pump iteration waits at most, in nanoseconds.
    pub fn submit_timeout_ns(&self) -> (r: u64)
        ensures
            r == self.wait_params().1,
    {
        self.submit_timeout_ns
    }

    /// The number of operations in flight.
    pub fn in_flight(&self) -> (r: usize)
        ensures
            r == self.ops().len(),
    {
        assert(self.ops().dom() =~= slab_entries(self.state).dom());
        slab_len(&self.state)
    }

    /// The ticket slot `k` was registered with, if it is live.
    pub fn ticket_of(&self, k: usize) -> (r: Option<u64>)
        ensures
            self.tickets().contains_key(k) ==> r == Some(self.tickets()[k]),
            !self.tickets().contains_key(k) ==> r is None,
    {
        if slab_contains(&self.state, k) {
            Some(slab_get(&self.state, k).ticket)
        } else {
            None
        }
    }

    /// Whether slot `k` holds an operation.
    pub fn contains(&self, k: usize) -> (r: bool)
        ensures
            r == self.ops().contains_key(k),
    {
        slab_contains(&self.state, k)
    }

    /// The number of submissions waiting in the queue.
    pub fn queued_len(&self) -> (r: usize)
        ensures
            r == self.queued().len(),
    {
        self.queue.len()
    }

    /// The number of submissions waiting in the backlog.
    pub fn backlog_len(&self) -> (r: usize)
        ensures
            r == self.parked().len(),
    {
        self.backlog.len()
    }

    /// Adds a submission: to the queue while it has room, else to the backlog.
    fn enqueue(&mut self, entry: Submission)
        requires
            old(self).wf(),
        ensures
            final(self).wf(),
            old(self).drained() ==> final(self).drained(),
            old(self).enqueued(entry, *final(self)),
            final(self).ops() == old(self).ops(),
            final(self).tickets() == old(self).tickets(),
            final(self).next_ticket() == old(self).next_ticket(),
    {
        if self.queue.len() < self.depth {
            self.queue.push(entry);
        } else {
            self.backlog.push_back(entry);
        }
    }

    /// Registers an operation: it takes a free slot and the next ticket, and its
    /// submission, stamped with the slot index, is enqueued. Returns the slot index and the
    /// ticket.
    pub fn register_ticketed(&mut self, op: Operation) -> (r: (usize, u64))
        requires
            old(self).wf(),
        ensures
            final(self).wf(),
            old(self).drained() ==> final(self).drained(),
            old(self).registered(op, *final(self), r.0),
            r.1 == old(self).next_ticket(),
    {
        let entry = op.entry();
        let ticket = self.next_ticket;
        let ghost e0 = slab_entries(self.state);
        let index = slab_insert(&mut self.state, Slot { ticket, op });
        proof {
            let e1 = slab_entries(self.state);
            assert(e1.map_values(|s: Slot| s.op) =~= e0.map_values(|s: Slot| s.op).insert(index, op));
            assert(e1.map_values(|s: Slot| s.ticket) =~= e0.map_values(|s: Slot| s.ticket).insert(
                index,
                ticket,
            ));
        }
        self.next_ticket = if ticket == u64::MAX {
            0
        } else {
            ticket + 1
        };
        self.enqueue(entry.with_user_data(index as u64));
        (index, ticket)
    }

    /// Registers an operation: it takes a free slot, and its submission, stamped with the
    /// slot index, is enqueued. Returns the slot index.
    pub fn register(&mut self, op: Operation) -> (k: usize)
        requires
            old(self).wf(),
        ensures
            final(self).wf(),
            old(self).drained() ==> final(self).drained(),
            old(self).registered(op, *final(self), k),
    {
        self.register_ticketed(op).0
    }

    /// Deregisters slot `k`: its operation is dropped and a cancel of every submission
    /// carrying `k` is enqueued. A free slot is left alone, so repeated calls are harmless.
    pub fn deregister(&mut self, k: usize)
        requires
            old(self).wf(),
        ensures
            final(self).wf(),
            old(self).drained() ==> final(self).drained(),
            old(self).deregistered(k, *final(self)),
    {
        let ghost e0 = slab_entries(self.state);
        match slab_try_remove(&mut self.state, k) {
            None => {},
            Some(_slot) => {
                proof {
                    let e1 = slab_entries(self.state);
                    assert(e1.map_values(|s: Slot| s.op) =~= e0.map_values(|s: Slot| s.op).remove(k));
                    assert(e1.map_values(|s: Slot| s.ticket) =~= e0.map_values(
                        |s: Slot| s.ticket,
                    ).remove(k));
                }
                let entry = Cancel::new(k).entry().skipping_success();
                self.enqueue(entry);
            },
        }
    }

    /// Deregisters slot `k` if it still holds the operation registered with `ticket`;
    /// otherwise changes nothing.
    pub fn deregister_if(&mut self, k: usize, ticket: u64)
        requires
            old(self).wf(),
        ensures
            final(self).wf(),
            old(self).drained() ==> final(self).drained(),
            old(self).holds(k, ticket) ==> old(self).deregistered(k, *final(self)),
            !old(self).holds(k, ticket) ==> old(self).unchanged(*final(self)),
    {
        match self.ticket_of(k) {
            Some(t) => {
                if t == ticket {
                    self.deregister(k);
                }
            },
            None => {},
        }
    }

    /// Hands the queued submissions over for the kernel, oldest first, and empties the
    /// queue.
    pub fn take_submissions(&mut self) -> (r: Vec<Submission>)
        requires
            old(self).wf(),
        ensures
            final(self).wf(),
            r@ == old(self).queued(),
            final(self).queued() == Seq::<Submission>::empty(),
            final(self).ops() == old(self).ops(),
            final(self).tickets() == old(self).tickets(),
            final(self).next_ticket() == old(self).next_ticket(),
            final(self).parked() == old(self).parked(),
            final(self).depth() == old(self).depth(),
            final(self).wait_params() == old(self).wait_params(),
    {
        let mut out: Vec<Submission> = Vec::new();
        std::mem::swap(&mut out, &mut self.queue);
        out
    }

    /// Puts submissions the kernel's queue had no room for back at the head of the
    /// backlog, in their order.
    pub fn park(&mut self, entries: Vec<Submission>)
        requires
            old(self).wf(),
        ensures
            final(self).wf(),
            final(self).parked() == entries@ + old(self).parked(),
            final(self).queued() == old(self).queued(),
            final(self).ops() == old(self).ops(),
            final(self).tickets() == old(self).tickets(),
            final(self).next_ticket() == old(self).next_ticket(),
            final(self).depth() == old(self).depth(),
            final(self).wait_params() == old(self).wait_params(),
    {
        let mut i: usize = entries.len();
        while i > 0
            invariant
                i <= entries@.len(),
                self.wf(),
                self.parked() == entries@.subrange(i as int, entries@.len() as int) + old(
                    self,
                ).parked(),
                self.queued() == old(self).queued(),
                self.ops() == old(self).ops(),
                self.tickets() == old(self).tickets(),
                self.next_ticket() == old(self).next_ticket(),
                self.depth() == old(self).depth(),
                self.wait_params() == old(self).wait_params(),
            decreases i,
        {
            i = i - 1;
            let ghost before = self.backlog@;
            self.backlog.push_front(entries[i]);
            assert(self.backlog@ =~= entries@.subrange(i as int, entries@.len() as int) + old(
                self,
            ).parked());
        }
        assert(entries@.subrange(0, entries@.len() as int) =~= entries@);
    }

    /// Moves parked submissions, oldest first, into the queue while it has room.
    pub fn clear_backlog(&mut self)
        requires
            old(self).wf(),
        ensures
            final(self).wf(),
            final(self).drained(),
            final(self).pending() == old(self).pending(),
            old(self).cleared(*final(self)),
    {
        let ghost q0 = self.queue@;
        let ghost b0 = self.backlog@;
        let mut moved: usize = 0;
        while self.queue.len() < self.depth && self.backlog.len() > 0
            invariant
                self.wf(),
                moved <= b0.len(),
                self.queue@ == q0 + b0.take(moved as int),
                self.backlog@ == b0.skip(moved as int),
                self.ops() == old(self).ops(),
                self.tickets() == old(self).tickets(),
                self.next_ticket() == old(self).next_ticket(),
                self.depth() == old(self).depth(),
                self.wait_params() == old(self).wait_params(),
            decreases self.backlog@.len(),
        {
            match self.backlog.pop_front() {
                Some(entry) => {
                    self.queue.push(entry);
                    moved = moved + 1;
                    assert(self.queue@ =~= q0 + b0.take(moved as int));
                    assert(self.backlog@ =~= b0.skip(moved as int));
                },
                None => {},
            }
        }
        assert(q0 + b0 =~= (q0 + b0.take(moved as int)) + b0.skip(moved as int));
    }

    /// Handles one completion. A completion whose user-data names no live slot (a late
    /// completion of a deregistered operation, or a cancel's) is dropped. Otherwise the
    /// slot's operation resolves it and the driver does what the returned status says.
    pub fn complete(&mut self, cqe: CompletionEntry) -> (r: Option<CompletionStatus>)
        requires
            old(self).wf(),
        ensures
            final(self).wf(),
            old(self).drained() ==> final(self).drained(),
            old(self).resolved(cqe, *final(self), r),
    {
        if cqe.user_data > usize::MAX as u64 {
            return None;
        }
        let k = cqe.user_data as usize;
        if !slab_contains(&self.state, k) {
            return None;
        }
        let ghost e0 = slab_entries(self.state);
        let slot = slab_get_mut(&mut self.state, k);
        let status = slot.op.resolve_entry(cqe);
        let again = match status {
            CompletionStatus::Rearm => Some(slot.op.entry().with_user_data(cqe.user_data)),
            _ => None,
        };
        proof {
            let e1 = slab_entries(self.state);
            assert(e0[k].op.settles(cqe, e1[k].op));
            assert(e1.map_values(|s: Slot| s.op) =~= e0.map_values(|s: Slot| s.op).insert(
                k,
                e1[k].op,
            ));
            assert(e1.map_values(|s: Slot| s.ticket) =~= e0.map_values(|s: Slot| s.ticket));
            assert(e0[k].op.settles(cqe, e1[k].op));
        }
        match again {
            Some(entry) => self.enqueue(entry),
            None => {},
        }
        match status {
            CompletionStatus::Finalized => {
                let _done = slab_try_remove(&mut self.state, k);
                proof {
                    let e2 = slab_entries(self.state);
                    assert(e2.map_values(|s: Slot| s.op) =~= e0.map_values(|s: Slot| s.op).remove(
                        k,
                    ));
                    assert(e2.map_values(|s: Slot| s.ticket) =~= e0.map_values(
                        |s: Slot| s.ticket,
                    ).remove(k));
                }
            },
            _ => {},
        }
        Some(status)
    }

    /// One iteration of the pump, after the submit-and-wait that began it returned `wait`
    /// and the kernel posted `completions`. A failed wait other than a busy ring or a
    /// timeout is fatal and changes nothing. Otherwise the backlog is drained into the queue
    /// first, and then every completion is handled in order: nothing lines up ahead of what
    /// was already waiting, and only operations named by a completion change or leave.
    pub fn run(&mut self, wait: Result<(), i32>, completions: &Vec<CompletionEntry>) -> (r:
        Result<(), Error>)
        requires
            old(self).wf(),
        ensures
            final(self).wf(),
            fatal(wait) ==> (wait matches Err(e) && r == Err::<(), Error>(Error::IO(e))
                && old(self).unchanged(*final(self))),
            !fatal(wait) ==> {
                &&& r is Ok
                &&& final(self).drained()
                &&& final(self).pending().len() >= old(self).pending().len()
                &&& final(self).pending().take(old(self).pending().len() as int) == old(
                    self,
                ).pending()
                &&& final(self).queued().len() >= min_nat(
                    old(self).pending().len(),
                    old(self).depth(),
                )
                &&& final(self).ops().dom().subset_of(old(self).ops().dom())
                &&& forall|k: usize|
                    #![trigger untouched(completions@, completions@.len() as int, k)]
                    old(self).ops().contains_key(k) && untouched(
                        completions@,
                        completions@.len() as int,
                        k,
                    ) ==> final(self).ops().contains_key(k) && final(self).ops()[k] == old(
                        self,
                    ).ops()[k]
                &&& final(self).depth() == old(self).depth()
                &&& final(self).wait_params() == old(self).wait_params()
                &&& exists|c: UringDriver|
                    #[trigger] old(self).cleared(c) && dispatched(c, completions@, *final(self))
            },
    {
        match submit_outcome(wait) {
            Err(e) => {
                return Err(e);
            },
            Ok(()) => {},
        }
        self.clear_backlog();
        let ghost start = *self;
        let mut i: usize = 0;
        assert(completions@.take(0) =~= Seq::<CompletionEntry>::empty());
        while i < completions.len()
            invariant
                i <= completions@.len(),
                old(self).cleared(start),
                dispatched(start, completions@.take(i as int), *self),
                self.wf(),
                self.drained(),
                start.pending() == old(self).pending(),
                start.ops() == old(self).ops(),
                start.queued().len() >= min_nat(old(self).pending().len(), old(self).depth()),
                self.pending().len() >= start.pending().len(),
                self.pending().take(start.pending().len() as int) == start.pending(),
                self.queued().len() >= start.queued().len(),
                self.ops().dom().subset_of(start.ops().dom()),
                forall|k: usize|
                    #![trigger untouched(completions@, i as int, k)]
                    start.ops().contains_key(k) && untouched(completions@, i as int, k)
                        ==> self.ops().contains_key(k) && self.ops()[k] == start.ops()[k],
                self.depth() == old(self).depth(),
                self.wait_params() == old(self).wait_params(),
            decreases completions@.len() - i,
        {
            let ghost before = *self;
            let cqe = completions[i];
            let _status = self.complete(cqe);
            proof {
                lemma_resolved_keeps_order(before, cqe, *self, _status);
                assert(self.pending().take(start.pending().len() as int) =~= before.pending().take(
                    start.pending().len() as int,
                ));
                assert forall|k: usize|
                    #![trigger untouched(completions@, i + 1, k)]
                    start.ops().contains_key(k) && untouched(completions@, i + 1, k)
                        implies self.ops().contains_key(k) && self.ops()[k] == start.ops()[k] by {
                    assert(untouched(completions@, i as int, k));
                    assert(before.ops().contains_key(k) && before.ops()[k] == start.ops()[k]);
                    assert(completions@[i as int].user_data != k as u64);
                }
                assert(completions@.take(i + 1).drop_last() =~= completions@.take(i as int));
                assert(completions@.take(i + 1).last() == cqe);
                assert(before.resolved(completions@.take(i + 1).last(), *self, _status));
                assert(dispatched(start, completions@.take(i + 1), *self));
            }
            i = i + 1;
        }
        assert(completions@.take(completions@.len() as int) =~= completions@);
        assert(old(self).cleared(start));
        Ok(())
    }
}

/// Every live slot has a ticket and every ticket belongs to a live slot, so a slot that
/// `holds` a ticket holds an operation.
pub proof fn lemma_live_slots_have_tickets(d: UringDriver)
    ensures
        d.ops().dom() == d.tickets().dom(),
        forall|k: usize, t: u64| #[trigger] d.holds(k, t) ==> d.ops().contains_key(k),
{
    d.lemma_slot_domains();
}

/// `end` is `start` after it handled the completions `cs`, each once and in order, as
/// `resolved` says.
pub open spec fn dispatched(start: UringDriver, cs: Seq<CompletionEntry>, end: UringDriver) -> bool
    decreases cs.len(),
{
    if cs.len() == 0 {
        start.unchanged(end)
    } else {
        exists|mid: UringDriver, r: Option<CompletionStatus>|
            #[trigger] mid.resolved(cs.last(), end, r) && dispatched(start, cs.drop_last(), mid)
    }
}

/// What handling one completion does to the submissions and slots it does not name: the
/// waiting submissions keep their order with at most one more behind them, and every other
/// slot keeps its operation. No slot is ever added.
pub proof fn lemma_resolved_keeps_order(
    before: UringDriver,
    cqe: CompletionEntry,
    after: UringDriver,
    r: Option<CompletionStatus>,
)
    requires
        before.wf(),
        before.drained(),
        before.resolved(cqe, after, r),
    ensures
        after.pending().len() >= before.pending().len(),
        after.pending().take(before.pending().len() as int) == before.pending(),
        after.queued().len() >= before.queued().len(),
        after.depth() == before.depth(),
        after.wait_params() == before.wait_params(),
        after.ops().dom().subset_of(before.ops().dom()),
        forall|k: usize|
            #![trigger after.ops()[k]]
            before.ops().contains_key(k) && cqe.user_data != k as u64 ==> after.ops().contains_key(
                k,
            ) && after.ops()[k] == before.ops()[k],
{
    if before.parked().len() == 0 {
        assert(before.pending() =~= before.queued());
    }
    if cqe.user_data > usize::MAX || !before.ops().contains_key(cqe.user_data as usize) {
        assert(after.pending() =~= before.pending());
    } else {
        let k0 = cqe.user_data as usize;
        assert(k0 as u64 == cqe.user_data);
        if r == Some(CompletionStatus::Rearm) {
            if before.queued().len() < before.depth() {
                assert(after.pending() =~= before.pending().push(after.queued().last()));
            } else {
                assert(after.pending() =~= before.pending().push(after.parked().last()));
            }
        } else if r == Some(CompletionStatus::Finalized) {
            assert(after.pending() =~= before.pending());
            assert(after.ops() == before.ops().remove(k0));
        } else {
            assert(r == Some(CompletionStatus::Armed));
            assert(after.pending() =~= before.pending());
        }
        if r != Some(CompletionStatus::Finalized) {
            assert(after.ops() == before.ops().insert(k0, after.ops()[k0]));
        }
    }
    assert(after.pending().take(before.pending().len() as int) =~= before.pending());
}

/// The user-data the kernel echoes for a registered operation is the index `register`
/// returned: the submission enqueued for it carries that index, and a completion carrying it
/// reaches that operation.
pub proof fn lemma_user_data_is_slot(
    d0: UringDriver,
    op: Operation,
    d1: UringDriver,
    k: usize,
    cqe: CompletionEntry,
    d2: UringDriver,
    r: Option<CompletionStatus>,
)
    requires
        d0.registered(op, d1, k),
        cqe.user_data == stamped(op, k).user_data,
        d1.resolved(cqe, d2, r),
    ensures
        d1.pending().len() == d0.pending().len() + 1,
        d1.pending().contains(stamped(op, k)),
        stamped(op, k).user_data as usize == k,
        d1.ops()[stamped(op, k).user_data as usize] == op,
        r is Some,
{
    if d0.queued().len() < d0.depth() {
        assert(d1.pending() == d0.queued().push(stamped(op, k)) + d0.parked());
        assert(d1.pending()[d0.queued().len() as int] == stamped(op, k));
    } else {
        assert(d1.pending() =~= d0.pending().push(stamped(op, k)));
        assert(d1.pending()[d0.pending().len() as int] == stamped(op, k));
    }
}

/// A registered operation is finalized at most once: after its slot is freed, a further
/// completion carrying the same user-data finds no operation and changes nothing, and
/// no completion or deregistration ever makes the slot live again.
pub proof fn lemma_finalized_at_most_once(
    d1: UringDriver,
    k: usize,
    c1: CompletionEntry,
    d2: UringDriver,
    c2: CompletionEntry,
    d3: UringDriver,
    r2: Option<CompletionStatus>,
)
    requires
        d1.ops().contains_key(k),
        c1.user_data == k as u64,
        d1.resolved(c1, d2, Some(CompletionStatus::Finalized)),
        c2.user_data == k as u64,
        d2.resolved(c2, d3, r2),
    ensures
        !d2.ops().contains_key(k),
        r2 is None,
        d3.ops() == d2.ops(),
        !d3.ops().contains_key(k),
{
    assert(c1.user_data as usize == k);
    assert(d2.ops() == d1.ops().remove(k));
}

/// Completions and deregistrations never make a slot live: only `register` does.
pub proof fn lemma_no_slot_without_register(
    d: UringDriver,
    cqe: CompletionEntry,
    d1: UringDriver,
    r: Option<CompletionStatus>,
    k: usize,
    d2: UringDriver,
)
    requires
        d.resolved(cqe, d1, r),
        d.deregistered(k, d2),
    ensures
        d1.ops().dom().subset_of(d.ops().dom()),
        d2.ops().dom().subset_of(d.ops().dom()),
{
    if cqe.user_data <= usize::MAX && d.ops().contains_key(cqe.user_data as usize) {
        let k0 = cqe.user_data as usize;
        if r == Some(CompletionStatus::Finalized) {
            assert(d1.ops() == d.ops().remove(k0));
        } else {
            assert(d1.ops() == d.ops().insert(k0, d1.ops()[k0]));
        }
    }
}

/// Giving up an operation frees its slot and enqueues exactly one cancel, targeting that
/// slot; giving it up again changes nothing.
pub proof fn lemma_cancel_once(d0: UringDriver, k: usize, d1: UringDriver, d2: UringDriver)
    requires
        d0.ops().contains_key(k),
        d0.deregistered(k, d1),
        d1.deregistered(k, d2),
    ensures
        d2.ops() == d0.ops().remove(k),
        !d2.ops().contains_key(k),
        d0.enqueued(cancel_entry(k), d2),
        cancel_entry(k).cancels(k as u64),
        d2.pending().len() == d0.pending().len() + 1,
{
    assert(!d1.ops().contains_key(k));
}

/// A multi-shot operation the kernel dropped although its result was handed on is
/// submitted again under the same user-data and stays in its slot, so it goes on
/// delivering.
pub proof fn lemma_rearm_resubmits(d1: UringDriver, cqe: CompletionEntry, d2: UringDriver)
    requires
        d1.resolved(cqe, d2, Some(CompletionStatus::Rearm)),
    ensures
        cqe.user_data <= usize::MAX,
        d1.ops().contains_key(cqe.user_data as usize),
        d1.ops()[cqe.user_data as usize].is_multishot(),
        d2.ops().contains_key(cqe.user_data as usize),
        d2.ops()[cqe.user_data as usize].entry_spec() == d1.ops()[cqe.user_data
            as usize].entry_spec(),
        d1.enqueued(stamped(d1.ops()[cqe.user_data as usize], cqe.user_data as usize), d2),
        stamped(d1.ops()[cqe.user_data as usize], cqe.user_data as usize).user_data
            == cqe.user_data,
{
}

/// A submission that finds the queue full waits at the end of the backlog; the queue and
/// the operations already waiting are untouched.
pub proof fn lemma_full_queue_parks(d0: UringDriver, op: Operation, d1: UringDriver, k: usize)
    requires
        d0.wf(),
        d0.queued().len() == d0.depth(),
        d0.registered(op, d1, k),
    ensures
        d1.queued() == d0.queued(),
        d1.parked() == d0.parked().push(stamped(op, k)),
        d1.pending() == d0.pending().push(stamped(op, k)),
{
    assert(d1.pending() =~= d0.pending().push(stamped(op, k)));
}

} // verus!
