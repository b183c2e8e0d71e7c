//! The pool that fans work out to a fixed set of workers and fans their
//! results back in, in the order of the work.
//!
//! Worker `i` of `T` produces the results of the positions `i`, `i + T`,
//! `i + 2T`, ... and sends them, in that order, to a bounded queue of its
//! own. The consumer takes its item number `cnt` from queue `cnt % T`. The
//! pool is a state machine: a step that would have to wait is refused, and
//! whoever runs the pool waits and tries again.

use crate::channel::{occupancy_bound, sync_channel, Channel, TryRecvError, TrySendError};
use vstd::arithmetic::div_mod::{lemma_fundamental_div_mod, lemma_fundamental_div_mod_converse};
use vstd::prelude::*;

verus! {

/// What the consumer gets when it asks for the next item.
pub enum Next<T> {
    /// The result of the next position.
    Item(T),
    /// Its worker has not sent it yet: wait and ask again.
    Pending,
    /// Every position has been handed out.
    Finished,
    /// Its worker has gone without sending it. The stream cannot go on.
    Disconnected,
}

/// The position whose result is item `round` of worker `worker`.
pub open spec fn position_of(worker: int, round: int, workers: int) -> int {
    worker + round * workers
}

/// How many items the consumer has taken from the queue of `worker` when it
/// has taken `cnt` items in all: one for each full round, and one more when
/// the worker's turn in the current round has passed.
pub open spec fn taken_from(worker: int, cnt: int, workers: int) -> int {
    cnt / workers + if worker < cnt % workers {
        1int
    } else {
        0int
    }
}

/// The queue and round of the position after `cnt`.
pub proof fn lemma_div_mod_succ(cnt: int, workers: int)
    requires
        0 <= cnt,
        0 < workers,
    ensures
        0 <= cnt % workers < workers,
        cnt % workers + 1 < workers ==> (cnt + 1) % workers == cnt % workers + 1 && (cnt + 1)
            / workers == cnt / workers,
        cnt % workers + 1 == workers ==> (cnt + 1) % workers == 0 && (cnt + 1) / workers == cnt
            / workers + 1,
{
    lemma_fundamental_div_mod(cnt, workers);
    let q = cnt / workers;
    let r = cnt % workers;
    assert(workers * q == q * workers) by (nonlinear_arith);
    if r + 1 < workers {
        lemma_fundamental_div_mod_converse(cnt + 1, workers, q, r + 1);
    } else {
        assert((q + 1) * workers == q * workers + workers) by (nonlinear_arith);
        lemma_fundamental_div_mod_converse(cnt + 1, workers, q + 1, 0);
    }
}

/// Position `cnt` is item `cnt / T` of worker `cnt % T`.
pub proof fn lemma_position_of_turn(cnt: int, workers: int)
    requires
        0 <= cnt,
        0 < workers,
    ensures
        position_of(cnt % workers, cnt / workers, workers) == cnt,
        0 <= cnt % workers < workers,
        0 <= cnt / workers,
{
    lemma_fundamental_div_mod(cnt, workers);
    assert(workers * (cnt / workers) == (cnt / workers) * workers) by (nonlinear_arith);
}

/// The pool: one bounded queue for each worker, and the consumer's count.
pub struct ParMap<T> {
    cnt: usize,
    len: usize,
    open: bool,
    channels: Vec<Channel<T>>,
    produced: Vec<usize>,
    drained: Ghost<Seq<T>>,
}

impl<T> ParMap<T> {
    /// The number of items handed out so far.
    pub closed spec fn cnt(&self) -> usize {
        self.cnt
    }

    /// The number of positions; `usize::MAX` stands for a stream without
    /// end.
    pub closed spec fn len(&self) -> usize {
        self.len
    }

    /// The number of workers.
    pub closed spec fn workers(&self) -> nat {
        self.channels@.len()
    }

    /// Every item that `worker` has sent, in the order of sending.
    pub closed spec fn sent(&self, worker: int) -> Seq<T> {
        self.channels@[worker].sent()
    }

    /// The items of `worker` that are sent and not yet handed out.
    pub closed spec fn buffered(&self, worker: int) -> Seq<T> {
        self.channels@[worker].buffered()
    }

    /// The capacity of the queue of `worker`.
    pub closed spec fn capacity(&self, worker: int) -> usize {
        self.channels@[worker].capacity()
    }

    /// The consumer found the queue of `worker` empty and has been handed
    /// nothing from it since.
    pub closed spec fn waiting(&self, worker: int) -> bool {
        self.channels@[worker].receiver_waiting()
    }

    /// The queue of `worker` would take one more item: it holds fewer than
    /// its capacity, or it has no capacity, is empty, and the consumer waits
    /// for it.
    pub open spec fn has_room(&self, worker: int) -> bool {
        ||| self.buffered(worker).len() < self.capacity(worker)
        ||| (self.capacity(worker) == 0 && self.waiting(worker) && self.buffered(worker).len()
            == 0)
    }

    /// The worker has not hung up.
    pub closed spec fn worker_alive(&self, worker: int) -> bool {
        self.channels@[worker].sender_alive()
    }

    /// The consumer has not hung up.
    pub closed spec fn open(&self) -> bool {
        self.open
    }

    /// Every item handed out so far, in the order of handing out.
    pub closed spec fn drained(&self) -> Seq<T> {
        self.drained@
    }

    /// The queue that the consumer takes its next item from.
    pub open spec fn turn(&self) -> int {
        self.cnt() as int % self.workers() as int
    }

    /// What the consumer gets when it asks now: the end once every
    /// position is handed out; else the oldest item of the queue whose turn
    /// it is; else, from an empty queue, the word to wait, or the loss of
    /// the stream where the queue's worker has gone.
    pub open spec fn peek(&self) -> Next<T> {
        if self.cnt() >= self.len() {
            Next::Finished
        } else if self.buffered(self.turn()).len() > 0 {
            Next::Item(self.sent(self.turn())[self.cnt() as int / self.workers() as int])
        } else if self.worker_alive(self.turn()) {
            Next::Pending
        } else {
            Next::Disconnected
        }
    }

    /// The pool `after` is what asking for the next item makes of this one:
    /// an item handed out is counted and recorded, and nothing else changes.
    pub open spec fn advanced(&self, after: Self) -> bool {
        &&& after.wf()
        &&& after.len() == self.len()
        &&& after.workers() == self.workers()
        &&& after.open() == self.open()
        &&& forall|i: int|
                #![trigger after.sent(i)]
                #![trigger after.capacity(i)]
                #![trigger after.worker_alive(i)]
                #![trigger after.waiting(i)]
            0 <= i < self.workers() ==> {
                &&& after.sent(i) == self.sent(i)
                &&& after.capacity(i) == self.capacity(i)
                &&& after.worker_alive(i) == self.worker_alive(i)
                &&& after.waiting(i) == if i != self.turn() {
                    self.waiting(i)
                } else {
                    match self.peek() {
                        Next::Item(_) => false,
                        Next::Pending => true,
                        _ => self.waiting(i),
                    }
                }
            }
        &&& match self.peek() {
            Next::Item(item) => after.cnt() == self.cnt() + 1 && after.drained()
                == self.drained().push(item),
            _ => after.cnt() == self.cnt() && after.drained() == self.drained(),
        }
    }

    /// The position whose result `worker` sends next.
    pub open spec fn next_position(&self, worker: int) -> int {
        position_of(worker, self.sent(worker).len() as int, self.workers() as int)
    }

    /// The queues hold what the workers sent and the consumer has not taken;
    /// the consumer has taken from each queue what its turns came to; and
    /// item `j` handed out is item `j / T` of worker `j % T`.
    pub closed spec fn wf(&self) -> bool {
        let t = self.channels@.len() as int;
        &&& self.cnt <= self.len
        &&& self.len > 0 ==> t > 0
        &&& self.produced@.len() == t
        &&& self.drained@.len() == self.cnt
        &&& forall|i: int| 0 <= i < t ==> #[trigger] self.queue_ok(i)
        &&& forall|j: int| 0 <= j < self.cnt ==> #[trigger] self.turn_ok(j)
    }

    /// Queue `i` is valid, and the consumer has taken from it what its
    /// turns came to.
    closed spec fn queue_ok(&self, i: int) -> bool {
        &&& self.channels@[i].wf()
        &&& self.channels@[i].receiver_alive() == self.open
        &&& self.produced@[i] == self.channels@[i].sent().len()
        &&& self.channels@[i].received() == taken_from(
            i,
            self.cnt as int,
            self.channels@.len() as int,
        )
    }

    /// Item `j` handed out is item `j / T` of worker `j % T`.
    closed spec fn turn_ok(&self, j: int) -> bool {
        let t = self.channels@.len() as int;
        &&& j / t < self.channels@[j % t].sent().len()
        &&& self.drained@[j] == self.channels@[j % t].sent()[j / t]
    }

    /// Backpressure: in every state of the pool no queue holds more than
    /// its bound, which is its capacity, and one item for a queue without
    /// capacity. A queue of capacity one never holds more than one item.
    pub proof fn lemma_backpressure(&self)
        requires
            self.wf(),
        ensures
            forall|i: int|
                0 <= i < self.workers() ==> #[trigger] self.buffered(i).len() <= occupancy_bound(
                    self.capacity(i),
                ),
            forall|i: int|
                0 <= i < self.workers() && self.capacity(i) == 1 ==> #[trigger] self.buffered(
                    i,
                ).len() <= 1,
    {
        assert forall|i: int| 0 <= i < self.workers() implies #[trigger] self.buffered(i).len()
            <= occupancy_bound(self.capacity(i)) by {
            assert(self.queue_ok(i));
            self.channels@[i].lemma_bounded();
        }
    }

    /// What each queue holds and what was handed out, in terms of what the
    /// workers sent: a queue holds what its worker sent and the consumer's
    /// turns have not taken, and item `j` handed out is item `j / T` of
    /// worker `j % T`.
    pub proof fn lemma_wf(&self)
        requires
            self.wf(),
        ensures
            self.cnt() <= self.len(),
            self.len() > 0 ==> self.workers() > 0,
            self.drained().len() == self.cnt(),
            forall|i: int|
                #![trigger self.buffered(i)]
                #![trigger self.sent(i)]
                0 <= i < self.workers() ==> self.buffered(i) == self.sent(i).subrange(
                    taken_from(i, self.cnt() as int, self.workers() as int),
                    self.sent(i).len() as int,
                ),
            forall|j: int|
                0 <= j < self.cnt() ==> #[trigger] self.drained()[j] == self.sent(
                    j % (self.workers() as int),
                )[j / (self.workers() as int)],
    {
        assert forall|i: int| 0 <= i < self.workers() implies self.buffered(i)
            == self.sent(i).subrange(
            taken_from(i, self.cnt() as int, self.workers() as int),
            self.sent(i).len() as int,
        ) by {
            assert(self.queue_ok(i));
        }
        assert forall|j: int| 0 <= j < self.cnt() implies #[trigger] self.drained()[j]
            == self.sent(j % (self.workers() as int))[j / (self.workers() as int)] by {
            assert(self.turn_ok(j));
        }
    }

    /// The number of workers.
    pub fn num_workers(&self) -> (n: usize)
        ensures
            n == self.workers(),
    {
        self.channels.len()
    }

    /// The position that `worker` is to produce next, or `None` when all its
    /// positions are sent.
    pub fn next_work(&self, worker: usize) -> (r: Option<usize>)
        requires
            self.wf(),
            worker < self.workers(),
        ensures
            match r {
                Some(p) => p == self.next_position(worker as int) && p < self.len(),
                None => self.next_position(worker as int) >= self.len(),
            },
    {
        let workers = self.channels.len();
        let round = self.produced[worker];
        assert(self.queue_ok(worker as int));
        let ahead = match round.checked_mul(workers) {
            Some(ahead) => ahead,
            None => {
                return None;
            },
        };
        let position = match worker.checked_add(ahead) {
            Some(position) => position,
            None => {
                return None;
            },
        };
        if position < self.len {
            Some(position)
        } else {
            None
        }
    }

    /// Takes the result that `worker` sends for its next position, unless
    /// the consumer has gone or the worker's queue has no room; then the
    /// item comes back and nothing changes.
    pub fn send(&mut self, worker: usize, item: T) -> (r: Result<(), TrySendError<T>>)
        requires
            old(self).wf(),
            worker < old(self).workers(),
            old(self).next_position(worker as int) < old(self).len(),
        ensures
            final(self).wf(),
            final(self).cnt() == old(self).cnt(),
            final(self).len() == old(self).len(),
            final(self).workers() == old(self).workers(),
            final(self).drained() == old(self).drained(),
            final(self).open() == old(self).open(),
            forall|i: int|
                #![trigger final(self).sent(i)]
                #![trigger final(self).capacity(i)]
                #![trigger final(self).worker_alive(i)]
                #![trigger final(self).waiting(i)]
                0 <= i < old(self).workers() ==> {
                    &&& final(self).capacity(i) == old(self).capacity(i)
                    &&& final(self).worker_alive(i) == old(self).worker_alive(i)
                    &&& final(self).waiting(i) == old(self).waiting(i)
                    &&& i != worker ==> final(self).sent(i) == old(self).sent(i)
                },
            match r {
                Ok(()) => {
                    &&& old(self).open()
                    &&& old(self).has_room(worker as int)
                    &&& final(self).sent(worker as int) == old(self).sent(worker as int).push(item)
                },
                Err(TrySendError::Disconnected(back)) => {
                    &&& !old(self).open()
                    &&& back == item
                    &&& final(self).sent(worker as int) == old(self).sent(worker as int)
                },
                Err(TrySendError::Full(back)) => {
                    &&& old(self).open()
                    &&& !old(self).has_room(worker as int)
                    &&& back == item
                    &&& final(self).sent(worker as int) == old(self).sent(worker as int)
                },
            },
    {
        let ghost before = *self;
        let ghost t = self.channels@.len() as int;
        assert(before.queue_ok(worker as int));
        let r = self.channels[worker].send(item);
        if r.is_ok() {
            proof {
                let round = before.channels@[worker as int].sent().len() as int;
                assert(round * t >= round) by (nonlinear_arith)
                    requires
                        round >= 0,
                        t >= 1,
                ;
            }
            let count = self.produced[worker];
            self.produced.set(worker, count + 1);
        }
        proof {
            assert forall|j: int| 0 <= j < self.cnt implies #[trigger] self.turn_ok(j) by {
                lemma_position_of_turn(j, t);
                assert(before.turn_ok(j));
            }
            assert forall|i: int| 0 <= i < t implies #[trigger] self.queue_ok(i) by {
                assert(before.queue_ok(i));
            }
        }
        r
    }

    /// Hands out the result of the next position: the oldest item in queue
    /// `cnt % T`. Nothing changes when that queue is empty, or when all
    /// positions have been handed out.
    pub fn next(&mut self) -> (r: Next<T>)
        requires
            old(self).wf(),
        ensures
            r == old(self).peek(),
            old(self).advanced(*final(self)),
    {
        if self.cnt >= self.len {
            return Next::Finished;
        }
        let ghost before = *self;
        let ghost t = self.channels@.len() as int;
        let ghost c = self.cnt as int;
        let turn = self.cnt % self.channels.len();
        proof {
            lemma_div_mod_succ(c, t);
            assert(before.queue_ok(turn as int));
        }
        let got = self.channels[turn].recv();
        match got {
            Ok(item) => {
                self.cnt = self.cnt + 1;
                proof {
                    self.drained@ = self.drained@.push(item);
                    assert forall|i: int| 0 <= i < t implies #[trigger] self.queue_ok(i) by {
                        assert(before.queue_ok(i));
                    }
                    assert forall|j: int| 0 <= j < c + 1 implies #[trigger] self.turn_ok(j) by {
                        lemma_position_of_turn(j, t);
                        if j < c {
                            assert(before.turn_ok(j));
                        }
                    }
                }
                Next::Item(item)
            },
            Err(e) => {
                proof {
                    assert forall|i: int| 0 <= i < t implies #[trigger] self.queue_ok(i) by {
                        assert(before.queue_ok(i));
                    }
                    assert forall|j: int| 0 <= j < c implies #[trigger] self.turn_ok(j) by {
                        lemma_position_of_turn(j, t);
                        assert(before.turn_ok(j));
                    }
                }
                match e {
                    TryRecvError::Empty => Next::Pending,
                    TryRecvError::Disconnected => Next::Disconnected,
                }
            },
        }
    }

    /// The number of items that each queue holds: those its worker has sent
    /// and the consumer has not yet taken. None exceeds its queue's bound.
    pub fn buffered_lens(&self) -> (lens: Vec<usize>)
        requires
            self.wf(),
        ensures
            lens@.len() == self.workers(),
            forall|i: int|
                0 <= i < self.workers() ==> {
                    &&& #[trigger] lens@[i] == self.buffered(i).len()
                    &&& lens@[i] <= occupancy_bound(self.capacity(i))
                },
    {
        let mut lens: Vec<usize> = Vec::new();
        let mut i: usize = 0;
        while i < self.channels.len()
            invariant
                self.wf(),
                i <= self.channels@.len(),
                lens@.len() == i,
                forall|k: int|
                    0 <= k < i ==> {
                        &&& #[trigger] lens@[k] == self.buffered(k).len()
                        &&& lens@[k] <= occupancy_bound(self.capacity(k))
                    },
            decreases self.channels@.len() - i,
        {
            assert(self.queue_ok(i as int));
            lens.push(self.channels[i].current_len());
            i += 1;
        }
        lens
    }

    /// Worker `worker` hangs up: what it sent stays, and nothing more comes
    /// from it.
    pub fn hang_up(&mut self, worker: usize)
        requires
            old(self).wf(),
            worker < old(self).workers(),
        ensures
            final(self).wf(),
            !final(self).worker_alive(worker as int),
            final(self).cnt() == old(self).cnt(),
            final(self).len() == old(self).len(),
            final(self).workers() == old(self).workers(),
            final(self).drained() == old(self).drained(),
            final(self).open() == old(self).open(),
            forall|i: int|
                #![trigger final(self).sent(i)]
                #![trigger final(self).capacity(i)]
                #![trigger final(self).worker_alive(i)]
                #![trigger final(self).waiting(i)]
                0 <= i < old(self).workers() ==> {
                    &&& final(self).sent(i) == old(self).sent(i)
                    &&& final(self).capacity(i) == old(self).capacity(i)
                    &&& final(self).waiting(i) == old(self).waiting(i)
                    &&& i != worker ==> final(self).worker_alive(i) == old(self).worker_alive(i)
                },
    {
        let ghost before = *self;
        assert(before.queue_ok(worker as int));
        self.channels[worker].hang_up();
        proof {
            let t = self.channels@.len() as int;
            assert forall|i: int| 0 <= i < t implies #[trigger] self.queue_ok(i) by {
                assert(before.queue_ok(i));
            }
            assert forall|j: int| 0 <= j < self.cnt implies #[trigger] self.turn_ok(j) by {
                lemma_position_of_turn(j, t);
                assert(before.turn_ok(j));
            }
        }
    }

    /// The consumer hangs up: every later send is refused, which tells the
    /// workers to stop.
    pub fn close(&mut self)
        requires
            old(self).wf(),
        ensures
            final(self).wf(),
            !final(self).open(),
            final(self).cnt() == old(self).cnt(),
            final(self).len() == old(self).len(),
            final(self).workers() == old(self).workers(),
            final(self).drained() == old(self).drained(),
            forall|i: int|
                #![trigger final(self).sent(i)]
                #![trigger final(self).capacity(i)]
                #![trigger final(self).worker_alive(i)]
                #![trigger final(self).waiting(i)]
                0 <= i < old(self).workers() ==> {
                    &&& final(self).sent(i) == old(self).sent(i)
                    &&& final(self).capacity(i) == old(self).capacity(i)
                    &&& final(self).worker_alive(i) == old(self).worker_alive(i)
                    &&& final(self).waiting(i) == old(self).waiting(i)
                },
    {
        let ghost before = *self;
        let ghost t = self.channels@.len() as int;
        self.open = false;
        let mut i: usize = 0;
        proof {
            assert forall|k: int| 0 <= k < t implies (#[trigger] self.channels@[k]).wf() by {
                assert(before.queue_ok(k));
            }
        }
        while i < self.channels.len()
            invariant
                before.wf(),
                t == before.channels@.len(),
                self.channels@.len() == t,
                i <= t,
                self.cnt == before.cnt,
                self.len == before.len,
                self.produced == before.produced,
                self.drained == before.drained,
                !self.open,
                forall|k: int|
                    0 <= k < t ==> {
                        &&& (#[trigger] self.channels@[k]).wf()
                        &&& self.channels@[k].sent() == before.channels@[k].sent()
                        &&& self.channels@[k].received() == before.channels@[k].received()
                        &&& self.channels@[k].capacity() == before.channels@[k].capacity()
                        &&& self.channels@[k].sender_alive() == before.channels@[k].sender_alive()
                        &&& self.channels@[k].receiver_waiting()
                            == before.channels@[k].receiver_waiting()
                        &&& k < i ==> !self.channels@[k].receiver_alive()
                    },
            decreases t - i,
        {
            self.channels[i].close();
            i += 1;
        }
        proof {
            assert forall|k: int| 0 <= k < t implies #[trigger] self.queue_ok(k) by {
                assert(before.queue_ok(k));
            }
            assert forall|j: int| 0 <= j < self.cnt implies #[trigger] self.turn_ok(j) by {
                lemma_position_of_turn(j, t);
                assert(before.turn_ok(j));
            }
        }
    }

    /// Fan-in restores the order of the work. Let `key` read something off
    /// an item. If every worker has sent, as its item number `m`, an item
    /// whose key is `f` of the position `i + m * T`, then the keys of the
    /// items handed out are `f(0)`, `f(1)`, `f(2)`, ... in that order,
    /// whatever the number of workers and however far each of them has got.
    pub proof fn lemma_fan_in_keyed<K>(&self, key: spec_fn(T) -> K, f: spec_fn(int) -> K)
        requires
            self.wf(),
            forall|i: int, m: int|
                0 <= i < self.workers() && 0 <= m < self.sent(i).len() ==> key(
                    #[trigger] self.sent(i)[m],
                ) == f(position_of(i, m, self.workers() as int)),
        ensures
            forall|j: int| 0 <= j < self.cnt() ==> key(#[trigger] self.drained()[j]) == f(j),
    {
        let t = self.workers() as int;
        assert forall|j: int| 0 <= j < self.cnt() implies key(#[trigger] self.drained()[j]) == f(
            j,
        ) by {
            assert(self.turn_ok(j));
            lemma_position_of_turn(j, t);
            assert(key(self.sent(j % t)[j / t]) == f(position_of(j % t, j / t, t)));
        }
    }

    /// Fan-in hands the results back in the order of the work: if every
    /// worker has sent, as its item number `m`, the result `f` of the
    /// position `i + m * T`, then the items handed out are `f(0)`, `f(1)`,
    /// `f(2)`, ... in that order.
    pub proof fn lemma_fan_in(&self, f: spec_fn(int) -> T)
        requires
            self.wf(),
            forall|i: int, m: int|
                0 <= i < self.workers() && 0 <= m < self.sent(i).len() ==> #[trigger] self.sent(
                    i,
                )[m] == f(position_of(i, m, self.workers() as int)),
        ensures
            self.drained() == Seq::new(self.cnt() as nat, f),
    {
        self.lemma_fan_in_keyed(|x: T| x, f);
    }
}

/// The order handed out does not depend on the number of workers: two pools
/// whose workers send the results of the same work hand out the same items
/// as far as both have got.
pub proof fn lemma_thread_count_independent<T>(a: ParMap<T>, b: ParMap<T>, f: spec_fn(int) -> T)
    requires
        a.wf(),
        b.wf(),
        forall|i: int, m: int|
            0 <= i < a.workers() && 0 <= m < a.sent(i).len() ==> #[trigger] a.sent(i)[m] == f(
                position_of(i, m, a.workers() as int),
            ),
        forall|i: int, m: int|
            0 <= i < b.workers() && 0 <= m < b.sent(i).len() ==> #[trigger] b.sent(i)[m] == f(
                position_of(i, m, b.workers() as int),
            ),
    ensures
        forall|j: int| 0 <= j < a.cnt() && j < b.cnt() ==> a.drained()[j] == b.drained()[j],
{
    a.lemma_fan_in(f);
    b.lemma_fan_in(f);
}

/// A pool over `len` positions with at most `nthreads` workers, never more
/// workers than positions, and a queue of `channel_len` items for each.
pub fn par_map<T>(len: usize, nthreads: usize, channel_len: usize) -> (pool: ParMap<T>)
    requires
        nthreads > 0 || len == 0,
    ensures
        pool.wf(),
        pool.cnt() == 0,
        pool.len() == len,
        pool.workers() == if nthreads <= len {
            nthreads
        } else {
            len
        },
        pool.open(),
        pool.drained() == Seq::<T>::empty(),
        forall|i: int|
            #![trigger pool.sent(i)]
            #![trigger pool.capacity(i)]
            #![trigger pool.worker_alive(i)]
            #![trigger pool.waiting(i)]
            0 <= i < pool.workers() ==> {
                &&& pool.sent(i) == Seq::<T>::empty()
                &&& pool.capacity(i) == channel_len
                &&& pool.worker_alive(i)
                &&& !pool.waiting(i)
            },
{
    let workers = if nthreads <= len {
        nthreads
    } else {
        len
    };
    let mut channels: Vec<Channel<T>> = Vec::new();
    let mut produced: Vec<usize> = Vec::new();
    let mut i: usize = 0;
    while i < workers
        invariant
            i <= workers,
            channels@.len() == i,
            produced@.len() == i,
            forall|k: int|
                0 <= k < i ==> {
                    &&& (#[trigger] channels@[k]).wf()
                    &&& channels@[k].sent() == Seq::<T>::empty()
                    &&& channels@[k].received() == 0
                    &&& channels@[k].capacity() == channel_len
                    &&& channels@[k].sender_alive()
                    &&& channels@[k].receiver_alive()
                    &&& !channels@[k].receiver_waiting()
                    &&& produced@[k] == 0
                },
        decreases workers - i,
    {
        channels.push(sync_channel(channel_len));
        produced.push(0);
        i += 1;
    }
    let pool = ParMap { cnt: 0, len, open: true, channels, produced, drained: Ghost(Seq::empty()) };
    pool
}

/// A pool over `len` positions, or over a stream without end where `len` is
/// `None`, with at most `nthreads` workers and a queue of `channel_len`
/// items for each.
pub fn par_range<T>(len: Option<usize>, nthreads: usize, channel_len: usize) -> (pool: ParMap<T>)
    requires
        nthreads > 0 || len == Some(0usize),
    ensures
        pool.wf(),
        pool.cnt() == 0,
        pool.len() == match len {
            Some(len) => len,
            None => usize::MAX,
        },
        pool.workers() == if nthreads <= pool.len() {
            nthreads
        } else {
            pool.len()
        },
        pool.open(),
        pool.drained() == Seq::<T>::empty(),
        forall|i: int|
            #![trigger pool.sent(i)]
            #![trigger pool.capacity(i)]
            #![trigger pool.worker_alive(i)]
            #![trigger pool.waiting(i)]
            0 <= i < pool.workers() ==> {
                &&& pool.sent(i) == Seq::<T>::empty()
                &&& pool.capacity(i) == channel_len
                &&& pool.worker_alive(i)
                &&& !pool.waiting(i)
            },
{
    let len = match len {
        Some(len) => len,
        None => usize::MAX,
    };
    par_map(len, nthreads, channel_len)
}

} // verus!
