//! The future-command queue: a min-queue keyed on `at_tick`, drained each
//! tick of everything that has fallen due.
//!
//! Ties on the deadline are broken toward the earliest-pushed command, so the
//! queue is a deterministic function of its push history.

use vstd::prelude::*;

use crate::soundscape::FutureCmd;

verus! {

/// A queue of timestamped commands that hands out an earliest-deadline
/// command first. Viewed as the sequence of its entries in push order.
#[derive(Debug)]
pub struct CommandQueue {
    items: Vec<FutureCmd>,
}

impl View for CommandQueue {
    type V = Seq<FutureCmd>;

    closed spec fn view(&self) -> Seq<FutureCmd> {
        self.items@
    }
}

/// The index of the first entry carrying the minimal deadline.
pub open spec fn first_min_index(s: Seq<FutureCmd>) -> int
    decreases s.len(),
{
    if s.len() <= 1 {
        0
    } else {
        let rest = first_min_index(s.drop_first()) + 1;
        if s[0].at_tick <= s[rest].at_tick {
            0
        } else {
            rest
        }
    }
}

/// `first_min_index` names an in-range entry that no entry beats and no
/// earlier entry matches.
pub proof fn lemma_first_min_index(s: Seq<FutureCmd>)
    requires
        s.len() > 0,
    ensures
        0 <= first_min_index(s) < s.len(),
        forall|j: int| 0 <= j < s.len() ==> s[first_min_index(s)].at_tick <= (#[trigger] s[j]).at_tick,
        forall|j: int|
            0 <= j < first_min_index(s) ==> (#[trigger] s[j]).at_tick
                > s[first_min_index(s)].at_tick,
    decreases s.len(),
{
    if s.len() > 1 {
        let t = s.drop_first();
        lemma_first_min_index(t);
        let ft = first_min_index(t);
        assert(forall|j: int| 0 <= j < t.len() ==> #[trigger] t[j] == s[j + 1]);
        let rest = ft + 1;
        if s[0].at_tick <= s[rest].at_tick {
            assert(first_min_index(s) == 0);
            assert forall|j: int| 0 <= j < s.len() implies s[0].at_tick
                <= (#[trigger] s[j]).at_tick by {
                if j >= 1 {
                    assert(t[ft].at_tick <= t[j - 1].at_tick);
                }
            }
        } else {
            assert(first_min_index(s) == rest);
            assert forall|j: int| 0 <= j < s.len() implies s[rest].at_tick
                <= (#[trigger] s[j]).at_tick by {
                if j >= 1 {
                    assert(t[ft].at_tick <= t[j - 1].at_tick);
                }
            }
            assert forall|j: int| 0 <= j < rest implies (#[trigger] s[j]).at_tick
                > s[rest].at_tick by {
                if j >= 1 {
                    assert(t[j - 1].at_tick > t[ft].at_tick);
                }
            }
        }
    }
}

/// Any in-range index that no entry beats and no earlier entry matches is
/// `first_min_index`.
pub proof fn lemma_first_min_unique(s: Seq<FutureCmd>, idx: int)
    requires
        0 <= idx < s.len(),
        forall|j: int| 0 <= j < s.len() ==> s[idx].at_tick <= (#[trigger] s[j]).at_tick,
        forall|j: int| 0 <= j < idx ==> (#[trigger] s[j]).at_tick > s[idx].at_tick,
    ensures
        idx == first_min_index(s),
{
    lemma_first_min_index(s);
    let f = first_min_index(s);
    if idx < f {
        assert(s[idx].at_tick > s[f].at_tick);
        assert(s[idx].at_tick <= s[f].at_tick);
    } else if f < idx {
        assert(s[f].at_tick > s[idx].at_tick);
        assert(s[f].at_tick <= s[idx].at_tick);
    }
}

impl CommandQueue {
    /// An empty queue.
    pub fn new() -> (q: CommandQueue)
        ensures
            q@ == Seq::<FutureCmd>::empty(),
    {
        CommandQueue { items: Vec::new() }
    }

    /// An empty queue with room reserved for `capacity` commands.
    pub fn with_capacity(capacity: usize) -> (q: CommandQueue)
        ensures
            q@ == Seq::<FutureCmd>::empty(),
    {
        CommandQueue { items: Vec::with_capacity(capacity) }
    }

    /// How many commands are pending.
    pub fn len(&self) -> (n: usize)
        ensures
            n == self@.len(),
    {
        self.items.len()
    }

    /// Enqueues a command.
    pub fn push(&mut self, cmd: FutureCmd)
        ensures
            final(self)@ == old(self)@.push(cmd),
    {
        self.items.push(cmd);
    }

    /// The index of the first entry with the minimal deadline.
    fn min_index(&self) -> (idx: usize)
        requires
            self@.len() > 0,
        ensures
            idx == first_min_index(self@),
            idx < self@.len(),
    {
        let mut best: usize = 0;
        let n = self.items.len();
        for i in 1..n
            invariant
                n == self@.len(),
                1 <= n,
                best < i,
                forall|j: int| 0 <= j < i ==> self@[best as int].at_tick <= (#[trigger] self@[j]).at_tick,
                forall|j: int|
                    0 <= j < best ==> (#[trigger] self@[j]).at_tick > self@[best as int].at_tick,
        {
            if self.items[i].at_tick < self.items[best].at_tick {
                best = i;
            }
        }
        proof {
            lemma_first_min_unique(self@, best as int);
        }
        best
    }

    /// A look at the earliest-deadline command, if any, without removing it.
    pub fn peek(&self) -> (r: Option<&FutureCmd>)
        ensures
            match r {
                Some(c) => self@.len() > 0 && *c == self@[first_min_index(self@)],
                None => self@.len() == 0,
            },
    {
        if self.items.len() == 0 {
            None
        } else {
            let idx = self.min_index();
            Some(&self.items[idx])
        }
    }

    /// Removes and returns the earliest-deadline command, if any; among equal
    /// deadlines the earliest-pushed leaves first.
    pub fn pop(&mut self) -> (r: Option<FutureCmd>)
        ensures
            match r {
                Some(c) => {
                    &&& old(self)@.len() > 0
                    &&& c == old(self)@[first_min_index(old(self)@)]
                    &&& final(self)@ == old(self)@.remove(first_min_index(old(self)@))
                },
                None => old(self)@.len() == 0 && final(self)@ == old(self)@,
            },
    {
        if self.items.len() == 0 {
            None
        } else {
            let idx = self.min_index();
            Some(self.items.remove(idx))
        }
    }
}

/// How many queued commands have fallen due at engine time `elapsed`.
pub open spec fn count_due(s: Seq<FutureCmd>, elapsed: i64) -> int
    decreases s.len(),
{
    if s.len() == 0 {
        0
    } else {
        count_due(s.drop_last(), elapsed) + if s.last().at_tick <= elapsed {
            1int
        } else {
            0int
        }
    }
}

/// The due count lies between zero and the queue length.
pub proof fn lemma_count_due_bounds(s: Seq<FutureCmd>, elapsed: i64)
    ensures
        0 <= count_due(s, elapsed) <= s.len(),
    decreases s.len(),
{
    if s.len() > 0 {
        lemma_count_due_bounds(s.drop_last(), elapsed);
    }
}

/// Pushing a command raises the due count exactly when the command is due.
pub proof fn lemma_count_due_push(s: Seq<FutureCmd>, elapsed: i64, c: FutureCmd)
    ensures
        count_due(s.push(c), elapsed) == count_due(s, elapsed) + if c.at_tick <= elapsed {
            1int
        } else {
            0int
        },
{
    assert(s.push(c).drop_last() =~= s);
    assert(s.push(c).last() == c);
}

/// Removing a command lowers the due count exactly when the command was due.
pub proof fn lemma_count_due_remove(s: Seq<FutureCmd>, elapsed: i64, i: int)
    requires
        0 <= i < s.len(),
    ensures
        count_due(s.remove(i), elapsed) == count_due(s, elapsed) - if s[i].at_tick <= elapsed {
            1int
        } else {
            0int
        },
    decreases s.len(),
{
    if i == s.len() - 1 {
        assert(s.remove(i) =~= s.drop_last());
    } else {
        let t = s.drop_last();
        assert(s.remove(i).drop_last() =~= t.remove(i));
        assert(s.remove(i).last() == s.last());
        lemma_count_due_remove(t, elapsed, i);
    }
}

/// Law: draining is monotone — when two commands are popped back to back,
/// the deadline of the second is never earlier than that of the first.
/// (Pushing between the two pops may of course introduce earlier deadlines.)
pub proof fn lemma_pop_monotone(s: Seq<FutureCmd>)
    requires
        s.len() >= 2,
    ensures
        s[first_min_index(s)].at_tick <= s.remove(first_min_index(s))[first_min_index(
            s.remove(first_min_index(s)),
        )].at_tick,
{
    lemma_first_min_index(s);
    let f = first_min_index(s);
    let rest = s.remove(f);
    lemma_first_min_index(rest);
    let g = first_min_index(rest);
    assert(rest[g] == if g < f {
        s[g]
    } else {
        s[g + 1]
    });
}

/// Law: draining stays monotone across pushes of later work — when commands
/// pushed between two pops all carry deadlines at or after the first popped
/// one (as every follow-up a drained command queues does), the second pop
/// still comes no earlier than the first.
pub proof fn lemma_pop_monotone_with_pushes(s: Seq<FutureCmd>, extra: Seq<FutureCmd>)
    requires
        s.len() >= 1,
        s.remove(first_min_index(s)).len() + extra.len() >= 1,
        forall|i: int|
            0 <= i < extra.len() ==> (#[trigger] extra[i]).at_tick >= s[first_min_index(
                s,
            )].at_tick,
    ensures
        ({
            let between = s.remove(first_min_index(s)) + extra;
            s[first_min_index(s)].at_tick <= between[first_min_index(between)].at_tick
        }),
{
    lemma_first_min_index(s);
    let f = first_min_index(s);
    let rest = s.remove(f);
    let between = rest + extra;
    lemma_first_min_index(between);
    let g = first_min_index(between);
    if g < rest.len() {
        assert(between[g] == if g < f {
            s[g]
        } else {
            s[g + 1]
        });
    } else {
        assert(between[g] == extra[g - rest.len()]);
    }
}

} // verus!
