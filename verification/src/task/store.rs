//! The task store: records each execution's lifecycle for later
//! inspection.

use vstd::prelude::*;
use vstd::multiset::Multiset;

use crate::strutil::{
    i64_to_string, is_digit, lemma_decimal_digits, lemma_decimal_injective, lemma_decimal_len,
    lemma_signed_decimal_injective, spec_decimal, spec_signed_decimal, str_eq, u64_to_string,
};
use crate::task::types::{is_terminal, Task, TaskStatus};

verus! {

/// Relies on `chrono::Utc::now` for the wall clock, read as milliseconds
/// since the Unix epoch; nothing is assumed of the value.
#[verifier::external_body]
fn now_millis() -> (r: i64) {
    chrono::Utc::now().timestamp_millis()
}

/// The id a task is created under: a fixed prefix, the creation time in
/// milliseconds, and the store's counter value, separated by
/// underscores.
pub open spec fn spec_task_id(millis: int, count: u64) -> Seq<char> {
    "task_"@ + spec_signed_decimal(millis) + "_"@ + spec_decimal(count as nat)
}

/// Distinct counter values give distinct task ids, whatever the clock
/// read: the id determines both the creation time and the counter.
pub proof fn lemma_task_id_injective(m1: int, c1: u64, m2: int, c2: u64)
    requires
        spec_task_id(m1, c1) == spec_task_id(m2, c2),
    ensures
        m1 == m2,
        c1 == c2,
{
    reveal_strlit("task_");
    reveal_strlit("_");
    assert("task_"@.len() == 5);
    assert("_"@.len() == 1);
    assert("_"@[0] == '_');
    let s1 = spec_signed_decimal(m1);
    let s2 = spec_signed_decimal(m2);
    let d1 = spec_decimal(c1 as nat);
    let d2 = spec_decimal(c2 as nat);
    let id1 = spec_task_id(m1, c1);
    let id2 = spec_task_id(m2, c2);
    lemma_decimal_len(c1 as nat);
    lemma_decimal_len(c2 as nat);
    lemma_decimal_digits(c1 as nat);
    lemma_decimal_digits(c2 as nat);
    assert(id1.len() == 6 + s1.len() + d1.len());
    assert(id2.len() == 6 + s2.len() + d2.len());
    assert(('_' as u32) == 95);
    if d1.len() < d2.len() {
        let p = 5 + s1.len() as int;
        assert(id1[p] == '_');
        assert(p >= 6 + s2.len());
        assert(id2[p] == d2[p - 6 - s2.len()]);
        assert(is_digit(id2[p]));
        assert(false);
    } else if d2.len() < d1.len() {
        let p = 5 + s2.len() as int;
        assert(id2[p] == '_');
        assert(p >= 6 + s1.len());
        assert(id1[p] == d1[p - 6 - s1.len()]);
        assert(is_digit(id1[p]));
        assert(false);
    } else {
        assert(s1.len() == s2.len());
        assert forall|i: int| 0 <= i < d1.len() implies d1[i] == d2[i] by {
            assert(id1[6 + s1.len() + i] == d1[i]);
            assert(id2[6 + s2.len() + i] == d2[i]);
        }
        assert(d1 =~= d2);
        lemma_decimal_injective(c1 as nat, c2 as nat);
        assert forall|i: int| 0 <= i < s1.len() implies s1[i] == s2[i] by {
            assert(id1[5 + i] == s1[i]);
            assert(id2[5 + i] == s2[i]);
        }
        assert(s1 =~= s2);
        lemma_signed_decimal_injective(m1, m2);
    }
}

/// Holds the recorded tasks. Persistence is a configuration carried for
/// the store's owner: the store itself keeps everything in memory.
pub struct TaskStore {
    persist: bool,
    path: Option<String>,
    tasks: Vec<Task>,
    counter: u64,
}

impl TaskStore {
    /// The recorded tasks, in creation order.
    pub closed spec fn spec_tasks(self) -> Seq<Task> {
        self.tasks@
    }

    /// The value the next task id is numbered with.
    pub closed spec fn spec_counter(self) -> u64 {
        self.counter
    }

    /// Whether the owner asked for persistence, and where to.
    pub closed spec fn spec_persist(self) -> bool {
        self.persist
    }

    pub closed spec fn spec_path(self) -> Option<String> {
        self.path
    }

    /// A task of this id is recorded.
    pub open spec fn spec_has_task(self, id: Seq<char>) -> bool {
        exists|i: int| 0 <= i < self.spec_tasks().len() && self.spec_tasks()[i].id@ == id
    }

    /// Task ids are unique within the store.
    pub open spec fn well_formed(self) -> bool {
        forall|i: int, j: int|
            0 <= i < j < self.spec_tasks().len() ==> self.spec_tasks()[i].id@
                != self.spec_tasks()[j].id@
    }

    pub fn new(persist: bool, path: Option<String>) -> (r: TaskStore)
        ensures
            r.well_formed(),
            r.spec_tasks() == Seq::<Task>::empty(),
            r.spec_counter() == 1,
            r.spec_persist() == persist,
            r.spec_path() == path,
    {
        let r = TaskStore { persist, path, tasks: Vec::new(), counter: 1 };
        proof {
            assert(r.spec_tasks() =~= Seq::<Task>::empty());
        }
        r
    }

    fn find_index(&self, id: &str) -> (r: Option<usize>)
        ensures
            match r {
                Some(i) => {
                    &&& i < self.spec_tasks().len()
                    &&& self.spec_tasks()[i as int].id@ == id@
                },
                None => !self.spec_has_task(id@),
            },
    {
        let mut i: usize = 0;
        while i < self.tasks.len()
            invariant
                i <= self.spec_tasks().len(),
                forall|k: int| 0 <= k < i ==> self.spec_tasks()[k].id@ != id@,
            decreases self.spec_tasks().len() - i,
        {
            if str_eq(self.tasks[i].id.as_str(), id) {
                return Some(i);
            }
            i = i + 1;
        }
        None
    }

    /// Records a fresh task in `Pending` state, stamped with the current
    /// time and an id derived from the time and the store's counter.
    pub fn create(&mut self, instruction: &str) -> (r: Task)
        requires
            old(self).well_formed(),
        ensures
            final(self).well_formed(),
            final(self).spec_persist() == old(self).spec_persist(),
            final(self).spec_path() == old(self).spec_path(),
            r.instruction@ == instruction@,
            r.status == TaskStatus::Pending,
            r.output is None,
            r.error is None,
            r.completed_at is None,
            r.id@ == spec_task_id(r.created_at as int, old(self).spec_counter()),
            final(self).spec_counter() == (if old(self).spec_counter() == u64::MAX {
                0u64
            } else {
                (old(self).spec_counter() + 1) as u64
            }),
            !old(self).spec_has_task(r.id@) ==> final(self).spec_tasks() =~= old(
                self,
            ).spec_tasks().push(r),
            old(self).spec_has_task(r.id@) ==> exists|i: int|
                {
                    &&& 0 <= i < old(self).spec_tasks().len()
                    &&& old(self).spec_tasks()[i].id@ == r.id@
                    &&& final(self).spec_tasks() =~= old(self).spec_tasks().update(i, r)
                },
    {
        let now = now_millis();
        let mut id = String::from_str("task_");
        let stamp = i64_to_string(now);
        id.append(stamp.as_str());
        id.append("_");
        let count = u64_to_string(self.counter);
        id.append(count.as_str());
        proof {
            reveal_strlit("task_");
            reveal_strlit("_");
            assert(id@ =~= spec_task_id(now as int, self.counter));
        }
        if self.counter == u64::MAX {
            self.counter = 0;
        } else {
            self.counter = self.counter + 1;
        }
        let task = Task {
            id,
            instruction: instruction.to_owned(),
            status: TaskStatus::Pending,
            output: None,
            error: None,
            created_at: now,
            completed_at: None,
        };
        let stored = task.clone();
        match self.find_index(task.id.as_str()) {
            Some(i) => {
                self.tasks[i] = stored;
                proof {
                    assert(final(self).spec_tasks() =~= old(self).spec_tasks().update(
                        i as int,
                        task,
                    ));
                }
            },
            None => {
                self.tasks.push(stored);
            },
        }
        task
    }

    /// Applies a status change to a recorded task: output and error are
    /// only overwritten when supplied, and the completion time is set
    /// exactly when the new status is terminal. Unknown ids are a no-op.
    pub fn update(
        &mut self,
        id: &str,
        status: TaskStatus,
        output: Option<String>,
        error: Option<String>,
    ) -> (r: Option<Task>)
        requires
            old(self).well_formed(),
        ensures
            final(self).well_formed(),
            final(self).spec_counter() == old(self).spec_counter(),
            final(self).spec_persist() == old(self).spec_persist(),
            final(self).spec_path() == old(self).spec_path(),
            !old(self).spec_has_task(id@) ==> {
                &&& r is None
                &&& *final(self) == *old(self)
            },
            old(self).spec_has_task(id@) ==> (r matches Some(t) && exists|i: int|
                {
                    &&& 0 <= i < old(self).spec_tasks().len()
                    &&& old(self).spec_tasks()[i].id@ == id@
                    &&& final(self).spec_tasks() =~= old(self).spec_tasks().update(i, t)
                    &&& t.id == old(self).spec_tasks()[i].id
                    &&& t.instruction == old(self).spec_tasks()[i].instruction
                    &&& t.created_at == old(self).spec_tasks()[i].created_at
                    &&& t.status == status
                    &&& (output is Some ==> t.output == output)
                    &&& (output is None ==> t.output == old(self).spec_tasks()[i].output)
                    &&& (error is Some ==> t.error == error)
                    &&& (error is None ==> t.error == old(self).spec_tasks()[i].error)
                    &&& (is_terminal(status) ==> t.completed_at is Some)
                    &&& (!is_terminal(status) ==> t.completed_at == old(
                        self,
                    ).spec_tasks()[i].completed_at)
                }),
    {
        match self.find_index(id) {
            None => None,
            Some(i) => {
                let mut t = self.tasks[i].clone();
                t.status = status;
                match output {
                    Some(o) => {
                        t.output = Some(o);
                    },
                    None => {},
                }
                match error {
                    Some(e) => {
                        t.error = Some(e);
                    },
                    None => {},
                }
                if status == TaskStatus::Completed || status == TaskStatus::Failed {
                    t.completed_at = Some(now_millis());
                }
                let stored = t.clone();
                self.tasks[i] = stored;
                proof {
                    assert(final(self).spec_tasks() =~= old(self).spec_tasks().update(
                        i as int,
                        t,
                    ));
                }
                Some(t)
            },
        }
    }

    /// Looks a task up by id.
    pub fn get(&self, id: &str) -> (r: Option<Task>)
        ensures
            !self.spec_has_task(id@) ==> r is None,
            self.spec_has_task(id@) ==> (r matches Some(t) && exists|i: int|
                {
                    &&& 0 <= i < self.spec_tasks().len()
                    &&& self.spec_tasks()[i].id@ == id@
                    &&& t == self.spec_tasks()[i]
                }),
    {
        match self.find_index(id) {
            None => None,
            Some(i) => Some(self.tasks[i].clone()),
        }
    }

    /// The tasks ordered newest-created-first, truncated to `limit`: a
    /// prefix of a sorted permutation of the store's contents.
    pub fn list(&self, limit: usize) -> (r: Vec<Task>)
        ensures
            r@.len() == (if self.spec_tasks().len() <= limit {
                self.spec_tasks().len() as usize
            } else {
                limit
            }),
            forall|i: int, j: int|
                0 <= i < j < r@.len() ==> r@[i].created_at >= r@[j].created_at,
            exists|full: Seq<Task>|
                {
                    &&& #[trigger] full.to_multiset() == self.spec_tasks().to_multiset()
                    &&& forall|i: int, j: int|
                        0 <= i < j < full.len() ==> full[i].created_at >= full[j].created_at
                    &&& r@ == full.subrange(0, r@.len() as int)
                },
    {
        broadcast use vstd::seq_lib::group_to_multiset_ensures;
        broadcast use vstd::multiset::group_multiset_axioms;

        let mut src: Vec<Task> = Vec::new();
        let mut i: usize = 0;
        while i < self.tasks.len()
            invariant
                i <= self.spec_tasks().len(),
                src@ =~= self.spec_tasks().subrange(0, i as int),
            decreases self.spec_tasks().len() - i,
        {
            src.push(self.tasks[i].clone());
            proof {
                assert(src@ =~= self.spec_tasks().subrange(0, i + 1));
            }
            i = i + 1;
        }
        proof {
            assert(src@ =~= self.spec_tasks());
        }
        let mut out: Vec<Task> = Vec::new();
        while src.len() > 0
            invariant
                out@.to_multiset().add(src@.to_multiset()) =~= self.spec_tasks().to_multiset(),
                forall|i: int, j: int|
                    0 <= i < j < out@.len() ==> out@[i].created_at >= out@[j].created_at,
                out@.len() > 0 ==> forall|j: int|
                    0 <= j < src@.len() ==> src@[j].created_at <= out@.last().created_at,
                out@.len() + src@.len() == self.spec_tasks().len(),
            decreases src@.len(),
        {
            let mut best: usize = 0;
            let mut k: usize = 1;
            while k < src.len()
                invariant
                    src@.len() > 0,
                    best < k,
                    k <= src@.len(),
                    forall|m: int| 0 <= m < k ==> src@[m].created_at <= src@[best as int].created_at,
                decreases src@.len() - k,
            {
                if src[k].created_at > src[best].created_at {
                    best = k;
                }
                k = k + 1;
            }
            let ghost out0 = out@;
            let ghost src0 = src@;
            let picked = src.remove(best);
            out.push(picked);
            proof {
                assert(out@ =~= out0.push(picked));
                assert(picked == src0[best as int]);
                assert(src0.contains(src0[best as int]));
                vstd::seq_lib::to_multiset_contains(src0, src0[best as int]);
                vstd::seq_lib::to_multiset_remove(src0, best as int);
                vstd::seq_lib::to_multiset_build(out0, picked);
                assert(src@ == src0.remove(best as int));
                assert(src@.to_multiset() =~= src0.to_multiset().remove(src0[best as int]));
                assert(out@.to_multiset() =~= out0.to_multiset().insert(picked));
                assert(out@.to_multiset().add(src@.to_multiset()) =~= out0.to_multiset().add(
                    src0.to_multiset(),
                ));
                assert(out@.to_multiset().add(src@.to_multiset()) =~= self.spec_tasks()
                    .to_multiset());
                assert forall|j: int| 0 <= j < src@.len() implies src@[j].created_at
                    <= out@.last().created_at by {
                    if j < best {
                        assert(src@[j] == src0[j]);
                    } else {
                        assert(src@[j] == src0[j + 1]);
                    }
                }
                assert forall|i: int, j: int| 0 <= i < j < out@.len() implies out@[i].created_at
                    >= out@[j].created_at by {
                    if j == out@.len() - 1 && out0.len() > 0 {
                        assert(out@[i].created_at >= out0.last().created_at);
                    }
                }
            }
        }
        let ghost full = out@;
        proof {
            assert(src@.to_multiset() =~= Multiset::<Task>::empty());
            assert(full.to_multiset() =~= self.spec_tasks().to_multiset());
        }
        if out.len() > limit {
            out.truncate(limit);
        }
        proof {
            assert(out@ =~= full.subrange(0, out@.len() as int));
        }
        out
    }
}

} // verus!
