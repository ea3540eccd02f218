//! Per-process file system state, indexed by process id.
use vstd::prelude::*;

verus! {

/// The table `after` is `before` grown with empty slots as far as `pid`,
/// holding `s` for `pid`.
pub open spec fn init_step<T>(before: Seq<Option<T>>, pid: int, s: T, after: Seq<Option<T>>) -> bool {
    &&& after.len() == if before.len() > pid { before.len() as int } else { pid + 1 }
    &&& after[pid] == Some(s)
    &&& forall|i: int|
        0 <= i < after.len() && i != pid ==> #[trigger] after[i] == if i < before.len() {
            before[i]
        } else {
            None
        }
}

/// The file system state of each process, by process id; `None` where a
/// process has none.
pub struct FStructManager<T> {
    pub pid2task: Vec<Option<T>>,
}

impl<T> FStructManager<T> {
    pub fn new() -> (r: Self)
        ensures
            r.pid2task@ == Seq::<Option<T>>::empty(),
    {
        FStructManager { pid2task: Vec::new() }
    }

    /// Give process `pid` its state, growing the table with empty slots as
    /// far as `pid`. The process must have none yet.
    pub fn init_fs_struct(&mut self, fs_struct: T, pid: usize)
        requires
            pid < usize::MAX,
            pid < old(self).pid2task@.len() ==> old(self).pid2task@[pid as int] is None,
        ensures
            init_step(old(self).pid2task@, pid as int, fs_struct, final(self).pid2task@),
    {
        let mut j: usize = self.pid2task.len();
        while j < pid + 1
            invariant
                old(self).pid2task@.len() <= j,
                j <= pid + 1 || j == old(self).pid2task@.len(),
                pid < usize::MAX,
                self.pid2task@.len() == j,
                forall|i: int| 0 <= i < old(self).pid2task@.len() ==> #[trigger] self.pid2task@[i] == old(self).pid2task@[i],
                forall|i: int| old(self).pid2task@.len() <= i < j ==> #[trigger] self.pid2task@[i] is None,
            decreases pid + 1 - j,
        {
            self.pid2task.push(None);
            j = j + 1;
        }
        self.pid2task.set(pid, Some(fs_struct));
    }

    /// The state of process `pid`.
    pub fn get_fs_struct(&self, pid: usize) -> (r: &Option<T>)
        requires
            pid < self.pid2task@.len(),
        ensures
            *r == self.pid2task@[pid as int],
    {
        &self.pid2task[pid]
    }

    /// Take process `pid`'s state away. The process must have one.
    pub fn rm_fs_struct(&mut self, pid: usize)
        requires
            pid < old(self).pid2task@.len(),
            old(self).pid2task@[pid as int] is Some,
        ensures
            final(self).pid2task@ == old(self).pid2task@.update(pid as int, None),
    {
        self.pid2task.set(pid, None);
    }
}

/// Law: taking a process's state away undoes giving it one: every slot
/// the table had is as before, and every slot it grew is empty.
pub proof fn law_rm_undoes_init<T>(before: Seq<Option<T>>, pid: int, s: T, mid: Seq<Option<T>>)
    requires
        0 <= pid,
        pid < before.len() ==> before[pid] is None,
        init_step(before, pid, s, mid),
    ensures
        forall|i: int| 0 <= i < before.len() ==> #[trigger] mid.update(pid, None)[i] == before[i],
        forall|i: int| before.len() <= i < mid.len() ==> #[trigger] mid.update(pid, None)[i] is None,
{
}

} // verus!
