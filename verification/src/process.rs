//! Which processes the spell checker ends: its other running instances, and
//! the consoles that a process opened.

use vstd::prelude::*;

verus! {

/// A process as a snapshot of the system lists it.
pub struct ProcessEntry {
    pub pid: u32,
    pub parent_pid: u32,
}

/// The error code (`ERROR_NO_MORE_FILES` as an `HRESULT`) with which walking
/// a process snapshot ends once every process has been listed.
pub const NO_MORE_PROCESSES: i32 = -2147024878;

/// The outcome of closing the consoles, given the code with which the walk
/// over the snapshot ended: success where the walk ran through every process,
/// that code as the error otherwise.
pub fn console_walk_result(end_code: i32) -> (r: Result<(), i32>)
    ensures
        end_code == NO_MORE_PROCESSES ==> r is Ok,
        end_code != NO_MORE_PROCESSES ==> r == Err::<(), i32>(end_code),
{
    if end_code == NO_MORE_PROCESSES {
        Ok(())
    } else {
        Err(end_code)
    }
}

/// The ids of the entries whose parent is `parent`, in snapshot order.
pub open spec fn children_of(entries: Seq<ProcessEntry>, parent: u32) -> Seq<u32>
    decreases entries.len(),
{
    if entries.len() == 0 {
        Seq::<u32>::empty()
    } else {
        let rest = children_of(entries.drop_last(), parent);
        if entries.last().parent_pid == parent {
            rest.push(entries.last().pid)
        } else {
            rest
        }
    }
}

/// The ids in `pids` other than `own`, in order.
pub open spec fn others_of(pids: Seq<u32>, own: u32) -> Seq<u32>
    decreases pids.len(),
{
    if pids.len() == 0 {
        Seq::<u32>::empty()
    } else {
        let rest = others_of(pids.drop_last(), own);
        if pids.last() != own {
            rest.push(pids.last())
        } else {
            rest
        }
    }
}

/// The consoles to end for the process `pid`: every listed process whose
/// parent it is.
pub fn consoles_to_close(entries: &Vec<ProcessEntry>, pid: u32) -> (closing: Vec<u32>)
    ensures
        closing@ == children_of(entries@, pid),
{
    let mut closing: Vec<u32> = Vec::new();
    let mut i: usize = 0;
    assert(entries@.take(0) =~= Seq::<ProcessEntry>::empty());
    while i < entries.len()
        invariant
            i <= entries@.len(),
            closing@ == children_of(entries@.take(i as int), pid),
        decreases entries@.len() - i,
    {
        assert(entries@.take(i + 1).drop_last() =~= entries@.take(i as int));
        if entries[i].parent_pid == pid {
            closing.push(entries[i].pid);
        }
        i += 1;
    }
    assert(entries@.take(i as int) =~= entries@);
    closing
}

/// The running instances to end, given the ids of every process that runs
/// the spell checker and the id of this one: all but this one.
pub fn other_instances(pids: &Vec<u32>, own_pid: u32) -> (others: Vec<u32>)
    ensures
        others@ == others_of(pids@, own_pid),
{
    let mut others: Vec<u32> = Vec::new();
    let mut i: usize = 0;
    assert(pids@.take(0) =~= Seq::<u32>::empty());
    while i < pids.len()
        invariant
            i <= pids@.len(),
            others@ == others_of(pids@.take(i as int), own_pid),
        decreases pids@.len() - i,
    {
        assert(pids@.take(i + 1).drop_last() =~= pids@.take(i as int));
        if pids[i] != own_pid {
            others.push(pids[i]);
        }
        i += 1;
    }
    assert(pids@.take(i as int) =~= pids@);
    others
}

/// The instance that looks for others never ends itself, and every other
/// instance is ended.
pub proof fn lemma_other_instances_spare_self(pids: Seq<u32>, own: u32)
    ensures
        !others_of(pids, own).contains(own),
        forall|p: u32| pids.contains(p) && p != own ==> others_of(pids, own).contains(p),
    decreases pids.len(),
{
    if pids.len() > 0 {
        let t = pids.drop_last();
        lemma_other_instances_spare_self(t, own);
        let rest = others_of(t, own);
        if pids.last() != own {
            assert forall|x: u32| rest.push(pids.last()).contains(x) implies x != own by {
                if rest.contains(x) {
                } else {
                    let k = choose|k: int| 0 <= k < rest.push(pids.last()).len() && rest.push(
                        pids.last(),
                    )[k] == x;
                    assert(k == rest.len());
                }
            }
        }
        assert forall|p: u32| pids.contains(p) && p != own implies others_of(pids, own).contains(
            p,
        ) by {
            let k = choose|k: int| 0 <= k < pids.len() && pids[k] == p;
            if k < pids.len() - 1 {
                assert(t[k] == p);
                assert(t.contains(p));
                let m = choose|m: int| 0 <= m < rest.len() && rest[m] == p;
                if pids.last() != own {
                    assert(rest.push(pids.last())[m] == p);
                }
            } else {
                assert(others_of(pids, own) == rest.push(p));
                assert(rest.push(p)[rest.len() as int] == p);
            }
        }
    }
}

/// Every process that `pid` opened is chosen, whatever its id.
pub proof fn lemma_consoles_complete(entries: Seq<ProcessEntry>, pid: u32)
    ensures
        forall|k: int|
            0 <= k < entries.len() && #[trigger] entries[k].parent_pid == pid ==> children_of(
                entries,
                pid,
            ).contains(entries[k].pid),
    decreases entries.len(),
{
    if entries.len() > 0 {
        let t = entries.drop_last();
        lemma_consoles_complete(t, pid);
        let rest = children_of(t, pid);
        assert forall|k: int|
            0 <= k < entries.len() && #[trigger] entries[k].parent_pid == pid implies children_of(
                entries,
                pid,
            ).contains(entries[k].pid) by {
            let c = children_of(entries, pid);
            if k < entries.len() - 1 {
                assert(t[k] == entries[k]);
                assert(t[k].parent_pid == pid);
                assert(rest.contains(t[k].pid));
                let m = choose|m: int| 0 <= m < rest.len() && rest[m] == t[k].pid;
                if entries.last().parent_pid == pid {
                    assert(c[m] == rest[m]);
                }
            } else {
                assert(c == rest.push(entries[k].pid));
                assert(c[rest.len() as int] == entries[k].pid);
            }
        }
    }
}

/// Every console chosen for `pid` was opened by `pid`.
pub proof fn lemma_consoles_are_children(entries: Seq<ProcessEntry>, pid: u32)
    ensures
        forall|x: u32|
            children_of(entries, pid).contains(x) ==> exists|k: int|
                0 <= k < entries.len() && #[trigger] entries[k].pid == x && entries[k].parent_pid
                    == pid,
    decreases entries.len(),
{
    if entries.len() > 0 {
        let t = entries.drop_last();
        lemma_consoles_are_children(t, pid);
        let rest = children_of(t, pid);
        assert forall|x: u32| children_of(entries, pid).contains(x) implies exists|k: int|
            0 <= k < entries.len() && #[trigger] entries[k].pid == x && entries[k].parent_pid
                == pid by {
            let c = children_of(entries, pid);
            let m = choose|m: int| 0 <= m < c.len() && c[m] == x;
            if m < rest.len() {
                assert(rest[m] == x);
                assert(rest.contains(x));
                let k = choose|k: int|
                    0 <= k < t.len() && #[trigger] t[k].pid == x && t[k].parent_pid == pid;
                assert(entries[k] == t[k]);
            } else {
                assert(entries[entries.len() - 1].pid == x);
            }
        }
    }
}

} // verus!
