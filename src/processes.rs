//! Running processes as offered to a user picking a process for a rule.

use vstd::prelude::*;

verus! {

/// A running process and its memory use in bytes.
#[derive(Debug, Clone)]
pub struct ProcessInfo {
    pub pid: u32,
    pub name: String,
    pub memory: u64,
}

/// Memory use never grows along `s`.
pub open spec fn by_memory_descending(s: Seq<ProcessInfo>) -> bool {
    forall|i: int, j: int| 0 <= i < j < s.len() ==> (#[trigger] s[i]).memory >= (#[trigger] s[j]).memory
}

proof fn lemma_insert_to_multiset<A>(s: Seq<A>, p: int, x: A)
    requires
        0 <= p <= s.len(),
    ensures
        s.insert(p, x).to_multiset() =~= s.to_multiset().insert(x),
{
    broadcast use vstd::seq_lib::group_to_multiset_ensures;
    let t = s.insert(p, x);
    s.insert_ensures(p, x);
    assert(t.remove(p) =~= s);
    assert(t[p] == x);
    assert(t.remove(p).to_multiset() =~= t.to_multiset().remove(x));
    assert(t.to_multiset().count(x) > 0) by {
        assert(t.contains(x));
    }
}

/// The same processes, the ones using the most memory first.
pub fn sort_by_memory(procs: Vec<ProcessInfo>) -> (r: Vec<ProcessInfo>)
    ensures
        r@.to_multiset() =~= procs@.to_multiset(),
        by_memory_descending(r@),
{
    broadcast use vstd::seq_lib::group_to_multiset_ensures;
    let mut out: Vec<ProcessInfo> = Vec::new();
    let mut rest = procs;
    let ghost all = rest@;
    while rest.len() > 0
        invariant
            out@.to_multiset().add(rest@.to_multiset()) =~= all.to_multiset(),
            by_memory_descending(out@),
        decreases rest@.len(),
    {
        let ghost before_rest = rest@;
        let item = rest.pop().unwrap();
        proof {
            assert(before_rest =~= rest@.push(item));
            rest@.to_multiset_ensures();
            assert(rest@.push(item).to_multiset() =~= rest@.to_multiset().insert(item));
        }
        let mut p: usize = 0;
        while p < out.len() && out[p].memory >= item.memory
            invariant
                p <= out@.len(),
                forall|q: int| 0 <= q < p ==> out@[q].memory >= item.memory,
            decreases out.len() - p,
        {
            p = p + 1;
        }
        let ghost before = out@;
        let ghost m = item.memory;
        out.insert(p, item);
        proof {
            lemma_insert_to_multiset(before, p as int, out@[p as int]);
            assert(out@.to_multiset().add(rest@.to_multiset()) =~= before.to_multiset().add(
                before_rest.to_multiset(),
            ));
            before.insert_ensures(p as int, out@[p as int]);
            assert forall|i: int, j: int| 0 <= i < j < out@.len() implies (
            #[trigger] out@[i]).memory >= (#[trigger] out@[j]).memory by {
                if j < p {
                } else if i < p && j == p {
                } else if i < p {
                    assert(out@[j] == before[j - 1]);
                } else if i == p {
                    assert(out@[j] == before[j - 1]);
                    assert(before[p as int].memory < m);
                    if j - 1 > p {
                        assert(before[p as int].memory >= before[j - 1].memory);
                    }
                } else {
                    assert(out@[i] == before[i - 1]);
                    assert(out@[j] == before[j - 1]);
                }
            }
        }
    }
    out
}

} // verus!
