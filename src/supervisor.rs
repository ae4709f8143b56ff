//! Which probers run: one per active target, decided once at start.
use vstd::prelude::*;
use crate::target::Model;

verus! {

/// The active targets of `s`, in order.
pub open spec fn active_of(s: Seq<Model>) -> Seq<Model>
    decreases s.len(),
{
    if s.len() == 0 {
        Seq::empty()
    } else if s.last().is_active {
        active_of(s.drop_last()).push(s.last())
    } else {
        active_of(s.drop_last())
    }
}

/// The targets to start a prober for, given what the configuration store
/// returned: every active one, in order; none when the store failed.
pub fn targets_to_probe<E>(loaded: Result<Vec<Model>, E>) -> (r: Vec<Model>)
    ensures
        match loaded {
            Ok(ts) => r@ == active_of(ts@),
            Err(_) => r@.len() == 0,
        },
{
    match loaded {
        Err(_) => Vec::new(),
        Ok(ts) => {
            let ghost all = ts@;
            assert(all.len() == ts.len());
            let mut rest = ts;
            let mut out: Vec<Model> = Vec::new();
            let mut k: usize = 0;
            while rest.len() > 0
                invariant
                    k + rest@.len() == all.len(),
                    all.len() <= usize::MAX,
                    rest@ == all.subrange(k as int, all.len() as int),
                    out@ == active_of(all.subrange(0, k as int)),
                decreases rest@.len(),
            {
                let t = rest.remove(0);
                assert(all.subrange(0, k + 1).drop_last() =~= all.subrange(0, k as int));
                if t.is_active {
                    out.push(t);
                }
                k = k + 1;
                assert(rest@ =~= all.subrange(k as int, all.len() as int));
            }
            assert(all.subrange(0, k as int) =~= all);
            out
        },
    }
}

} // verus!
