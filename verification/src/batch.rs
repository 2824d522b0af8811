//! Grouping of render instances by the model they draw, so that each model
//! is drawn once with all its instances.
use std::collections::HashMap;
use vstd::prelude::*;

verus! {

/// The instances of model `k` in `s`, in order.
pub open spec fn instances_of<T>(s: Seq<(u64, T)>, k: u64) -> Seq<T>
    decreases s.len(),
{
    if s.len() == 0 {
        Seq::empty()
    } else {
        let xs = instances_of(s.drop_last(), k);
        if s.last().0 == k {
            xs.push(s.last().1)
        } else {
            xs
        }
    }
}

/// Whether some instance of `s` draws model `k`.
pub open spec fn draws_model<T>(s: Seq<(u64, T)>, k: u64) -> bool {
    exists|i: int| 0 <= i < s.len() && #[trigger] s[i].0 == k
}

/// A model that no instance draws has no instances.
proof fn lemma_no_instances<T>(s: Seq<(u64, T)>, k: u64)
    requires
        !draws_model(s, k),
    ensures
        instances_of(s, k) == Seq::<T>::empty(),
    decreases s.len(),
{
    if s.len() > 0 {
        let p = s.drop_last();
        assert(!draws_model(p, k)) by {
            if draws_model(p, k) {
                let i = choose|i: int| 0 <= i < p.len() && #[trigger] p[i].0 == k;
                assert(s[i].0 == k);
            }
        }
        assert(s[s.len() - 1].0 != k);
        lemma_no_instances(p, k);
    }
}

/// The batch of each model holds exactly that model's instances, in order:
/// every instance is drawn once, with its own model.
pub proof fn law_batches_partition<T>(s: Seq<(u64, T)>, k: u64)
    ensures
        instances_of(s, k) == s.filter(|e: (u64, T)| e.0 == k).map_values(|e: (u64, T)| e.1),
    decreases s.len(),
{
    reveal_with_fuel(Seq::filter, 1);
    if s.len() > 0 {
        let p = s.drop_last();
        law_batches_partition(p, k);
        let f = p.filter(|e: (u64, T)| e.0 == k);
        if s.last().0 == k {
            assert(f.push(s.last()).map_values(|e: (u64, T)| e.1) =~= f.map_values(
                |e: (u64, T)| e.1,
            ).push(s.last().1));
        }
    }
}

/// Groups instances by model id: one batch per model that some instance
/// draws, holding that model's instances in their order.
pub fn batch_by_model<T>(items: Vec<(u64, T)>) -> (r: HashMap<u64, Vec<T>>)
    ensures
        forall|k: u64| #[trigger] r@.contains_key(k) <==> draws_model(items@, k),
        forall|k: u64| #[trigger] r@.contains_key(k) ==> r@[k]@ == instances_of(items@, k),
{
    broadcast use vstd::std_specs::hash::group_hash_axioms;

    let ghost all = items@;
    let mut rest = items;
    let mut batches: HashMap<u64, Vec<T>> = HashMap::new();
    let total = rest.len();
    let mut n: usize = 0;
    while rest.len() > 0
        invariant
            n + rest@.len() == all.len(),
            all.len() == total,
            rest@ == all.subrange(n as int, all.len() as int),
            forall|k: u64| #[trigger] batches@.contains_key(k) <==> draws_model(all.take(n as int), k),
            forall|k: u64| #[trigger]
                batches@.contains_key(k) ==> batches@[k]@ == instances_of(all.take(n as int), k),
        decreases rest@.len(),
    {
        let (k, x) = rest.remove(0);
        let ghost pre = all.take(n as int);
        let ghost post = all.take(n + 1);
        assert(post.drop_last() =~= pre);
        assert(post.last() == (k, x));
        let ghost old_b = batches@;
        let xs = match batches.remove(&k) {
            Some(mut xs) => {
                xs.push(x);
                xs
            },
            None => {
                proof {
                    lemma_no_instances(pre, k);
                }
                let mut xs: Vec<T> = Vec::new();
                xs.push(x);
                xs
            },
        };
        assert(xs@ == instances_of(post, k));
        batches.insert(k, xs);
        proof {
            assert forall|q: u64| #[trigger] batches@.contains_key(q) <==> draws_model(post, q) by {
                if draws_model(post, q) && q != k {
                    let i = choose|i: int| 0 <= i < post.len() && #[trigger] post[i].0 == q;
                    assert(pre[i].0 == q);
                }
                if draws_model(pre, q) {
                    let i = choose|i: int| 0 <= i < pre.len() && #[trigger] pre[i].0 == q;
                    assert(post[i].0 == q);
                }
                assert(post[n as int].0 == k);
            }
            assert forall|q: u64| #[trigger] batches@.contains_key(q) implies batches@[q]@
                == instances_of(post, q) by {
                if q != k {
                    assert(old_b.contains_key(q));
                }
            }
        }
        n = n + 1;
        assert(rest@ =~= all.subrange(n as int, all.len() as int));
    }
    assert(all.take(all.len() as int) =~= all);
    batches
}

} // verus!
