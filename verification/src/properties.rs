//! The custom properties of a model: a list of keyed values with stable ids,
//! as edited in the inspector's property grid.
use crate::text::{decimal_seq, digit_char, owned, push_decimal, same_text};
use vstd::prelude::*;

verus! {

/// One custom property.
pub struct Property<V> {
    pub id: u64,
    pub key: String,
    pub value: V,
}

/// Why a property could not be changed.
#[derive(Clone, Copy, PartialEq, Eq, Structural, Debug)]
pub enum PropertyError {
    /// No property has the given id.
    IdNotFound,
}

/// The properties of a model, in grid order, and the id the next one gets.
pub struct ModelProperties<V> {
    pub custom_properties: Vec<Property<V>>,
    pub next_id: u64,
}

/// The `c`-th key the "Add" button tries: `new_property`, then
/// `new_property_1`, `new_property_2`, ...
pub open spec fn candidate_key(c: nat) -> Seq<char> {
    if c == 0 {
        "new_property"@
    } else {
        "new_property_"@ + decimal_seq(c)
    }
}

/// The keys of a property list.
pub open spec fn keys_of<V>(ps: Seq<Property<V>>) -> Seq<Seq<char>> {
    ps.map_values(|p: Property<V>| p.key@)
}

/// The ids of a property list.
pub open spec fn ids_of<V>(ps: Seq<Property<V>>) -> Seq<u64> {
    ps.map_values(|p: Property<V>| p.id)
}

/// Every property has its own id, and each id is below `next`, the id the
/// next property gets.
pub open spec fn ids_unique_below<V>(ps: Seq<Property<V>>, next: u64) -> bool {
    &&& forall|i: int, j: int| 0 <= i < j < ps.len() ==> ps[i].id != ps[j].id
    &&& forall|i: int| 0 <= i < ps.len() ==> ps[i].id < next
}

/// Index `i` holds the first property with id `id`.
pub open spec fn renamed_at<V>(ps: Seq<Property<V>>, i: int, id: u64) -> bool {
    &&& 0 <= i < ps.len()
    &&& ps[i].id == id
    &&& forall|j: int| 0 <= j < i ==> ps[j].id != id
}

/// The first candidate key that none of `keys` uses is candidate `k`.
pub open spec fn is_first_free(keys: Seq<Seq<char>>, k: nat) -> bool {
    &&& !keys.contains(candidate_key(k))
    &&& forall|c: nat| c < k ==> keys.contains(#[trigger] candidate_key(c))
}

proof fn lemma_decimal_len(n: nat)
    ensures
        decimal_seq(n).len() >= 1,
        n >= 10 ==> decimal_seq(n).len() >= 2,
    decreases n,
{
    if n >= 10 {
        lemma_decimal_len(n / 10);
    }
}

proof fn lemma_digit_injective(a: nat, b: nat)
    requires
        a < 10,
        b < 10,
        digit_char(a) == digit_char(b),
    ensures
        a == b,
{
}

/// Different numbers have different decimal forms.
proof fn lemma_decimal_injective(a: nat, b: nat)
    requires
        decimal_seq(a) == decimal_seq(b),
    ensures
        a == b,
    decreases a,
{
    lemma_decimal_len(a);
    lemma_decimal_len(b);
    if a < 10 && b < 10 {
        assert(decimal_seq(a)[0] == digit_char(a));
        assert(decimal_seq(b)[0] == digit_char(b));
        lemma_digit_injective(a, b);
    } else if a < 10 {
        lemma_decimal_len(b);
        assert(decimal_seq(a).len() == 1);
    } else if b < 10 {
        assert(decimal_seq(b).len() == 1);
    } else {
        assert(decimal_seq(a).last() == digit_char(a % 10));
        assert(decimal_seq(b).last() == digit_char(b % 10));
        lemma_digit_injective(a % 10, b % 10);
        assert(decimal_seq(a).drop_last() =~= decimal_seq(a / 10));
        assert(decimal_seq(b).drop_last() =~= decimal_seq(b / 10));
        lemma_decimal_injective(a / 10, b / 10);
    }
}

/// Different counters give different candidate keys.
proof fn lemma_candidate_injective(a: nat, b: nat)
    requires
        candidate_key(a) == candidate_key(b),
    ensures
        a == b,
{
    reveal_strlit("new_property");
    reveal_strlit("new_property_");
    lemma_decimal_len(a);
    lemma_decimal_len(b);
    if a != 0 && b != 0 {
        let p = "new_property_"@;
        assert(candidate_key(a).subrange(13, candidate_key(a).len() as int) =~= decimal_seq(a));
        assert(candidate_key(b).subrange(13, candidate_key(b).len() as int) =~= decimal_seq(b));
        lemma_decimal_injective(a, b);
    } else if a != 0 || b != 0 {
        assert("new_property"@.len() == 12);
        assert("new_property_"@.len() == 13);
        assert(candidate_key(a).len() != candidate_key(b).len());
    }
}

/// If the first `k + 1` candidates are all taken, the list has more than `k` keys.
proof fn lemma_taken_candidates_bound(keys: Seq<Seq<char>>, k: nat)
    requires
        forall|c: nat| c <= k ==> keys.contains(#[trigger] candidate_key(c)),
    ensures
        k < keys.len(),
{
    broadcast use vstd::seq_lib::seq_to_set_is_finite;

    let cands = Seq::new(k + 1, |c: int| candidate_key(c as nat));
    assert(cands.no_duplicates()) by {
        assert forall|i: int, j: int|
            0 <= i < cands.len() && 0 <= j < cands.len() && i != j implies cands[i] != cands[j] by {
            if cands[i] == cands[j] {
                lemma_candidate_injective(i as nat, j as nat);
            }
        }
    }
    cands.unique_seq_to_set();
    assert(cands.to_set().subset_of(keys.to_set())) by {
        assert forall|x: Seq<char>| cands.to_set().contains(x) implies keys.to_set().contains(x) by {
            let i = cands.index_of(x);
            assert(x == candidate_key(i as nat));
        }
    }
    vstd::set_lib::lemma_len_subset(cands.to_set(), keys.to_set());
    keys.lemma_cardinality_of_set();
}

/// The candidate key number `c`, built as a `String`.
fn candidate_string(c: u64) -> (r: String)
    ensures
        r@ == candidate_key(c as nat),
{
    if c == 0 {
        owned("new_property")
    } else {
        let mut s = owned("new_property_");
        push_decimal(&mut s, c);
        s
    }
}

impl<V> ModelProperties<V> {
    /// The keys, in grid order.
    pub open spec fn keys(&self) -> Seq<Seq<char>> {
        keys_of(self.custom_properties@)
    }

    /// The ids, in grid order.
    pub open spec fn ids(&self) -> Seq<u64> {
        ids_of(self.custom_properties@)
    }

    /// Every property has its own id, below the id the next one gets.
    pub open spec fn ids_ok(&self) -> bool {
        ids_unique_below(self.custom_properties@, self.next_id)
    }

    /// No properties; the first one added gets id 0.
    pub fn new() -> (r: Self)
        ensures
            r.custom_properties@ == Seq::<Property<V>>::empty(),
            r.next_id == 0,
            r.ids_ok(),
    {
        ModelProperties { custom_properties: Vec::new(), next_id: 0 }
    }

    /// Whether some property has the key `key`.
    pub fn has_key(&self, key: &str) -> (r: bool)
        ensures
            r == self.keys().contains(key@),
    {
        let mut i: usize = 0;
        while i < self.custom_properties.len()
            invariant
                i <= self.custom_properties@.len(),
                forall|j: int| 0 <= j < i ==> self.custom_properties@[j].key@ != key@,
            decreases self.custom_properties@.len() - i,
        {
            if same_text(self.custom_properties[i].key.as_str(), key) {
                assert(self.keys()[i as int] == key@);
                return true;
            }
            i = i + 1;
        }
        assert forall|j: int| 0 <= j < self.keys().len() implies self.keys()[j] != key@ by {
            assert(self.keys()[j] == self.custom_properties@[j].key@);
        }
        false
    }

    /// The key the "Add" button gives a new property: the first of
    /// `new_property`, `new_property_1`, `new_property_2`, ... that no
    /// property uses yet.
    pub fn fresh_key(&self) -> (r: String)
        ensures
            exists|k: nat| is_first_free(self.keys(), k) && r@ == candidate_key(k),
            !self.keys().contains(r@),
    {
        let total = self.custom_properties.len();
        let mut counter: u64 = 0;
        let mut key = candidate_string(0);
        while self.has_key(key.as_str())
            invariant
                key@ == candidate_key(counter as nat),
                counter <= self.keys().len(),
                self.keys().len() == self.custom_properties@.len(),
                self.custom_properties@.len() <= usize::MAX,
                forall|c: nat| c < counter ==> self.keys().contains(#[trigger] candidate_key(c)),
            decreases self.keys().len() - counter,
        {
            proof {
                assert forall|c: nat| c <= counter implies self.keys().contains(
                    #[trigger] candidate_key(c),
                ) by {
                    if c == counter {
                        assert(key@ == candidate_key(c));
                    }
                }
                lemma_taken_candidates_bound(self.keys(), counter as nat);
            }
            counter = counter + 1;
            key = candidate_string(counter);
        }
        assert(is_first_free(self.keys(), counter as nat));
        key
    }

    /// The "Add" button: appends a property with a fresh key, the given
    /// value and the next id, and advances the next id.
    pub fn add(&mut self, value: V) -> (id: u64)
        requires
            old(self).next_id < u64::MAX,
        ensures
            id == old(self).next_id,
            final(self).next_id == old(self).next_id + 1,
            final(self).custom_properties@.len() == old(self).custom_properties@.len() + 1,
            final(self).custom_properties@.drop_last() == old(self).custom_properties@,
            final(self).custom_properties@.last().id == id,
            final(self).custom_properties@.last().value == value,
            exists|k: nat|
                is_first_free(old(self).keys(), k) && final(self).custom_properties@.last().key@ == candidate_key(k),
            !old(self).keys().contains(final(self).custom_properties@.last().key@),
            old(self).ids_ok() ==> final(self).ids_ok() && !old(self).ids().contains(id),
    {
        let key = self.fresh_key();
        let id = self.next_id;
        let ghost before = self.custom_properties@;
        self.custom_properties.push(Property { id, key, value });
        self.next_id = self.next_id + 1;
        assert(self.custom_properties@.drop_last() =~= before);
        proof {
            if ids_unique_below(before, id) {
                assert forall|j: int| 0 <= j < before.len() implies ids_of(before)[j] != id by {
                    assert(ids_of(before)[j] == before[j].id);
                }
                assert forall|a: int, b: int| 0 <= a < b < self.custom_properties@.len() implies
                    self.custom_properties@[a].id != self.custom_properties@[b].id by {
                    assert(self.custom_properties@[a] == before[a]);
                    if b < before.len() {
                        assert(self.custom_properties@[b] == before[b]);
                    }
                }
                assert forall|a: int| 0 <= a < self.custom_properties@.len() implies
                    self.custom_properties@[a].id < self.next_id by {
                    if a < before.len() {
                        assert(self.custom_properties@[a] == before[a]);
                    }
                }
            }
        }
        id
    }

    /// The trash button: removes every property with id `id`, keeping the others in order.
    pub fn delete(&mut self, id: u64)
        ensures
            final(self).custom_properties@ == old(self).custom_properties@.filter(
                |p: Property<V>| p.id != id,
            ),
            final(self).next_id == old(self).next_id,
            old(self).ids_ok() ==> final(self).ids_ok(),
    {
        let next = self.next_id;
        let mut kept: Vec<Property<V>> = Vec::new();
        let ghost all = self.custom_properties@;
        let mut rest: Vec<Property<V>> = Vec::new();
        std::mem::swap(&mut rest, &mut self.custom_properties);
        let total = rest.len();
        let mut n: usize = 0;
        while rest.len() > 0
            invariant
                n + rest@.len() == all.len(),
                all.len() <= usize::MAX,
                rest@ == all.subrange(n as int, all.len() as int),
                kept@ == all.subrange(0, n as int).filter(|p: Property<V>| p.id != id),
                forall|k: int| 0 <= k < kept@.len() ==> exists|j: int| 0 <= j < n && #[trigger] kept@[k] == all[j],
                ids_unique_below(all, next) ==> ids_unique_below(kept@, next),
            decreases rest@.len(),
        {
            let p = rest.remove(0);
            assert(p == all[n as int]);
            assert(all.subrange(0, n + 1).drop_last() =~= all.subrange(0, n as int));
            assert(all.subrange(0, n + 1).last() == p);
            proof {
                reveal_with_fuel(Seq::filter, 1);
            }
            if p.id != id {
                let ghost old_kept = kept@;
                kept.push(p);
                proof {
                    assert forall|k: int| 0 <= k < kept@.len() implies exists|j: int|
                        0 <= j < n + 1 && #[trigger] kept@[k] == all[j] by {
                        if k < old_kept.len() {
                            assert(kept@[k] == old_kept[k]);
                        } else {
                            assert(kept@[k] == all[n as int]);
                        }
                    }
                    if ids_unique_below(all, next) {
                        assert forall|a: int, b: int| 0 <= a < b < kept@.len() implies
                            kept@[a].id != kept@[b].id by {
                            assert(kept@[a] == old_kept[a]);
                            let ja = choose|j: int| 0 <= j < n && #[trigger] old_kept[a] == all[j];
                            if b < old_kept.len() {
                                assert(kept@[b] == old_kept[b]);
                            } else {
                                assert(kept@[b] == all[n as int]);
                                assert(all[ja].id != all[n as int].id);
                            }
                        }
                        assert forall|a: int| 0 <= a < kept@.len() implies kept@[a].id < next by {
                            if a < old_kept.len() {
                                assert(kept@[a] == old_kept[a]);
                                let ja = choose|j: int| 0 <= j < n && #[trigger] old_kept[a] == all[j];
                                assert(all[ja].id < next);
                            } else {
                                assert(kept@[a] == all[n as int]);
                            }
                        }
                    }
                }
            }
            n = n + 1;
            assert(rest@ =~= all.subrange(n as int, all.len() as int));
        }
        assert(all.subrange(0, all.len() as int) =~= all);
        self.custom_properties = kept;
    }

    /// Renames the first property with id `id` to `new_key`; fails when no property has that id.
    pub fn rename(&mut self, id: u64, new_key: String) -> (r: Result<(), PropertyError>)
        ensures
            final(self).next_id == old(self).next_id,
            final(self).ids() == old(self).ids(),
            r is Err <==> !old(self).ids().contains(id),
            old(self).ids_ok() ==> final(self).ids_ok(),
            r is Err ==> final(self).custom_properties@ == old(self).custom_properties@,
            r is Ok ==> exists|i: int| #[trigger] renamed_at(old(self).custom_properties@, i, id) && {
                &&& final(self).keys() == old(self).keys().update(i, new_key@)
                &&& forall|j: int| 0 <= j < old(self).custom_properties@.len()
                    ==> (#[trigger] final(self).custom_properties@[j]).value
                    == old(self).custom_properties@[j].value
            },
    {
        let mut i: usize = 0;
        while i < self.custom_properties.len()
            invariant
                i <= self.custom_properties@.len(),
                self.custom_properties@ == old(self).custom_properties@,
                self.next_id == old(self).next_id,
                forall|j: int| 0 <= j < i ==> self.custom_properties@[j].id != id,
            decreases self.custom_properties@.len() - i,
        {
            if self.custom_properties[i].id == id {
                let ghost before = self.custom_properties@;
                let mut p = self.custom_properties.remove(i);
                p.key = new_key;
                self.custom_properties.insert(i, p);
                proof {
                    assert(self.keys() =~= old(self).keys().update(i as int, p.key@));
                    assert(self.ids() =~= old(self).ids());
                    assert forall|j: int|
                        0 <= j < old(self).custom_properties@.len() implies (
                        #[trigger] self.custom_properties@[j]).value == old(self).custom_properties@[j].value by {
                        if j < i {
                            assert(self.custom_properties@[j] == before[j]);
                        } else if j > i {
                            assert(self.custom_properties@[j] == before[j]);
                        }
                    }
                    assert(old(self).ids()[i as int] == id);
                    assert(renamed_at(old(self).custom_properties@, i as int, id));
                    assert forall|j: int| 0 <= j < before.len() implies
                        #[trigger] self.custom_properties@[j].id == before[j].id by {
                        assert(self.ids()[j] == old(self).ids()[j]);
                    }
                }
                return Ok(());
            }
            i = i + 1;
        }
        assert forall|j: int| 0 <= j < old(self).ids().len() implies old(self).ids()[j] != id by {
            assert(old(self).ids()[j] == old(self).custom_properties@[j].id);
        }
        Err(PropertyError::IdNotFound)
    }
}

} // verus!
