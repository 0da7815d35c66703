//! Confirming duplicates: files are grouped by a size or content hash in
//! the scanner's concurrent map, and a group of two or more files with the
//! same hash is a set of duplicates.
use vstd::prelude::*;

verus! {

/// The positions among the first `n` hashes that hold `h`, in order.
pub open spec fn indices_below(keys: Seq<u64>, h: u64, n: int) -> Seq<int>
    decreases n,
{
    if n <= 0 {
        Seq::empty()
    } else if keys[n - 1] == h {
        indices_below(keys, h, n - 1).push(n - 1)
    } else {
        indices_below(keys, h, n - 1)
    }
}

/// Another position holds the same hash as position `i`.
pub open spec fn occurs_twice(keys: Seq<u64>, i: int) -> bool {
    exists|j: int| 0 <= j < keys.len() && j != i && keys[j] == keys[i]
}

proof fn lemma_indices_below(keys: Seq<u64>, h: u64, n: int)
    requires
        0 <= n <= keys.len(),
    ensures
        forall|t: int| 0 <= t < indices_below(keys, h, n).len() ==> 0 <= #[trigger] indices_below(keys, h, n)[t] < n
            && keys[indices_below(keys, h, n)[t]] == h,
        forall|m: int| 0 <= m < n && keys[m] == h ==> indices_below(keys, h, n).contains(m),
        forall|s: int, t: int|
            0 <= s < t < indices_below(keys, h, n).len() ==> indices_below(keys, h, n)[s] < indices_below(keys, h, n)[t],
    decreases n,
{
    if n > 0 {
        lemma_indices_below(keys, h, n - 1);
        let prev = indices_below(keys, h, n - 1);
        assert forall|m: int| 0 <= m < n && keys[m] == h implies indices_below(keys, h, n).contains(m) by {
            if m < n - 1 {
                let t = choose|t: int| 0 <= t < prev.len() && prev[t] == m;
                if keys[n - 1] == h {
                    assert(indices_below(keys, h, n)[t] == m);
                }
            } else {
                assert(indices_below(keys, h, n).last() == m);
            }
        }
    }
}

/// The concurrent map the scanner groups files in.
#[verifier::external_type_specification]
#[verifier::external_body]
#[verifier::reject_recursive_types(K)]
#[verifier::reject_recursive_types(V)]
#[verifier::reject_recursive_types(S)]
pub struct ExDashMap<K, V, S>(dashmap::DashMap<K, V, S>);

/// The scanner's map from a hash to the positions holding it.
pub type PositionMap = dashmap::DashMap<u64, Vec<usize>>;

/// What a map of positions by hash holds: for each hash, the positions
/// pushed under it, in the order they were pushed.
pub uninterp spec fn dashmap_positions(m: PositionMap) -> Map<u64, Seq<usize>>;

/// `DashMap::new`: a map that holds nothing.
#[verifier::external_body]
fn new_position_map() -> (r: PositionMap)
    ensures
        dashmap_positions(r).dom().len() == 0,
        dashmap_positions(r).dom().finite(),
{
    dashmap::DashMap::new()
}

/// The positions under `key` after one more is pushed.
pub open spec fn pushed(m: Map<u64, Seq<usize>>, key: u64, position: usize) -> Map<u64, Seq<usize>> {
    m.insert(
        key,
        (if m.contains_key(key) {
            m[key]
        } else {
            Seq::empty()
        }).push(position),
    )
}

/// `map.entry(key).or_default().push(position)`: appends the position to
/// the key's list, starting an empty list for a new key.
#[verifier::external_body]
fn push_position(m: &mut PositionMap, key: u64, position: usize)
    ensures
        dashmap_positions(*final(m)) == pushed(dashmap_positions(*old(m)), key, position),
{
    m.entry(key).or_default().push(position);
}

/// Whether a list holds two or more positions.
fn is_repeated(positions: &Vec<usize>) -> (r: bool)
    ensures
        r == (positions@.len() > 1),
{
    positions.len() > 1
}

/// The entries whose lists hold two or more positions.
pub open spec fn repeated_only(m: Map<u64, Seq<usize>>) -> Map<u64, Seq<usize>> {
    m.restrict(m.dom().filter(|k: u64| m[k].len() > 1))
}

/// `map.retain(|_, v| v.len() > 1)`: keeps the entries with two or more
/// positions.
#[verifier::external_body]
fn keep_repeated(m: &mut PositionMap)
    ensures
        dashmap_positions(*final(m)) == repeated_only(dashmap_positions(*old(m))),
{
    m.retain(|_, v| is_repeated(v));
}

/// `map.iter()`, each entry taken as its hash and a copy of its list. The
/// map's order of iteration is not stated; every entry comes once.
#[verifier::external_body]
fn position_entries(m: &PositionMap) -> (r: Vec<(u64, Vec<usize>)>)
    ensures
        r@.len() == dashmap_positions(*m).dom().len(),
        forall|i: int|
            0 <= i < r@.len() ==> dashmap_positions(*m).contains_key(#[trigger] r@[i].0) && dashmap_positions(*m)[r@[i].0]
                == r@[i].1@,
        forall|i: int, j: int| 0 <= i < j < r@.len() ==> #[trigger] r@[i].0 != #[trigger] r@[j].0,
        forall|k: u64| dashmap_positions(*m).contains_key(k) ==> exists|i: int| 0 <= i < r@.len() && #[trigger] r@[i].0 == k,
{
    m.iter().map(|e| (*e.key(), e.value().clone())).collect()
}

/// Positions as integers.
pub open spec fn as_ints(s: Seq<usize>) -> Seq<int> {
    s.map_values(|x: usize| x as int)
}

proof fn lemma_no_earlier_positions(keys: Seq<u64>, h: u64, n: int)
    requires
        0 <= n <= keys.len(),
        forall|j: int| 0 <= j < n ==> keys[j] != h,
    ensures
        indices_below(keys, h, n).len() == 0,
    decreases n,
{
    if n > 0 {
        lemma_no_earlier_positions(keys, h, n - 1);
    }
}

/// Groups positions by hash in a concurrent map: each hash that occurs
/// maps to every position holding it, in increasing order.
pub fn group_positions(keys: &Vec<u64>) -> (r: PositionMap)
    ensures
        forall|h: u64| dashmap_positions(r).contains_key(h) <==> keys@.contains(h),
        forall|h: u64|
            dashmap_positions(r).contains_key(h) ==> as_ints(#[trigger] dashmap_positions(r)[h]) == indices_below(
                keys@,
                h,
                keys@.len() as int,
            ),
{
    let mut m = new_position_map();
    let mut i: usize = 0;
    while i < keys.len()
        invariant
            i <= keys@.len(),
            forall|h: u64| dashmap_positions(m).contains_key(h) <==> exists|j: int| 0 <= j < i && keys@[j] == h,
            forall|h: u64|
                dashmap_positions(m).contains_key(h) ==> as_ints(#[trigger] dashmap_positions(m)[h]) == indices_below(
                    keys@,
                    h,
                    i as int,
                ),
        decreases keys.len() - i,
    {
        let key = keys[i];
        let ghost before = dashmap_positions(m);
        proof {
            if !before.contains_key(key) {
                lemma_no_earlier_positions(keys@, key, i as int);
            }
        }
        push_position(&mut m, key, i);
        let ghost after = dashmap_positions(m);
        assert forall|h: u64| after.contains_key(h) implies as_ints(#[trigger] after[h]) == indices_below(
            keys@,
            h,
            i + 1,
        ) by {
            if h == key {
                let old_list = if before.contains_key(key) {
                    before[key]
                } else {
                    Seq::empty()
                };
                assert(as_ints(old_list) =~= indices_below(keys@, key, i as int));
                assert(as_ints(old_list.push(i)) =~= as_ints(old_list).push(i as int));
            } else {
                assert(after[h] == before[h]);
            }
        }
        assert forall|h: u64| after.contains_key(h) <==> exists|j: int| 0 <= j < i + 1 && keys@[j] == h by {
            if h == key {
                assert(keys@[i as int] == h);
            }
        }
        i = i + 1;
    }
    proof {
        assert forall|h: u64| (exists|j: int| 0 <= j < keys@.len() && keys@[j] == h) <==> keys@.contains(h) by {}
    }
    m
}

/// The hashes held by two or more positions, each with every position
/// holding it in increasing order, found through the scanner's concurrent
/// map. The order of the hashes is the map's, and is not stated.
pub fn duplicate_positions(keys: &Vec<u64>) -> (r: Vec<(u64, Vec<usize>)>)
    ensures
        forall|i: int|
            0 <= i < r@.len() ==> {
                &&& as_ints((#[trigger] r@[i]).1@) == indices_below(keys@, r@[i].0, keys@.len() as int)
                &&& r@[i].1@.len() >= 2
            },
        forall|i: int, j: int| 0 <= i < j < r@.len() ==> #[trigger] r@[i].0 != #[trigger] r@[j].0,
        forall|t: int|
            0 <= t < keys@.len() && occurs_twice(keys@, t) ==> exists|i: int| 0 <= i < r@.len() && #[trigger] r@[i].0 == keys@[t],
{
    let mut m = group_positions(keys);
    let ghost grouped = dashmap_positions(m);
    keep_repeated(&mut m);
    let r = position_entries(&m);
    let ghost kept = dashmap_positions(m);
    assert forall|t: int| 0 <= t < keys@.len() && occurs_twice(keys@, t) implies exists|i: int|
        0 <= i < r@.len() && #[trigger] r@[i].0 == keys@[t] by {
        let h = keys@[t];
        assert(keys@.contains(h));
        let j = choose|j: int| 0 <= j < keys@.len() && j != t && keys@[j] == keys@[t];
        lemma_indices_below(keys@, h, keys@.len() as int);
        let idx = indices_below(keys@, h, keys@.len() as int);
        let ti = choose|s: int| 0 <= s < idx.len() && idx[s] == t;
        let tj = choose|s: int| 0 <= s < idx.len() && idx[s] == j;
        assert(ti != tj);
        assert(as_ints(grouped[h]).len() == grouped[h].len());
        assert(grouped[h].len() > 1);
        assert(kept.contains_key(h));
    }
    r
}

/// Which files need a full hash: those whose partial hash another file
/// shares; a file whose partial hash is unique cannot have a duplicate.
pub fn full_hash_candidates(partial: &Vec<u64>) -> (r: Vec<bool>)
    ensures
        r@.len() == partial@.len(),
        forall|i: int| 0 <= i < partial@.len() ==> r@[i] == occurs_twice(partial@, i),
{
    let groups = duplicate_positions(partial);
    let n = partial.len();
    let mut marks: Vec<bool> = Vec::new();
    let mut i: usize = 0;
    while i < n
        invariant
            i <= n,
            n == partial@.len(),
            marks@.len() == i,
            forall|t: int| 0 <= t < i ==> !marks@[t],
        decreases n - i,
    {
        marks.push(false);
        i = i + 1;
    }
    let mut g: usize = 0;
    while g < groups.len()
        invariant
            g <= groups@.len(),
            n == partial@.len(),
            marks@.len() == n,
            forall|k: int|
                0 <= k < groups@.len() ==> {
                    &&& as_ints((#[trigger] groups@[k]).1@) == indices_below(partial@, groups@[k].0, partial@.len() as int)
                    &&& groups@[k].1@.len() >= 2
                },
            forall|t: int|
                0 <= t < n ==> (#[trigger] marks@[t] <==> exists|k: int|
                    0 <= k < g && as_ints(groups@[k].1@).contains(t)),
        decreases groups.len() - g,
    {
        let members = &groups[g].1;
        let ghost before = marks@;
        proof {
            lemma_indices_below(partial@, groups@[g as int].0, partial@.len() as int);
        }
        let mut j: usize = 0;
        while j < members.len()
            invariant
                g < groups@.len(),
                members@ == groups@[g as int].1@,
                as_ints(members@) == indices_below(partial@, groups@[g as int].0, partial@.len() as int),
                forall|t: int| 0 <= t < indices_below(partial@, groups@[g as int].0, partial@.len() as int).len() ==> 0
                    <= #[trigger] indices_below(partial@, groups@[g as int].0, partial@.len() as int)[t] < partial@.len(),
                j <= members@.len(),
                n == partial@.len(),
                marks@.len() == n,
                forall|t: int|
                    0 <= t < n ==> (#[trigger] marks@[t] <==> (before[t] || exists|q: int|
                        0 <= q < j && members@[q] as int == t)),
            decreases members.len() - j,
        {
            let m = members[j];
            assert(as_ints(members@)[j as int] == m as int);
            marks.set(m, true);
            j = j + 1;
        }
        assert forall|t: int| 0 <= t < n implies (#[trigger] marks@[t] <==> exists|k: int|
            0 <= k < g + 1 && as_ints(groups@[k].1@).contains(t)) by {
            let mv = as_ints(groups@[g as int].1@);
            if exists|q: int| 0 <= q < members@.len() && members@[q] as int == t {
                let q = choose|q: int| 0 <= q < members@.len() && members@[q] as int == t;
                assert(mv[q] == t);
            }
            if mv.contains(t) {
                let q = choose|q: int| 0 <= q < mv.len() && mv[q] == t;
                assert(members@[q] as int == t);
            }
        }
        g = g + 1;
    }
    assert forall|i: int| 0 <= i < partial@.len() implies marks@[i] == occurs_twice(partial@, i) by {
        let h = partial@[i];
        lemma_indices_below(partial@, h, partial@.len() as int);
        if occurs_twice(partial@, i) {
            let k = choose|k: int| 0 <= k < groups@.len() && #[trigger] groups@[k].0 == partial@[i];
            assert(as_ints(groups@[k].1@).contains(i));
        }
        if marks@[i] {
            let k = choose|k: int| 0 <= k < groups@.len() && as_ints(groups@[k].1@).contains(i);
            let hk = groups@[k].0;
            lemma_indices_below(partial@, hk, partial@.len() as int);
            let idx = indices_below(partial@, hk, partial@.len() as int);
            let q = choose|q: int| 0 <= q < idx.len() && idx[q] == i;
            let other = if q == 0 { 1int } else { 0int };
            assert(idx[other] != idx[q]);
            assert(partial@[idx[other]] == hk && partial@[i] == hk);
            assert(0 <= idx[other] < partial@.len() && idx[other] != i && partial@[idx[other]] == partial@[i]);
        }
    }
    marks
}

} // verus!
