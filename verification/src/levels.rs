use vstd::prelude::*;
use crate::msg::TokenLevelResponse;

verus! {

// The per-token timer map: a vector of `(numeric id, timer state)` pairs,
// strictly sorted by id, holding only the tokens whose state was ever written.
// This module defines the map's specification-level semantics and the verified
// operations on it; the contract-level commands live in `leveling`.

/// The timer state a token has before anything was written for it.
pub open spec fn default_level() -> TokenLevelResponse {
    TokenLevelResponse { leveling: false, leveling_start_timestamp: 0, total_exp: 0 }
}

/// A timer state is Idle (`leveling == false, start == 0`) or Active
/// (`leveling == true, start != 0`).
pub open spec fn level_ok(l: TokenLevelResponse) -> bool {
    (l.leveling_start_timestamp == 0) <==> !l.leveling
}

/// The map invariant: ids strictly increasing, every state Idle or Active.
pub open spec fn levels_wf(s: Seq<(u64, TokenLevelResponse)>) -> bool {
    &&& forall|i: int, j: int| 0 <= i < j < s.len() ==> #[trigger] s[i].0 < #[trigger] s[j].0
    &&& forall|i: int| 0 <= i < s.len() ==> level_ok(#[trigger] s[i].1)
}

/// Whether a timer state was ever written for `id`.
pub open spec fn has_level(s: Seq<(u64, TokenLevelResponse)>, id: u64) -> bool {
    exists|i: int| 0 <= i < s.len() && s[i].0 == id
}

pub open spec fn level_index(s: Seq<(u64, TokenLevelResponse)>, id: u64) -> int {
    choose|i: int| 0 <= i < s.len() && s[i].0 == id
}

/// The timer state of `id`: what was written, or the default when absent.
pub open spec fn level_of(s: Seq<(u64, TokenLevelResponse)>, id: u64) -> TokenLevelResponse {
    if has_level(s, id) {
        s[level_index(s, id)].1
    } else {
        default_level()
    }
}

/// With strictly sorted ids an id occurs at most once, so any occurrence of
/// `id` is the one `level_of` reads.
pub proof fn lemma_level_of_at(s: Seq<(u64, TokenLevelResponse)>, id: u64, i: int)
    requires
        levels_wf(s),
        0 <= i < s.len(),
        s[i].0 == id,
    ensures
        level_of(s, id) == s[i].1,
{
    let j = level_index(s, id);
    assert(0 <= j < s.len() && s[j].0 == id);
    if i < j {
        assert(s[i].0 < s[j].0);
    } else if j < i {
        assert(s[j].0 < s[i].0);
    }
}

/// Every state the map holds (or defaults to) is Idle or Active.
pub proof fn lemma_level_of_ok(s: Seq<(u64, TokenLevelResponse)>, id: u64)
    requires
        levels_wf(s),
    ensures
        level_ok(level_of(s, id)),
{
    if has_level(s, id) {
        let i = level_index(s, id);
        assert(0 <= i < s.len() && s[i].0 == id);
    }
}

/// `s` with the state of `id` set to `v`: updated in place when present,
/// inserted at its sorted position when absent.
pub open spec fn upsert_levels(
    s: Seq<(u64, TokenLevelResponse)>,
    id: u64,
    v: TokenLevelResponse,
) -> Seq<(u64, TokenLevelResponse)>
    decreases s.len(),
{
    if s.len() == 0 {
        seq![(id, v)]
    } else if s[0].0 < id {
        seq![s[0]] + upsert_levels(s.drop_first(), id, v)
    } else if s[0].0 == id {
        seq![(id, v)] + s.drop_first()
    } else {
        seq![(id, v)] + s
    }
}

/// Positional form of `upsert_levels`, at the split position `i`: the first
/// index whose id is not below `id`.
proof fn lemma_upsert_at(s: Seq<(u64, TokenLevelResponse)>, id: u64, v: TokenLevelResponse, i: int)
    requires
        0 <= i <= s.len(),
        forall|j: int| 0 <= j < i ==> (#[trigger] s[j].0) < id,
        i < s.len() ==> s[i].0 >= id,
    ensures
        (i < s.len() && s[i].0 == id) ==> upsert_levels(s, id, v) == s.update(i, (id, v)),
        !(i < s.len() && s[i].0 == id) ==> upsert_levels(s, id, v) == s.subrange(0, i) + seq![
            (id, v),
        ] + s.subrange(i, s.len() as int),
    decreases i + 1,
{
    if i == 0 {
        if s.len() == 0 {
            assert(s.subrange(0, 0) + seq![(id, v)] + s.subrange(0, 0) =~= seq![(id, v)]);
        } else if s[0].0 == id {
            assert(seq![(id, v)] + s.drop_first() =~= s.update(0, (id, v)));
        } else {
            assert(s[0].0 > id);
            assert(s.subrange(0, 0) + seq![(id, v)] + s.subrange(0, s.len() as int) =~= (seq![
                (id, v),
            ] + s));
        }
    } else {
        assert(s[0].0 < id);
        let rest = s.drop_first();
        assert(forall|j: int| 0 <= j < i - 1 ==> (#[trigger] rest[j].0) == s[j + 1].0);
        lemma_upsert_at(rest, id, v, i - 1);
        assert(upsert_levels(s, id, v) == seq![s[0]] + upsert_levels(rest, id, v));
        if i < s.len() && s[i].0 == id {
            assert(rest[i - 1].0 == id);
            assert(upsert_levels(rest, id, v) == rest.update(i - 1, (id, v)));
            assert(seq![s[0]] + rest.update(i - 1, (id, v)) =~= s.update(i, (id, v)));
        } else {
            assert(!(i - 1 < rest.len() && rest[i - 1].0 == id));
            assert(seq![s[0]] + (rest.subrange(0, i - 1) + seq![(id, v)] + rest.subrange(
                i - 1,
                rest.len() as int,
            )) =~= (s.subrange(0, i) + seq![(id, v)] + s.subrange(i, s.len() as int)));
        }
    }
}

/// A strictly sorted sequence always has a split position for any id.
proof fn lemma_split_pos(s: Seq<(u64, TokenLevelResponse)>, id: u64) -> (i: int)
    requires
        levels_wf(s),
    ensures
        0 <= i <= s.len(),
        forall|j: int| 0 <= j < i ==> (#[trigger] s[j].0) < id,
        i < s.len() ==> s[i].0 >= id,
        has_level(s, id) <==> (i < s.len() && s[i].0 == id),
    decreases s.len(),
{
    if s.len() == 0 {
        0
    } else if s[0].0 >= id {
        let i: int = 0;
        if s[0].0 == id {
        } else {
            assert(!has_level(s, id)) by {
                if has_level(s, id) {
                    let k = level_index(s, id);
                    assert(0 <= k < s.len() && s[k].0 == id);
                    if k > 0 {
                        assert(s[0].0 < s[k].0);
                    }
                }
            }
        }
        i
    } else {
        let rest = s.drop_first();
        assert(levels_wf(rest)) by {
            assert(forall|j: int| 0 <= j < rest.len() ==> rest[j] == s[j + 1]);
        }
        let k = lemma_split_pos(rest, id);
        assert(forall|j: int| 0 <= j < rest.len() ==> rest[j] == s[j + 1]);
        assert(has_level(s, id) <==> has_level(rest, id)) by {
            if has_level(s, id) {
                let m = level_index(s, id);
                assert(0 <= m < s.len() && s[m].0 == id);
                assert(m != 0);
                assert(rest[m - 1].0 == id);
            }
            if has_level(rest, id) {
                let m = choose|m: int| 0 <= m < rest.len() && rest[m].0 == id;
                assert(s[m + 1].0 == id);
            }
        }
        assert forall|j: int| 0 <= j < k + 1 implies (#[trigger] s[j].0) < id by {
            if j > 0 {
                assert(rest[j - 1].0 < id);
            }
        }
        k + 1
    }
}

/// What `upsert_levels` does to the map: it stays well formed, gains exactly
/// the key `id`, maps `id` to `v`, and maps every other id as before.
pub proof fn lemma_upsert_props(s: Seq<(u64, TokenLevelResponse)>, id: u64, v: TokenLevelResponse)
    requires
        levels_wf(s),
        level_ok(v),
    ensures
        levels_wf(upsert_levels(s, id, v)),
        forall|k: u64| has_level(upsert_levels(s, id, v), k) <==> (k == id || has_level(s, k)),
        level_of(upsert_levels(s, id, v), id) == v,
        forall|k: u64|
            k != id ==> level_of(upsert_levels(s, id, v), k) == level_of(s, k),
{
    let i = lemma_split_pos(s, id);
    lemma_upsert_at(s, id, v, i);
    let u = upsert_levels(s, id, v);
    if i < s.len() && s[i].0 == id {
        assert(u == s.update(i, (id, v)));
        assert(levels_wf(u)) by {
            assert(forall|j: int| 0 <= j < u.len() && j != i ==> u[j] == s[j]);
        }
        assert forall|k: u64| has_level(u, k) <==> (k == id || has_level(s, k)) by {
            if has_level(u, k) {
                let m = choose|m: int| 0 <= m < u.len() && u[m].0 == k;
                if m != i {
                    assert(s[m].0 == k);
                } else {
                    assert(k == id);
                }
            }
            if k == id {
                assert(u[i].0 == k);
            } else if has_level(s, k) {
                let m = level_index(s, k);
                assert(0 <= m < s.len() && s[m].0 == k);
                assert(m != i);
                assert(u[m].0 == k);
            }
        }
        assert(u[i].0 == id && u[i].1 == v);
        lemma_level_of_at(u, id, i);
        assert forall|k: u64| k != id implies level_of(u, k) == level_of(s, k) by {
            if has_level(s, k) {
                let m = level_index(s, k);
                assert(0 <= m < s.len() && s[m].0 == k);
                assert(m != i);
                assert(u[m].0 == k && u[m].1 == s[m].1);
                lemma_level_of_at(u, k, m);
                lemma_level_of_at(s, k, m);
            } else {
                assert(!has_level(u, k));
            }
        }
    } else {
        assert(u == s.subrange(0, i) + seq![(id, v)] + s.subrange(i, s.len() as int));
        assert(u.len() == s.len() + 1);
        assert(forall|j: int| 0 <= j < i ==> u[j] == s[j]);
        assert(u[i] == (id, v));
        assert(forall|j: int| i < j < u.len() ==> u[j] == s[j - 1]);
        assert(i < s.len() ==> s[i].0 > id);
        assert(levels_wf(u)) by {
            assert forall|p: int, q: int| 0 <= p < q < u.len() implies (#[trigger] u[p].0)
                < (#[trigger] u[q].0) by {
                if p < i && q < i {
                    assert(u[p] == s[p] && u[q] == s[q]);
                } else if p < i && q == i {
                    assert(s[p].0 < id);
                } else if p < i && q > i {
                    assert(u[q] == s[q - 1]);
                    assert(i <= q - 1);
                    if i < q - 1 {
                        assert(s[i].0 < s[q - 1].0);
                    }
                    assert(s[p].0 < id);
                    assert(id < s[i].0 || i == s.len());
                } else if p == i {
                    assert(u[q] == s[q - 1]);
                    assert(i <= q - 1 < s.len());
                    if i < q - 1 {
                        assert(s[i].0 < s[q - 1].0);
                    }
                } else {
                    assert(u[p] == s[p - 1] && u[q] == s[q - 1]);
                }
            }
            assert(forall|j: int| 0 <= j < u.len() ==> level_ok(#[trigger] u[j].1));
        }
        assert forall|k: u64| has_level(u, k) <==> (k == id || has_level(s, k)) by {
            if has_level(u, k) {
                let m = choose|m: int| 0 <= m < u.len() && u[m].0 == k;
                if m < i {
                    assert(s[m].0 == k);
                } else if m == i {
                    assert(k == id);
                } else {
                    assert(s[m - 1].0 == k);
                }
            }
            if k == id {
                assert(u[i].0 == k);
            } else if has_level(s, k) {
                let m = level_index(s, k);
                assert(0 <= m < s.len() && s[m].0 == k);
                if m < i {
                    assert(u[m].0 == k);
                } else {
                    assert(u[m + 1].0 == k);
                }
            }
        }
        lemma_level_of_at(u, id, i);
        assert forall|k: u64| k != id implies level_of(u, k) == level_of(s, k) by {
            if has_level(s, k) {
                let m = level_index(s, k);
                assert(0 <= m < s.len() && s[m].0 == k);
                if m < i {
                    assert(u[m].0 == k && u[m].1 == s[m].1);
                    lemma_level_of_at(u, k, m);
                    lemma_level_of_at(s, k, m);
                } else {
                    assert(u[m + 1].0 == k && u[m + 1].1 == s[m].1);
                    lemma_level_of_at(u, k, m + 1);
                    lemma_level_of_at(s, k, m);
                }
            } else {
                assert(!has_level(u, k));
            }
        }
    }
}

/// Reads the timer state of `id`, the default when none was written.
pub fn get_level(levels: &Vec<(u64, TokenLevelResponse)>, id: u64) -> (l: TokenLevelResponse)
    requires
        levels_wf(levels@),
    ensures
        l == level_of(levels@, id),
{
    let mut i: usize = 0;
    while i < levels.len()
        invariant
            0 <= i <= levels@.len(),
            levels_wf(levels@),
            forall|j: int| 0 <= j < i ==> (#[trigger] levels@[j].0) != id,
        decreases levels@.len() - i,
    {
        if levels[i].0 == id {
            proof {
                lemma_level_of_at(levels@, id, i as int);
            }
            return levels[i].1;
        }
        i += 1;
    }
    proof {
        assert(!has_level(levels@, id)) by {
            if has_level(levels@, id) {
                let m = level_index(levels@, id);
                assert(0 <= m < levels@.len() && levels@[m].0 == id);
            }
        }
    }
    TokenLevelResponse { leveling: false, leveling_start_timestamp: 0, total_exp: 0 }
}

/// Writes the timer state of `id`, keeping the map sorted.
pub fn upsert_level(levels: &mut Vec<(u64, TokenLevelResponse)>, id: u64, v: TokenLevelResponse)
    requires
        levels_wf(old(levels)@),
    ensures
        final(levels)@ == upsert_levels(old(levels)@, id, v),
{
    let mut i: usize = 0;
    while i < levels.len() && levels[i].0 < id
        invariant
            0 <= i <= levels@.len(),
            levels@ == old(levels)@,
            forall|j: int| 0 <= j < i ==> (#[trigger] levels@[j].0) < id,
        decreases levels@.len() - i,
    {
        i += 1;
    }
    proof {
        lemma_upsert_at(levels@, id, v, i as int);
    }
    if i < levels.len() && levels[i].0 == id {
        levels.set(i, (id, v));
    } else {
        let ghost prev = levels@;
        levels.insert(i, (id, v));
        proof {
            assert(levels@ =~= prev.subrange(0, i as int) + seq![(id, v)] + prev.subrange(
                i as int,
                prev.len() as int,
            ));
        }
    }
}

} // verus!
