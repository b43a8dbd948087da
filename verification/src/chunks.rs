//! The rock field is generated lazily in square chunks keyed by integer
//! chunk coordinates. This module holds the key arithmetic: each chunk's
//! private seed, the 3×3 block searched for nearby rocks, the set of chunks
//! kept loaded around the players, and removal of one rock by index.
use vstd::prelude::*;

verus! {

pub open spec fn wrap64(x: int) -> int {
    x % 0x1_0000_0000_0000_0000
}

/// A chunk coordinate as the unsigned 64-bit pattern of its sign-extended
/// value.
pub open spec fn as_bits(c: i32) -> u64 {
    (c as i64) as u64
}

/// Rotation of a 64-bit pattern left by 17 bits.
pub open spec fn rotl17(x: u64) -> u64 {
    ((x << 17u64) | (x >> 47u64)) as u64
}

/// Splitmix64's finalizer: three xor-shift / multiply rounds.
pub open spec fn splitmix_finalize(h0: u64) -> u64 {
    let h1 = h0 ^ (h0 >> 30u64);
    let h2 = wrap64(h1 * 0xBF58476D1CE4E5B9) as u64;
    let h3 = h2 ^ (h2 >> 27u64);
    let h4 = wrap64(h3 * 0x94D049BB133111EB) as u64;
    h4 ^ (h4 >> 31u64)
}

/// The world seed mixed with both coordinates (each scaled by its own odd
/// constant, the second also rotated), then finalized — so that neighbouring
/// chunks get unrelated seeds.
pub open spec fn chunk_seed_spec(world_seed: u64, cx: i32, cy: i32) -> u64 {
    let x = wrap64(as_bits(cx) * 0x9E3779B97F4A7C15) as u64;
    let y = rotl17(wrap64(as_bits(cy) * 0xBF58476D1CE4E5B9) as u64);
    splitmix_finalize(world_seed ^ x ^ y)
}

/// Seed of the random stream that generates chunk `(cx, cy)`.
pub fn chunk_seed(world_seed: u64, cx: i32, cy: i32) -> (h: u64)
    ensures
        h == chunk_seed_spec(world_seed, cx, cy),
{
    let x = cx as i64 as u64;
    let y = cy as i64 as u64;
    let ym = y.wrapping_mul(0xBF58476D1CE4E5B9);
    let yr = (ym << 17u64) | (ym >> 47u64);
    let mut h = world_seed ^ x.wrapping_mul(0x9E3779B97F4A7C15) ^ yr;
    h ^= h >> 30u64;
    h = h.wrapping_mul(0xBF58476D1CE4E5B9);
    h ^= h >> 27u64;
    h = h.wrapping_mul(0x94D049BB133111EB);
    h ^= h >> 31u64;
    h
}

/// Chunk keys ordered by x, then y.
pub open spec fn key_lt(a: (i32, i32), b: (i32, i32)) -> bool {
    a.0 < b.0 || (a.0 == b.0 && a.1 < b.1)
}

pub open spec fn strictly_sorted(s: Seq<(i32, i32)>) -> bool {
    forall|i: int, j: int| 0 <= i < j < s.len() ==> key_lt(#[trigger] s[i], #[trigger] s[j])
}

/// Key `x` lies within `r` chunks of `c` on both axes.
pub open spec fn in_square(c: (i32, i32), r: int, x: (i32, i32)) -> bool {
    c.0 - r <= x.0 <= c.0 + r && c.1 - r <= x.1 <= c.1 + r
}

/// `r` chunks around every center stay inside the coordinate range.
pub open spec fn squares_fit(centers: Seq<(i32, i32)>, r: int) -> bool {
    forall|i: int|
        0 <= i < centers.len() ==> i32::MIN <= #[trigger] centers[i].0 - r && centers[i].0 + r <= i32::MAX
            && i32::MIN <= centers[i].1 - r && centers[i].1 + r <= i32::MAX
}

/// Inserts `key` into a strictly sorted list unless it is already there.
#[verifier::spinoff_prover]
fn insert_sorted(v: &mut Vec<(i32, i32)>, key: (i32, i32))
    requires
        strictly_sorted(old(v)@),
    ensures
        strictly_sorted(final(v)@),
        forall|x: (i32, i32)| final(v)@.contains(x) <==> (old(v)@.contains(x) || x == key),
{
    let mut i: usize = 0;
    while i < v.len() && (v[i].0 < key.0 || (v[i].0 == key.0 && v[i].1 < key.1))
        invariant
            i <= v.len(),
            strictly_sorted(v@),
            forall|j: int| 0 <= j < i ==> key_lt(#[trigger] v@[j], key),
        decreases v.len() - i,
    {
        i += 1;
    }
    if i < v.len() && v[i].0 == key.0 && v[i].1 == key.1 {
        assert(v@[i as int] == key);
        return;
    }
    let ghost before = v@;
    proof {
        if i < before.len() {
            assert(key_lt(key, before[i as int]));
            assert forall|j: int| i <= j < before.len() implies key_lt(key, #[trigger] before[j]) by {
                if j > i {
                    assert(key_lt(before[i as int], before[j]));
                }
            }
        }
    }
    v.insert(i, key);
    proof {
        let after = v@;
        assert(after =~= before.insert(i as int, key));
        assert forall|a: int, b: int| 0 <= a < b < after.len() implies key_lt(#[trigger] after[a], #[trigger] after[b]) by {
            if b < i {
            } else if b == i {
                assert(after[a] == before[a]);
            } else if a < i {
                assert(after[b] == before[b - 1]);
                assert(after[a] == before[a]);
                assert(key_lt(key, before[b - 1]));
            } else if a == i {
                assert(after[b] == before[b - 1]);
            } else {
                assert(after[a] == before[a - 1]);
                assert(after[b] == before[b - 1]);
            }
        }
        assert forall|x: (i32, i32)| after.contains(x) <==> (before.contains(x) || x == key) by {
            if after.contains(x) {
                let k = choose|k: int| 0 <= k < after.len() && after[k] == x;
                if k < i {
                    assert(before[k] == x);
                } else if k > i {
                    assert(before[k - 1] == x);
                }
            }
            if before.contains(x) {
                let k = choose|k: int| 0 <= k < before.len() && before[k] == x;
                if k < i {
                    assert(after[k] == x);
                } else {
                    assert(after[k + 1] == x);
                }
            }
            if x == key {
                assert(after[i as int] == x);
            }
        }
    }
}

/// Every chunk within `r` chunks (on both axes) of some center, each once,
/// ordered by x then y: the chunks kept loaded around the players.
#[verifier::spinoff_prover]
pub fn needed_chunks(centers: &[(i32, i32)], r: i32) -> (keys: Vec<(i32, i32)>)
    requires
        0 <= r < i32::MAX,
        squares_fit(centers@, r as int),
    ensures
        strictly_sorted(keys@),
        forall|x: (i32, i32)|
            keys@.contains(x) <==> exists|i: int| 0 <= i < centers@.len() && #[trigger] in_square(centers@[i], r as int, x),
{
    let mut keys: Vec<(i32, i32)> = Vec::new();
    let mut ci: usize = 0;
    while ci < centers.len()
        invariant
            0 <= r < i32::MAX,
            ci <= centers@.len(),
            squares_fit(centers@, r as int),
            strictly_sorted(keys@),
            forall|x: (i32, i32)|
                keys@.contains(x) <==> exists|i: int| 0 <= i < ci && #[trigger] in_square(centers@[i], r as int, x),
        decreases centers@.len() - ci,
    {
        let c = centers[ci];
        assert(i32::MIN <= centers@[ci as int].0 - r && centers@[ci as int].0 + r <= i32::MAX);
        let ghost prior = keys@;
        let mut dy: i32 = -r;
        while dy <= r
            invariant
                0 <= r < i32::MAX,
                -r <= dy <= r + 1,
                ci < centers@.len(),
                c == centers@[ci as int],
                i32::MIN <= c.0 - r && c.0 + r <= i32::MAX && i32::MIN <= c.1 - r && c.1 + r <= i32::MAX,
                strictly_sorted(keys@),
                forall|x: (i32, i32)|
                    keys@.contains(x) <==> (prior.contains(x) || (in_square(c, r as int, x) && x.1 < c.1 + dy)),
            decreases r + 1 - dy,
        {
            let ghost row_start = keys@;
            let mut dx: i32 = -r;
            while dx <= r
                invariant
                    0 <= r < i32::MAX,
                    -r <= dy <= r,
                    -r <= dx <= r + 1,
                    i32::MIN <= c.0 - r && c.0 + r <= i32::MAX && i32::MIN <= c.1 - r && c.1 + r <= i32::MAX,
                    strictly_sorted(keys@),
                    forall|x: (i32, i32)|
                        keys@.contains(x) <==> (row_start.contains(x) || (x.1 == c.1 + dy && c.0 - r <= x.0 < c.0 + dx)),
                decreases r + 1 - dx,
            {
                insert_sorted(&mut keys, (c.0 + dx, c.1 + dy));
                dx += 1;
            }
            dy += 1;
        }
        proof {
            assert(dy == r + 1);
            assert forall|x: (i32, i32)|
                keys@.contains(x) <==> exists|i: int| 0 <= i < ci + 1 && #[trigger] in_square(centers@[i], r as int, x) by {
                if keys@.contains(x) {
                    if prior.contains(x) {
                        let i = choose|i: int| 0 <= i < ci && #[trigger] in_square(centers@[i], r as int, x);
                        assert(0 <= i < ci + 1 && in_square(centers@[i], r as int, x));
                    } else {
                        assert(in_square(centers@[ci as int], r as int, x));
                    }
                }
                if exists|i: int| 0 <= i < ci + 1 && #[trigger] in_square(centers@[i], r as int, x) {
                    let i = choose|i: int| 0 <= i < ci + 1 && #[trigger] in_square(centers@[i], r as int, x);
                    if i < ci {
                        assert(prior.contains(x));
                    } else {
                        assert(in_square(c, r as int, x) && x.1 < c.1 + dy);
                    }
                }
            }
        }
        ci += 1;
    }
    keys
}

/// The 3×3 block of chunk keys around `c`, row by row (y from `c.1 - 1`),
/// x ascending within a row: where rocks near a point are looked up.
#[verifier::spinoff_prover]
pub fn neighbourhood(c: (i32, i32)) -> (keys: Vec<(i32, i32)>)
    requires
        i32::MIN < c.0 < i32::MAX,
        i32::MIN < c.1 < i32::MAX,
    ensures
        keys@.len() == 9,
        forall|k: int| 0 <= k < 9 ==> #[trigger] keys@[k].0 == c.0 + (k % 3) - 1 && keys@[k].1 == c.1 + (k / 3) - 1,
{
    let mut keys: Vec<(i32, i32)> = Vec::new();
    let mut dy: i32 = -1;
    while dy <= 1
        invariant
            -1 <= dy <= 2,
            i32::MIN < c.0 < i32::MAX,
            i32::MIN < c.1 < i32::MAX,
            keys@.len() == 3 * (dy + 1),
            forall|k: int| 0 <= k < keys@.len() ==> #[trigger] keys@[k].0 == c.0 + (k % 3) - 1 && keys@[k].1 == c.1 + (k / 3) - 1,
        decreases 2 - dy,
    {
        let mut dx: i32 = -1;
        while dx <= 1
            invariant
                -1 <= dy <= 1,
                -1 <= dx <= 2,
                i32::MIN < c.0 < i32::MAX,
                i32::MIN < c.1 < i32::MAX,
                keys@.len() == 3 * (dy + 1) + dx + 1,
                forall|k: int| 0 <= k < keys@.len() ==> #[trigger] keys@[k].0 == c.0 + (k % 3) - 1 && keys@[k].1 == c.1 + (k / 3) - 1,
            decreases 2 - dx,
        {
            keys.push((c.0 + dx, c.1 + dy));
            dx += 1;
        }
        dy += 1;
    }
    keys
}

/// With a load radius of at least one chunk, the 3×3 block searched for
/// rocks around any point in a player's chunk lies inside that player's
/// loaded square, so nearby-rock lookups never miss a loaded chunk.
pub proof fn lemma_neighbourhood_is_loaded(c: (i32, i32), r: int, k: int, x: (i32, i32))
    requires
        r >= 1,
        0 <= k < 9,
        x.0 == c.0 + (k % 3) - 1,
        x.1 == c.1 + (k / 3) - 1,
    ensures
        in_square(c, r, x),
{
}

/// The keys of `keys` that `other` does not hold, in the order of `keys`.
pub open spec fn keys_not_in(keys: Seq<(i32, i32)>, other: Seq<(i32, i32)>) -> Seq<(i32, i32)> {
    keys.filter(absent_from(other))
}

/// Holds of a key that `other` does not hold.
pub open spec fn absent_from(other: Seq<(i32, i32)>) -> spec_fn((i32, i32)) -> bool {
    |k: (i32, i32)| !other.contains(k)
}

fn holds_key(keys: &[(i32, i32)], k: (i32, i32)) -> (found: bool)
    ensures
        found == keys@.contains(k),
{
    let mut i: usize = 0;
    while i < keys.len()
        invariant
            i <= keys@.len(),
            forall|j: int| 0 <= j < i ==> keys@[j] != k,
        decreases keys@.len() - i,
    {
        if keys[i].0 == k.0 && keys[i].1 == k.1 {
            assert(keys@[i as int] == k);
            return true;
        }
        i = i + 1;
    }
    false
}

fn keys_missing_from(keys: &[(i32, i32)], other: &[(i32, i32)]) -> (out: Vec<(i32, i32)>)
    ensures
        out@ == keys_not_in(keys@, other@),
{
    let ghost pred = absent_from(other@);
    let mut out: Vec<(i32, i32)> = Vec::new();
    let mut i: usize = 0;
    while i < keys.len()
        invariant
            i <= keys@.len(),
            pred == absent_from(other@),
            out@ == keys@.subrange(0, i as int).filter(pred),
        decreases keys@.len() - i,
    {
        let k = keys[i];
        proof {
            assert(keys@.subrange(0, i + 1) =~= keys@.subrange(0, i as int).push(k));
            keys@.subrange(0, i as int).lemma_filter_push(k, pred);
        }
        if !holds_key(other, k) {
            out.push(k);
        }
        i = i + 1;
    }
    assert(keys@.subrange(0, keys@.len() as int) =~= keys@);
    out
}

/// One update of the loaded chunk map: the needed keys that are not loaded
/// yet (to generate, in the order of `needed`) and the loaded keys that are
/// no longer needed (to drop, in the order of `loaded`).
pub fn reload_plan(loaded: &[(i32, i32)], needed: &[(i32, i32)]) -> (plan: (Vec<(i32, i32)>, Vec<(i32, i32)>))
    ensures
        plan.0@ == keys_not_in(needed@, loaded@),
        plan.1@ == keys_not_in(loaded@, needed@),
{
    (keys_missing_from(needed, loaded), keys_missing_from(loaded, needed))
}

/// After a reload, the map holds exactly the needed keys: every needed key
/// is either loaded already or generated, and every loaded key that is kept
/// is needed.
pub proof fn lemma_reload_keeps_exactly_the_needed(loaded: Seq<(i32, i32)>, needed: Seq<(i32, i32)>, k: (i32, i32))
    ensures
        keys_not_in(needed, loaded).contains(k) <==> (needed.contains(k) && !loaded.contains(k)),
        keys_not_in(loaded, needed).contains(k) <==> (loaded.contains(k) && !needed.contains(k)),
        ((loaded.contains(k) && !keys_not_in(loaded, needed).contains(k)) || keys_not_in(needed, loaded).contains(k))
            <==> needed.contains(k),
{
    lemma_not_in_holds(needed, loaded, k);
    lemma_not_in_holds(loaded, needed, k);
}

/// A key is among the keys of `keys` absent from `other` exactly when
/// `keys` holds it and `other` does not.
proof fn lemma_not_in_holds(keys: Seq<(i32, i32)>, other: Seq<(i32, i32)>, k: (i32, i32))
    ensures
        keys_not_in(keys, other).contains(k) <==> (keys.contains(k) && !other.contains(k)),
{
    let p = absent_from(other);
    let f = keys.filter(p);
    if f.contains(k) {
        keys.lemma_filter_contains_rev(p, k);
        let i = choose|i: int| 0 <= i < f.len() && f[i] == k;
        keys.lemma_filter_pred(p, i);
    }
    if keys.contains(k) && !other.contains(k) {
        let i = choose|i: int| 0 <= i < keys.len() && keys[i] == k;
        keys.lemma_filter_contains(p, i);
    }
}

/// Removes and returns the item at `index`, or returns `None` and leaves the
/// list alone when there is no such item (a rock destroyed outright).
pub fn take_at<T>(items: &mut Vec<T>, index: usize) -> (taken: Option<T>)
    ensures
        index < old(items)@.len() ==> taken == Some(old(items)@[index as int])
            && final(items)@ == old(items)@.remove(index as int),
        index >= old(items)@.len() ==> taken is None && final(items)@ == old(items)@,
{
    if index >= items.len() {
        return None;
    }
    Some(items.remove(index))
}

} // verus!
