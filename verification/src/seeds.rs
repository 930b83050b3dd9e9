//! Choosing seed images for discovery: the selection method, and the
//! random choice of seeds from a candidate pool.
use vstd::prelude::*;

use crate::text::str_eq;

verus! {

/// Seed selection method for discover crawling.
#[derive(Debug, Clone, Copy, PartialEq, Eq, Structural)]
pub enum SeedMethod {
    /// Time-decayed engagement score (views + 3×bookmarks + 2×comments)
    Popularity,
    /// Sort by total_view descending
    Views,
    /// Sort by total_bookmarks descending
    Bookmarks,
    /// Random selection
    Random,
}

/// The seed method a text names; anything else means popularity.
pub open spec fn seed_method_of(s: Seq<char>) -> SeedMethod {
    if s == "views"@ {
        SeedMethod::Views
    } else if s == "bookmarks"@ {
        SeedMethod::Bookmarks
    } else if s == "random"@ {
        SeedMethod::Random
    } else {
        SeedMethod::Popularity
    }
}

/// The name under which a seed method is written in a discover task's
/// parameters.
pub open spec fn seed_method_name(m: SeedMethod) -> Seq<char> {
    match m {
        SeedMethod::Popularity => "popularity"@,
        SeedMethod::Views => "views"@,
        SeedMethod::Bookmarks => "bookmarks"@,
        SeedMethod::Random => "random"@,
    }
}

/// Reading a seed method gives the method the text names: every method is
/// read back from its own name, a text that names no method other than
/// popularity is read as popularity, and the only text read as views,
/// bookmarks or random is that method's own name.
pub proof fn law_seed_method_read_back(m: SeedMethod, s: Seq<char>)
    ensures
        seed_method_of(seed_method_name(m)) == m,
        seed_method_of(s) != SeedMethod::Popularity ==> s == seed_method_name(seed_method_of(s)),
        (s != seed_method_name(SeedMethod::Views) && s != seed_method_name(SeedMethod::Bookmarks)
            && s != seed_method_name(SeedMethod::Random)) ==> seed_method_of(s)
            == SeedMethod::Popularity,
{
    reveal_strlit("views");
    reveal_strlit("bookmarks");
    reveal_strlit("random");
    reveal_strlit("popularity");
    assert("bookmarks"@.len() != "views"@.len());
    assert("random"@.len() != "views"@.len());
    assert("random"@.len() != "bookmarks"@.len());
    assert("popularity"@.len() != "views"@.len());
    assert("popularity"@.len() != "bookmarks"@.len());
    assert("popularity"@.len() != "random"@.len());
}

impl SeedMethod {
    /// Reads a seed method; unknown text means popularity.
    pub fn from_str(s: &str) -> (r: SeedMethod)
        ensures
            r == seed_method_of(s@),
    {
        if str_eq(s, "views") {
            SeedMethod::Views
        } else if str_eq(s, "bookmarks") {
            SeedMethod::Bookmarks
        } else if str_eq(s, "random") {
            SeedMethod::Random
        } else {
            SeedMethod::Popularity
        }
    }

    /// The default seed method: popularity.
    pub fn default_method() -> (r: SeedMethod)
        ensures
            r == SeedMethod::Popularity,
    {
        SeedMethod::Popularity
    }

    /// How many candidates are fetched to choose `limit` seeds from:
    /// five times as many for a random choice, three times as many for
    /// popularity (which is scored), exactly `limit` otherwise.
    pub fn candidate_count(&self, limit: u64) -> (r: Option<u64>)
        ensures
            r == match *self {
                SeedMethod::Random => if limit * 5 <= u64::MAX {
                    Some((limit * 5) as u64)
                } else {
                    None::<u64>
                },
                SeedMethod::Popularity => if limit * 3 <= u64::MAX {
                    Some((limit * 3) as u64)
                } else {
                    None::<u64>
                },
                _ => Some(limit),
            },
    {
        match self {
            SeedMethod::Random => limit.checked_mul(5),
            SeedMethod::Popularity => limit.checked_mul(3),
            _ => Some(limit),
        }
    }
}

/// The multiplier of the shuffle's pseudo-random sequence.
pub const SHUFFLE_MULTIPLIER: u64 = 6364136223846793005;

/// The position swapped with position `i` in the shuffle seeded by `seed`.
pub open spec fn swap_partner(seed: u64, i: u64) -> u64 {
    (vstd::wrapping::u64_specs::wrapping_add(
        vstd::wrapping::u64_specs::wrapping_mul(seed, SHUFFLE_MULTIPLIER),
        i,
    ) % ((i + 1) as u64)) as u64
}

/// `v` with the entries at `i` and `j` exchanged.
pub open spec fn swapped(v: Seq<usize>, i: int, j: int) -> Seq<usize> {
    v.update(i, v[j]).update(j, v[i])
}

/// The Fisher–Yates passes from position `i` down to position 1.
pub open spec fn shuffle_from(v: Seq<usize>, i: int, seed: u64) -> Seq<usize>
    decreases i,
{
    if i <= 0 {
        v
    } else {
        shuffle_from(swapped(v, i, swap_partner(seed, i as u64) as int), i - 1, seed)
    }
}

/// The positions `0..n` in order.
pub open spec fn positions(n: nat) -> Seq<usize> {
    Seq::new(n, |i: int| i as usize)
}

/// The positions of the chosen seeds among `pool_len` candidates: all of
/// them, in order, when there are no more than `limit`; otherwise the first
/// `limit` positions of the Fisher–Yates shuffle of `0..pool_len` seeded by
/// `seed`.
pub open spec fn random_choice(pool_len: nat, limit: nat, seed: u64) -> Seq<usize> {
    if pool_len <= limit {
        positions(pool_len)
    } else {
        shuffle_from(positions(pool_len), pool_len - 1, seed).take(limit as int)
    }
}

/// Every entry of `v` is a distinct position below `n`.
pub open spec fn distinct_positions(v: Seq<usize>, n: nat) -> bool {
    &&& forall|i: int| 0 <= i < v.len() ==> #[trigger] v[i] < n
    &&& forall|i: int, j: int| 0 <= i < j < v.len() ==> #[trigger] v[i] != #[trigger] v[j]
}

proof fn lemma_swap_keeps_distinct(v: Seq<usize>, n: nat, i: int, j: int)
    requires
        distinct_positions(v, n),
        0 <= i < v.len(),
        0 <= j < v.len(),
    ensures
        distinct_positions(swapped(v, i, j), n),
        swapped(v, i, j).len() == v.len(),
{
    let w = swapped(v, i, j);
    assert forall|a: int, b: int| 0 <= a < b < w.len() implies #[trigger] w[a] != #[trigger] w[b] by {
        let ia = if a == i { j } else if a == j { i } else { a };
        let ib = if b == i { j } else if b == j { i } else { b };
        assert(w[a] == v[ia]);
        assert(w[b] == v[ib]);
        assert(ia != ib);
        if ia < ib {
            assert(v[ia] != v[ib]);
        } else {
            assert(v[ib] != v[ia]);
        }
    }
    assert forall|a: int| 0 <= a < w.len() implies #[trigger] w[a] < n by {
        let ia = if a == i { j } else if a == j { i } else { a };
        assert(w[a] == v[ia]);
    }
}

proof fn lemma_shuffle_keeps_distinct(v: Seq<usize>, i: int, seed: u64, n: nat)
    requires
        distinct_positions(v, n),
        i < v.len(),
        i < u64::MAX,
    ensures
        distinct_positions(shuffle_from(v, i, seed), n),
        shuffle_from(v, i, seed).len() == v.len(),
    decreases i,
{
    if i > 0 {
        let j = swap_partner(seed, i as u64) as int;
        assert(j < i + 1);
        lemma_swap_keeps_distinct(v, n, i, j);
        lemma_shuffle_keeps_distinct(swapped(v, i, j), i - 1, seed, n);
    }
}

/// Picks the positions of `limit` seeds among `pool_len` candidates, at
/// random when there are more candidates than needed.
pub fn choose_random_seeds(pool_len: usize, limit: usize, seed: u64) -> (r: Vec<usize>)
    requires
        pool_len < u64::MAX,
    ensures
        r@ == random_choice(pool_len as nat, limit as nat, seed),
{
    let mut v: Vec<usize> = Vec::new();
    let mut k: usize = 0;
    while k < pool_len
        invariant
            k <= pool_len,
            v@ == positions(k as nat),
        decreases pool_len - k,
    {
        v.push(k);
        k += 1;
        assert(v@ =~= positions(k as nat));
    }
    if pool_len <= limit {
        return v;
    }
    let ghost start = v@;
    let mut i: usize = pool_len - 1;
    while i > 0
        invariant
            i < pool_len,
            pool_len < u64::MAX,
            v@.len() == pool_len,
            shuffle_from(v@, i as int, seed) == shuffle_from(start, pool_len - 1, seed),
        decreases i,
    {
        let m: u64 = seed.wrapping_mul(SHUFFLE_MULTIPLIER);
        let j64: u64 = m.wrapping_add(i as u64) % (i as u64 + 1);
        assert(j64 == swap_partner(seed, i as u64));
        let j: usize = j64 as usize;
        let ghost prev = v@;
        let a = v[i];
        let b = v[j];
        v.set(i, b);
        v.set(j, a);
        assert(v@ =~= swapped(prev, i as int, j as int));
        assert(shuffle_from(prev, i as int, seed) == shuffle_from(
            swapped(prev, i as int, j as int),
            i - 1,
            seed,
        ));
        i -= 1;
    }
    assert(shuffle_from(v@, 0, seed) == v@);
    v.truncate(limit);
    v
}

/// The positions chosen at random are distinct positions of the pool, and
/// as many as asked for, or all of the pool when it is no larger.
pub proof fn law_random_choice_distinct(pool_len: nat, limit: nat, seed: u64)
    requires
        pool_len < u64::MAX,
        pool_len <= usize::MAX,
    ensures
        distinct_positions(random_choice(pool_len, limit, seed), pool_len),
        random_choice(pool_len, limit, seed).len() == if pool_len <= limit {
            pool_len
        } else {
            limit
        },
{
    let p = positions(pool_len);
    assert forall|i: int, j: int| 0 <= i < j < p.len() implies #[trigger] p[i] != #[trigger] p[j] by {
        assert(p[i] == i as usize && p[j] == j as usize);
    }
    assert forall|i: int| 0 <= i < p.len() implies #[trigger] p[i] < pool_len by {
        assert(p[i] == i as usize);
    }
    assert(distinct_positions(p, pool_len));
    if pool_len > limit {
        lemma_shuffle_keeps_distinct(p, pool_len - 1, seed, pool_len);
        let s = shuffle_from(p, pool_len - 1, seed);
        let t = s.take(limit as int);
        assert forall|i: int, j: int| 0 <= i < j < t.len() implies #[trigger] t[i] != #[trigger] t[j] by {
            assert(t[i] == s[i] && t[j] == s[j]);
        }
        assert forall|i: int| 0 <= i < t.len() implies #[trigger] t[i] < pool_len by {
            assert(t[i] == s[i]);
        }
    }
}

} // verus!
