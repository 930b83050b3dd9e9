//! Integer color helpers of the color extraction: quantizing channels into
//! bins, and the primary color as the most frequent bin.
use vstd::prelude::*;
use vstd::hash_map::HashMapWithView;

verus! {

broadcast use vstd::std_specs::hash::group_hash_axioms;

/// A channel value moved to the middle of its bin, `levels` bins over
/// `0..=255`, capped at 255.
pub open spec fn quantized(val: u8, levels: u8) -> int {
    let step = 256int / (levels as int);
    let v = (val as int / step) * step + step / 2;
    if v < 255 {
        v
    } else {
        255
    }
}

/// Quantizes a channel value into one of `levels` bins.
pub fn quantize(val: u8, levels: u8) -> (r: u8)
    requires
        levels > 0,
    ensures
        r == quantized(val, levels),
{
    let step: u16 = 256 / levels as u16;
    assert(1 <= 256int / (levels as int) <= 256) by (nonlinear_arith)
        requires
            1 <= levels <= 255,
    ;
    assert((val as u16 / step) * step <= val) by (nonlinear_arith)
        requires
            step >= 1,
    ;
    let v: u16 = (val as u16 / step) * step + step / 2;
    if v < 255 {
        v as u8
    } else {
        255
    }
}

/// A pixel with each channel quantized.
pub open spec fn quantized_pixel(p: [u8; 3], levels: u8) -> [u8; 3] {
    [quantized(p[0], levels) as u8, quantized(p[1], levels) as u8, quantized(p[2], levels) as u8]
}

/// Quantizes an RGB pixel into a bin key.
pub fn quantize_pixel(r: u8, g: u8, b: u8, levels: u8) -> (q: [u8; 3])
    requires
        levels > 0,
    ensures
        q == quantized_pixel([r, g, b], levels),
{
    [quantize(r, levels), quantize(g, levels), quantize(b, levels)]
}

/// A color packed into one number.
pub open spec fn packed(c: [u8; 3]) -> int {
    c[0] * 65536 + c[1] * 256 + c[2]
}

/// How many pixels of `pixels` fall into the bin whose packed color is `key`.
pub open spec fn bin_count(pixels: Seq<[u8; 3]>, levels: u8, key: int) -> nat
    decreases pixels.len(),
{
    if pixels.len() == 0 {
        0
    } else {
        bin_count(pixels.drop_last(), levels, key) + if packed(
            quantized_pixel(pixels.last(), levels),
        ) == key {
            1nat
        } else {
            0nat
        }
    }
}

/// Whether `c` is a most frequent bin of `pixels` (the black default when
/// there are no pixels).
pub open spec fn is_primary_color(pixels: Seq<[u8; 3]>, levels: u8, c: [u8; 3]) -> bool {
    if pixels.len() == 0 {
        c == [0u8, 0u8, 0u8]
    } else {
        &&& exists|i: int| 0 <= i < pixels.len() && c == quantized_pixel(#[trigger] pixels[i], levels)
        &&& forall|key: int| #[trigger] bin_count(pixels, levels, key) <= bin_count(
            pixels,
            levels,
            packed(c),
        )
    }
}

fn pack(c: [u8; 3]) -> (r: u32)
    ensures
        r == packed(c),
{
    c[0] as u32 * 65536 + c[1] as u32 * 256 + c[2] as u32
}

proof fn lemma_bin_count_bounded(pixels: Seq<[u8; 3]>, levels: u8, key: int)
    ensures
        bin_count(pixels, levels, key) <= pixels.len(),
    decreases pixels.len(),
{
    if pixels.len() > 0 {
        lemma_bin_count_bounded(pixels.drop_last(), levels, key);
    }
}

/// The primary color: the most frequent quantized bin among `pixels`, or
/// black when there are none. Among equally frequent bins any may be
/// chosen.
pub fn histogram_primary_color(pixels: &[[u8; 3]], levels: u8) -> (r: [u8; 3])
    requires
        levels > 0,
        pixels@.len() <= u32::MAX,
    ensures
        is_primary_color(pixels@, levels, r),
{
    let mut hist: HashMapWithView<u32, u32> = HashMapWithView::new();
    let mut best: [u8; 3] = [0, 0, 0];
    let mut best_count: u32 = 0;
    let mut i: usize = 0;
    while i < pixels.len()
        invariant
            levels > 0,
            pixels@.len() <= u32::MAX,
            i <= pixels@.len(),
            forall|key: u32| #[trigger]
                hist@.contains_key(key) ==> hist@[key] == bin_count(pixels@.take(i as int), levels, key as int),
            forall|key: u32|
                !#[trigger] hist@.contains_key(key) ==> bin_count(pixels@.take(i as int), levels, key as int) == 0,
            forall|key: int| #[trigger] bin_count(pixels@.take(i as int), levels, key) <= best_count,
            i > 0 ==> best_count == bin_count(pixels@.take(i as int), levels, packed(best)),
            i > 0 ==> best_count >= 1,
            i > 0 ==> exists|j: int| 0 <= j < i && best == quantized_pixel(#[trigger] pixels@[j], levels),
            i == 0 ==> best == [0u8, 0u8, 0u8] && best_count == 0,
        decreases pixels.len() - i,
    {
        let p = pixels[i];
        let q = quantize_pixel(p[0], p[1], p[2], levels);
        assert(q == quantized_pixel(pixels@[i as int], levels)) by {
            assert(p == pixels@[i as int]);
            assert([p[0], p[1], p[2]] =~= p);
        }
        let key = pack(q);
        let ghost prefix = pixels@.take(i as int);
        let ghost next = pixels@.take(i as int + 1);
        assert(next.drop_last() =~= prefix);
        assert(next.last() == pixels@[i as int]);
        proof {
            lemma_bin_count_bounded(prefix, levels, key as int);
        }
        let old_count: u32 = match hist.get(&key) {
            Some(c) => *c,
            None => 0,
        };
        assert(old_count == bin_count(prefix, levels, key as int)) by {
            if hist@.contains_key(key) {
                assert(hist@[key] == bin_count(prefix, levels, key as int));
            }
        }
        let count: u32 = old_count + 1;
        hist.insert(key, count);
        assert forall|k: int| k != key implies #[trigger] bin_count(next, levels, k) == bin_count(prefix, levels, k) by {}
        assert(bin_count(next, levels, key as int) == count);
        if count > best_count {
            best = q;
            best_count = count;
            assert(best == quantized_pixel(pixels@[i as int], levels));
        } else {
            assert(i > 0);
            assert(packed(best) != key as int) by {
                if packed(best) == key as int {
                    assert(bin_count(prefix, levels, key as int) == best_count);
                }
            }
            assert(bin_count(next, levels, packed(best)) == bin_count(prefix, levels, packed(best)));
        }
        i += 1;
        assert forall|k: u32| #[trigger]
            hist@.contains_key(k) implies hist@[k] == bin_count(pixels@.take(i as int), levels, k as int) by {
            if k != key {
                assert(bin_count(next, levels, k as int) == bin_count(prefix, levels, k as int));
            }
        }
        assert forall|k: int| #[trigger] bin_count(pixels@.take(i as int), levels, k) <= best_count by {
            if k != key {
                assert(bin_count(next, levels, k) == bin_count(prefix, levels, k));
            }
        }
    }
    proof {
        assert(pixels@.take(pixels@.len() as int) =~= pixels@);
        if pixels@.len() > 0 {
            assert forall|key: int| #[trigger] bin_count(pixels@, levels, key) <= bin_count(
                pixels@,
                levels,
                packed(best),
            ) by {}
        }
    }
    best
}

// ---------------------------------------------------------------------------
// Clusters
// ---------------------------------------------------------------------------

/// How many entries of `assignments` name cluster `c`.
pub open spec fn assigned_count(assignments: Seq<usize>, c: int) -> nat
    decreases assignments.len(),
{
    if assignments.len() == 0 {
        0
    } else {
        assigned_count(assignments.drop_last(), c) + if assignments.last() == c {
            1nat
        } else {
            0nat
        }
    }
}

proof fn lemma_assigned_count_bounded(assignments: Seq<usize>, c: int)
    ensures
        assigned_count(assignments, c) <= assignments.len(),
    decreases assignments.len(),
{
    if assignments.len() > 0 {
        lemma_assigned_count_bounded(assignments.drop_last(), c);
    }
}

/// The number of points assigned to each of the `k` clusters.
pub fn cluster_counts(assignments: &Vec<usize>, k: usize) -> (r: Vec<usize>)
    requires
        forall|i: int| 0 <= i < assignments@.len() ==> #[trigger] assignments@[i] < k,
    ensures
        r@.len() == k,
        forall|c: int| 0 <= c < k ==> #[trigger] r@[c] == assigned_count(assignments@, c),
{
    let mut r: Vec<usize> = Vec::new();
    let mut j: usize = 0;
    while j < k
        invariant
            j <= k,
            r@.len() == j,
            forall|c: int| 0 <= c < j ==> #[trigger] r@[c] == 0,
        decreases k - j,
    {
        r.push(0);
        j += 1;
    }
    assert forall|c: int| 0 <= c < k implies #[trigger] r@[c] == assigned_count(assignments@.take(0), c) by {}
    let mut i: usize = 0;
    while i < assignments.len()
        invariant
            i <= assignments.len(),
            r@.len() == k,
            forall|x: int| 0 <= x < assignments@.len() ==> #[trigger] assignments@[x] < k,
            forall|c: int| 0 <= c < k ==> #[trigger] r@[c] == assigned_count(assignments@.take(i as int), c),
        decreases assignments.len() - i,
    {
        let a = assignments[i];
        let ghost prefix = assignments@.take(i as int);
        let ghost next = assignments@.take(i as int + 1);
        assert(next.drop_last() =~= prefix);
        proof {
            lemma_assigned_count_bounded(prefix, a as int);
        }
        let cur = r[a];
        r.set(a, cur + 1);
        i += 1;
        assert forall|c: int| 0 <= c < k implies #[trigger] r@[c] == assigned_count(assignments@.take(i as int), c) by {
            assert(assignments@.take(i as int) == next);
        }
    }
    assert(assignments@.take(assignments@.len() as int) =~= assignments@);
    r
}

/// The points used as the `k` centroids when there are no more than `k`
/// points: the points in turn, over again from the first, until `k` are
/// taken.
pub fn fill_indices(n: usize, k: usize) -> (r: Vec<usize>)
    requires
        n > 0,
    ensures
        r@.len() == k,
        forall|i: int| 0 <= i < k ==> #[trigger] r@[i] == i % (n as int),
{
    let mut r: Vec<usize> = Vec::new();
    while r.len() < k
        invariant
            n > 0,
            r@.len() <= k,
            forall|i: int| 0 <= i < r@.len() ==> #[trigger] r@[i] == i % (n as int),
        decreases k - r@.len(),
    {
        let i = r.len();
        r.push(i % n);
    }
    r
}

/// Cluster `a` comes before cluster `b`: it holds more points, or as many
/// and comes first.
pub open spec fn ranks_before(counts: Seq<usize>, a: int, b: int) -> bool {
    counts[a] > counts[b] || (counts[a] == counts[b] && a < b)
}

/// Whether `r` lists the `m` largest clusters, largest first, ties in
/// the order they came in.
pub open spec fn is_top_order(counts: Seq<usize>, r: Seq<usize>, m: int) -> bool {
    &&& r.len() == m
    &&& forall|i: int| 0 <= i < r.len() ==> #[trigger] r[i] < counts.len()
    &&& forall|i: int, j: int| 0 <= i < j < r.len() ==> ranks_before(counts, #[trigger] r[i] as int, #[trigger] r[j] as int)
    &&& forall|x: usize, i: int|
        x < counts.len() && !r.contains(x) && 0 <= i < r.len() ==> #[trigger] ranks_before(
            counts,
            r[i] as int,
            x as int,
        )
}

fn contains_index(v: &Vec<usize>, x: usize) -> (r: bool)
    ensures
        r == v@.contains(x),
{
    let mut i: usize = 0;
    while i < v.len()
        invariant
            i <= v.len(),
            forall|j: int| 0 <= j < i ==> v@[j] != x,
        decreases v.len() - i,
    {
        if v[i] == x {
            assert(v@[i as int] == x);
            return true;
        }
        i += 1;
    }
    false
}

/// The clusters of the palette: the ten largest (or all, when fewer),
/// largest first, clusters of equal size in the order they came in.
pub fn top_clusters(counts: &Vec<usize>) -> (r: Vec<usize>)
    ensures
        is_top_order(counts@, r@, if counts@.len() < 10 { counts@.len() as int } else { 10 }),
{
    let n = counts.len();
    let m: usize = if n < 10 { n } else { 10 };
    let mut r: Vec<usize> = Vec::new();
    while r.len() < m
        invariant
            m <= n == counts@.len(),
            r@.len() <= m,
            is_top_order(counts@, r@, r@.len() as int),
        decreases m - r@.len(),
    {
        // r holds fewer than n clusters, so some cluster is not chosen yet.
        let mut best: usize = n;
        let mut x: usize = 0;
        while x < n
            invariant
                x <= n == counts@.len(),
                r@.len() < n,
                is_top_order(counts@, r@, r@.len() as int),
                best == n || (best < n && !r@.contains(best) && best < x),
                best < n ==> forall|y: usize| y < x && !r@.contains(y) && y != best ==> #[trigger] ranks_before(counts@, best as int, y as int),
                best == n ==> forall|y: usize| y < x ==> #[trigger] r@.contains(y),
            decreases n - x,
        {
            let ghost old_best = best;
            if !contains_index(&r, x) {
                if best == n || counts[x] > counts[best] {
                    best = x;
                }
            }
            proof {
                if best < n {
                    assert forall|y: usize| y < x + 1 && !r@.contains(y) && y != best implies #[trigger] ranks_before(
                        counts@,
                        best as int,
                        y as int,
                    ) by {
                        if best == old_best {
                            if y < x {
                                assert(ranks_before(counts@, old_best as int, y as int));
                            }
                        } else if old_best < n && y != old_best {
                            assert(ranks_before(counts@, old_best as int, y as int));
                        } else if old_best == n {
                            assert(r@.contains(y));
                        }
                    }
                }
            }
            x += 1;
        }
        proof {
            if best == n {
                // Every cluster is chosen, so r holds n distinct clusters.
                let s = r@.to_set();
                assert(s =~= Set::new(|y: usize| y < n)) by {
                    assert forall|y: usize| s.contains(y) implies y < n by {
                        let i = choose|i: int| 0 <= i < r@.len() && r@[i] == y;
                        assert(r@[i] < counts@.len());
                    }
                    assert forall|y: usize| y < n implies s.contains(y) by {
                        assert(r@.contains(y));
                    }
                }
                assert(Set::new(|y: usize| y < n).len() == n) by {
                    lemma_usize_range_len(n);
                }
                r@.lemma_cardinality_of_set();
                assert(false);
            }
        }
        let ghost old_r = r@;
        r.push(best);
        proof {
            assert forall|i: int, j: int| 0 <= i < j < r@.len() implies ranks_before(counts@, #[trigger] r@[i] as int, #[trigger] r@[j] as int) by {
                if j < old_r.len() {
                    assert(r@[i] == old_r[i] && r@[j] == old_r[j]);
                } else {
                    assert(r@[i] == old_r[i]);
                    assert(r@[j] == best);
                    assert(ranks_before(counts@, old_r[i] as int, best as int));
                }
            }
            assert forall|y: usize, i: int|
                y < counts@.len() && !r@.contains(y) && 0 <= i < r@.len() implies #[trigger] ranks_before(
                    counts@,
                    r@[i] as int,
                    y as int,
                ) by {
                assert(!old_r.contains(y)) by {
                    if old_r.contains(y) {
                        let k = choose|k: int| 0 <= k < old_r.len() && old_r[k] == y;
                        assert(r@[k] == y);
                    }
                }
                assert(y != best) by {
                    assert(r@[old_r.len() as int] == best);
                }
                if i < old_r.len() {
                    assert(r@[i] == old_r[i]);
                    assert(ranks_before(counts@, old_r[i] as int, y as int));
                } else {
                    assert(r@[i] == best);
                }
            }
        }
    }
    r
}

proof fn lemma_usize_range_len(n: usize)
    ensures
        Set::new(|y: usize| y < n).len() == n,
        Set::new(|y: usize| y < n).finite(),
    decreases n,
{
    if n == 0 {
        assert(Set::new(|y: usize| y < n) =~= Set::<usize>::empty());
    } else {
        let m = (n - 1) as usize;
        lemma_usize_range_len(m);
        assert(Set::new(|y: usize| y < n) =~= Set::new(|y: usize| y < m).insert(m));
    }
}

} // verus!
