use vstd::prelude::*;

use crate::text::str_to_chars;

verus! {

// ---------------------------------------------------------------------------
// Levenshtein edit distance
// ---------------------------------------------------------------------------

pub open spec fn spec_min3(a: nat, b: nat, c: nat) -> nat {
    if a <= b && a <= c {
        a
    } else if b <= c {
        b
    } else {
        c
    }
}

/// The edit distance between the first `i` characters of `a` and the first
/// `j` characters of `b`.
pub open spec fn spec_lev(a: Seq<char>, b: Seq<char>, i: nat, j: nat) -> nat
    decreases i + j,
{
    if i == 0 {
        j
    } else if j == 0 {
        i
    } else {
        let cost: nat = if a[i - 1] == b[j - 1] { 0 } else { 1 };
        spec_min3(
            spec_lev(a, b, (i - 1) as nat, j) + 1,
            spec_lev(a, b, i, (j - 1) as nat) + 1,
            spec_lev(a, b, (i - 1) as nat, (j - 1) as nat) + cost,
        )
    }
}

/// The Levenshtein distance between two strings.
pub open spec fn spec_levenshtein(a: Seq<char>, b: Seq<char>) -> nat {
    spec_lev(a, b, a.len(), b.len())
}

/// The distance never exceeds the longer length.
proof fn lemma_lev_bound(a: Seq<char>, b: Seq<char>, i: nat, j: nat)
    ensures
        spec_lev(a, b, i, j) <= if i >= j { i } else { j },
    decreases i + j,
{
    if i == 0 {
    } else if j == 0 {
    } else {
        lemma_lev_bound(a, b, (i - 1) as nat, j);
        lemma_lev_bound(a, b, i, (j - 1) as nat);
        lemma_lev_bound(a, b, (i - 1) as nat, (j - 1) as nat);
    }
}

fn min3(a: usize, b: usize, c: usize) -> (r: usize)
    ensures
        r == spec_min3(a as nat, b as nat, c as nat),
{
    if a <= b && a <= c {
        a
    } else if b <= c {
        b
    } else {
        c
    }
}

/// Adds one, stopping at the top of the range. The saturated case can only
/// arise for cells whose true value never wins the minimum, so the dynamic
/// programming below still computes the exact distance.
fn sat_inc(x: usize) -> (r: usize)
    ensures
        r == if x == usize::MAX { x as nat } else { (x + 1) as nat },
{
    if x == usize::MAX { x } else { x + 1 }
}

/// Computes the Levenshtein edit distance between two strings, by rows of
/// the usual dynamic-programming table.
pub fn levenshtein_distance(s1: &str, s2: &str) -> (r: usize)
    ensures
        r == spec_levenshtein(s1@, s2@),
{
    let a = str_to_chars(s1);
    let b = str_to_chars(s2);
    let n = a.len();
    let m = b.len();
    if n == 0 {
        proof {
            lemma_lev_bound(s1@, s2@, 0, s2@.len());
        }
        return m;
    }
    if m == 0 {
        return n;
    }

    // previous row: distances for i = 0
    let mut prev: Vec<usize> = Vec::new();
    prev.push(0);
    let mut k: usize = 0;
    while k < m
        invariant
            k <= m,
            prev@.len() == k + 1,
            forall|j: int| 0 <= j <= k ==> prev@[j] == spec_lev(s1@, s2@, 0, j as nat),
        decreases m - k,
    {
        prev.push(k + 1);
        k = k + 1;
    }

    let mut i: usize = 1;
    loop
        invariant
            1 <= i <= n,
            n == s1@.len(),
            m == s2@.len(),
            a@ == s1@,
            b@ == s2@,
            n >= 1,
            m >= 1,
            prev@.len() == m + 1,
            forall|j: int| 0 <= j <= m ==> prev@[j] == spec_lev(s1@, s2@, (i - 1) as nat, j as nat),
        decreases n - i,
    {
        let mut cur: Vec<usize> = Vec::new();
        cur.push(i);
        let mut j: usize = 1;
        loop
            invariant_except_break
                1 <= j <= m,
                cur@.len() == j,
            invariant
                1 <= i <= n,
                n == s1@.len(),
                m == s2@.len(),
                a@ == s1@,
                b@ == s2@,
                prev@.len() == m + 1,
                forall|q: int| 0 <= q <= m ==> prev@[q] == spec_lev(s1@, s2@, (i - 1) as nat, q as nat),
                forall|q: int| 0 <= q < cur@.len() ==> cur@[q] == spec_lev(s1@, s2@, i as nat, q as nat),
            ensures
                cur@.len() == m + 1,
            decreases m - j,
        {
            proof {
                lemma_lev_bound(s1@, s2@, (i - 1) as nat, (j - 1) as nat);
                lemma_lev_bound(s1@, s2@, (i - 1) as nat, j as nat);
                lemma_lev_bound(s1@, s2@, i as nat, (j - 1) as nat);
            }
            let cost: usize = if a[i - 1] == b[j - 1] { 0 } else { 1 };
            let up = sat_inc(prev[j]);
            let left = sat_inc(cur[j - 1]);
            let diag = prev[j - 1] + cost;
            let v = min3(up, left, diag);
            proof {
                let tu: nat = spec_lev(s1@, s2@, (i - 1) as nat, j as nat) + 1;
                let tl: nat = spec_lev(s1@, s2@, i as nat, (j - 1) as nat) + 1;
                let td: nat = spec_lev(s1@, s2@, (i - 1) as nat, (j - 1) as nat)
                    + (if s1@[i - 1] == s2@[j - 1] { 0nat } else { 1nat });
                assert(td <= usize::MAX);
                assert(up as nat == if tu > usize::MAX { usize::MAX as nat } else { tu });
                assert(left as nat == if tl > usize::MAX { usize::MAX as nat } else { tl });
                assert(v == spec_min3(tu as nat, tl as nat, td as nat));
            }
            cur.push(v);
            if j == m {
                break;
            }
            j = j + 1;
        }
        prev = cur;
        if i == n {
            return prev[m];
        }
        i = i + 1;
    }
}

// ---------------------------------------------------------------------------
// Closest-name search
// ---------------------------------------------------------------------------

/// The scan for the closest candidate, from index `i`, with the best match
/// so far. A later candidate wins only with a strictly smaller distance.
pub open spec fn spec_fcm_from(
    target: Seq<char>,
    cands: Seq<Seq<char>>,
    max: nat,
    i: int,
    best: Option<(Seq<char>, nat)>,
) -> Option<Seq<char>>
    decreases cands.len() - i,
{
    if i < 0 || i >= cands.len() {
        match best {
            Some(p) => Some(p.0),
            None => None,
        }
    } else {
        let d = spec_levenshtein(target, cands[i]);
        let best2: Option<(Seq<char>, nat)> = if d <= max && (best is None || d < best->Some_0.1) {
            Some((cands[i], d))
        } else {
            best
        };
        spec_fcm_from(target, cands, max, i + 1, best2)
    }
}

/// The closest candidate within the given maximum distance, if any; the
/// earliest candidate wins ties.
pub open spec fn spec_find_closest(target: Seq<char>, cands: Seq<Seq<char>>, max: nat) -> Option<Seq<char>> {
    spec_fcm_from(target, cands, max, 0, None)
}

/// Finds the candidate name closest to `target` in edit distance, among
/// those within `max_distance`; earlier candidates win ties.
pub fn find_closest_match(target: &str, candidates: &[String], max_distance: usize) -> (r: Option<String>)
    ensures
        (match r {
            Some(s) => Some(s@),
            None => None,
        }) == spec_find_closest(target@, candidates@.map_values(|c: String| c@), max_distance as nat),
{
    let ghost cseq = candidates@.map_values(|c: String| c@);
    let mut best: Option<(String, usize)> = None;
    let mut i: usize = 0;
    while i < candidates.len()
        invariant
            i <= candidates.len(),
            cseq == candidates@.map_values(|c: String| c@),
            cseq.len() == candidates@.len(),
            spec_fcm_from(target@, cseq, max_distance as nat, i as int, match best {
                Some(p) => Some((p.0@, p.1 as nat)),
                None => None,
            }) == spec_find_closest(target@, cseq, max_distance as nat),
        decreases candidates.len() - i,
    {
        let candidate = &candidates[i];
        let distance = levenshtein_distance(target, candidate.as_str());
        let replace: bool = match &best {
            Option::None => distance <= max_distance,
            Option::Some(p) => distance <= max_distance && distance < p.1,
        };
        if replace {
            best = Some((candidate.clone(), distance));
        }
        i = i + 1;
    }
    match best {
        Some(p) => Some(p.0),
        None => None,
    }
}

// ---------------------------------------------------------------------------
// Substring search
// ---------------------------------------------------------------------------

/// Whether `pat` occurs in `s` as a contiguous run.
pub open spec fn spec_contains_sub(s: Seq<char>, pat: Seq<char>) -> bool {
    exists|k: int| 0 <= k <= s.len() - pat.len() && #[trigger] s.subrange(k, k + pat.len()) == pat
}

/// Whether the pattern occurs in the string as a contiguous run.
pub fn str_contains(s: &str, pat: &str) -> (r: bool)
    ensures
        r == spec_contains_sub(s@, pat@),
{
    let sv = str_to_chars(s);
    let pv = str_to_chars(pat);
    if pv.len() > sv.len() {
        assert(!spec_contains_sub(s@, pat@));
        return false;
    }
    let mut k: usize = 0;
    while k <= sv.len() - pv.len()
        invariant
            sv@ == s@,
            pv@ == pat@,
            pv.len() <= sv.len(),
            k <= sv.len() - pv.len() + 1,
            forall|k0: int| 0 <= k0 < k ==> #[trigger] s@.subrange(k0, k0 + pat@.len()) != pat@,
        decreases sv.len() - pv.len() + 1 - k,
    {
        let mut t: usize = 0;
        let mut matched = true;
        while t < pv.len()
            invariant
                sv@ == s@,
                pv@ == pat@,
                pv.len() <= sv.len(),
                k <= sv.len() - pv.len(),
                t <= pv.len(),
                matched == (forall|q: int| 0 <= q < t ==> s@[k + q] == pat@[q]),
            decreases pv.len() - t,
        {
            let same = sv[k + t] == pv[t];
            matched = matched && same;
            if !matched {
                t = pv.len();
                proof {
                    assert(exists|q: int| 0 <= q < t && s@[k + q] != pat@[q]);
                }
            } else {
                t = t + 1;
            }
        }
        if matched {
            proof {
                assert(s@.subrange(k as int, k + pat@.len()) =~= pat@);
            }
            return true;
        }
        proof {
            if s@.subrange(k as int, k + pat@.len()) == pat@ {
                let q = choose|q: int| 0 <= q < pat@.len() && s@[k + q] != pat@[q];
                assert(s@.subrange(k as int, k + pat@.len())[q] == pat@[q]);
            }
        }
        k = k + 1;
    }
    proof {
        if spec_contains_sub(s@, pat@) {
            let k0 = choose|k0: int| 0 <= k0 <= s@.len() - pat@.len()
                && #[trigger] s@.subrange(k0, k0 + pat@.len()) == pat@;
            assert(s@.subrange(k0, k0 + pat@.len()) != pat@);
        }
    }
    false
}

} // verus!
