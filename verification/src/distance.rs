//! The offline reference-colour search: for a candidate colour, the
//! distribution of its distances to a captured palette, and a running list
//! of the ten candidates with the smallest median distance.
//!
//! Distances appear throughout as squared distances, which order candidates
//! exactly as the Euclidean distances do.

use vstd::prelude::*;
use vstd::relations::{sorted_by, total_ordering};
use vstd::seq_lib::{lemma_multiset_commutative, lemma_sorted_unique};
use crate::color::{RGB2, dist_sq};
use crate::parse::{fields_fit, lemma_parse_fields_len, parse_fields_from, spec_parse_fields};

verus! {

/// The sequence is sorted in non-decreasing order.
pub open spec fn sorted_u32(s: Seq<u32>) -> bool {
    forall|p: int, q: int| 0 <= p <= q < s.len() ==> s[p] <= s[q]
}

/// A sorted sequence with a given multiset of elements is unique, so a
/// contract that asks for a sorted permutation pins the result completely.
pub proof fn lemma_sorted_permutation_unique(a: Seq<u32>, b: Seq<u32>)
    requires
        sorted_u32(a),
        sorted_u32(b),
        a.to_multiset() == b.to_multiset(),
    ensures
        a == b,
{
    let leq = |x: u32, y: u32| x <= y;
    assert forall|p: int, q: int| 0 <= p < q < a.len() implies #[trigger] leq(a[p], a[q]) by {
        assert(a[p] <= a[q]);
    }
    assert forall|p: int, q: int| 0 <= p < q < b.len() implies #[trigger] leq(b[p], b[q]) by {
        assert(b[p] <= b[q]);
    }
    assert(total_ordering(leq)) by {
        assert forall|x: u32| #[trigger] leq(x, x) by {}
        assert forall|x: u32, y: u32| #[trigger] leq(x, y) && #[trigger] leq(y, x) implies x
            == y by {}
        assert forall|x: u32, y: u32, z: u32| #[trigger] leq(x, y) && #[trigger] leq(y, z)
            implies leq(x, z) by {}
        assert forall|x: u32, y: u32| #[trigger] leq(x, y) || #[trigger] leq(y, x) by {}
    }
    lemma_sorted_unique(a, b, leq);
    assert(a =~= b);
}

/// Inserting an element anywhere in a sequence adds it to the multiset.
proof fn lemma_insert_multiset<T>(s: Seq<T>, i: int, x: T)
    requires
        0 <= i <= s.len(),
    ensures
        s.insert(i, x).to_multiset() =~= s.to_multiset().insert(x),
{
    broadcast use vstd::multiset::group_multiset_axioms;

    let a = s.subrange(0, i);
    let b = s.subrange(i, s.len() as int);
    a.to_multiset_ensures();
    lemma_multiset_commutative(a.push(x), b);
    lemma_multiset_commutative(a, b);
    assert(s =~= a + b);
}

/// Inserts `x` into a sorted vector, after any equal elements.
fn insert_sorted_u32(out: &mut Vec<u32>, x: u32)
    requires
        sorted_u32(old(out)@),
    ensures
        sorted_u32(final(out)@),
        final(out)@.to_multiset() == old(out)@.to_multiset().insert(x),
        final(out)@.len() == old(out)@.len() + 1,
{
    let mut j: usize = 0;
    while j < out.len() && out[j] <= x
        invariant
            out@ == old(out)@,
            0 <= j <= out@.len(),
            forall|k: int| 0 <= k < j ==> out@[k] <= x,
        decreases out@.len() - j,
    {
        j = j + 1;
    }
    proof {
        let s = out@;
        s.insert_ensures(j as int, x);
        lemma_insert_multiset(s, j as int, x);
        let t = s.insert(j as int, x);
        assert forall|p: int, q: int| 0 <= p <= q < t.len() implies t[p] <= t[q] by {
            if p < j && q > j {
                assert(t[p] == s[p] && t[q] == s[q - 1]);
            } else if p == j && q > j {
                assert(t[q] == s[q - 1] && s[j as int] <= s[q - 1]);
            } else if p < j && q == j {
                assert(t[p] == s[p]);
            }
        }
    }
    out.insert(j, x);
}

/// Sorts the values into non-decreasing order. The result is the unique
/// sorted permutation of the input.
pub fn sort_u32(v: &Vec<u32>) -> (out: Vec<u32>)
    ensures
        sorted_u32(out@),
        out@.to_multiset() == v@.to_multiset(),
        out@.len() == v@.len(),
{
    let mut out: Vec<u32> = Vec::new();
    let mut i: usize = 0;
    proof {
        assert(v@.subrange(0, 0) =~= Seq::<u32>::empty());
        Seq::<u32>::empty().to_multiset_ensures();
    }
    while i < v.len()
        invariant
            0 <= i <= v@.len(),
            sorted_u32(out@),
            out@.len() == i,
            out@.to_multiset() == v@.subrange(0, i as int).to_multiset(),
        decreases v@.len() - i,
    {
        proof {
            let pre = v@.subrange(0, i as int);
            assert(v@.subrange(0, i + 1) =~= pre.push(v@[i as int]));
            pre.to_multiset_ensures();
        }
        insert_sorted_u32(&mut out, v[i]);
        i = i + 1;
    }
    proof {
        assert(v@.subrange(0, v@.len() as int) =~= v@);
    }
    out
}

/// The squared distances from a candidate colour to each palette colour.
pub open spec fn dist_list(basic: RGB2, colors: Seq<RGB2>) -> Seq<u32> {
    colors.map_values(|c: RGB2| dist_sq(basic, c) as u32)
}

/// The distance statistics of one candidate colour against a palette: the
/// extremes and the median of its squared distances, with the values ten
/// ranks above and below the median.
#[derive(Clone, Copy, Debug, PartialEq, Eq, Structural)]
pub struct RGB2Info {
    pub inner: RGB2,
    pub max: u32,
    pub min: u32,
    pub middle: u32,
    pub middle_10: u32,
    pub middle_n10: u32,
}

/// The statistics a sorted distance list yields.
pub open spec fn stats_from_sorted(r: RGB2Info, basic: RGB2, s: Seq<u32>) -> bool {
    &&& r.inner == basic
    &&& r.min == s[0]
    &&& r.max == s[s.len() - 1]
    &&& r.middle == s[s.len() as int / 2]
    &&& r.middle_10 == s[s.len() as int / 2 + 10]
    &&& r.middle_n10 == s[s.len() as int / 2 - 10]
}

/// Computes the distance statistics of one candidate colour against a
/// palette of at least 21 colours: the extremes and median of the sorted
/// squared-distance list, and the values ten ranks either side of the
/// median.
pub fn inner_calc_color_distance(basic: RGB2, input: &Vec<RGB2>) -> (r: RGB2Info)
    requires
        input@.len() >= 21,
    ensures
        exists|s: Seq<u32>|
            #[trigger] sorted_u32(s) && s.len() == input@.len() && s.to_multiset() == dist_list(
                basic,
                input@,
            ).to_multiset() && stats_from_sorted(r, basic, s),
{
    let mut dists: Vec<u32> = Vec::new();
    let mut i: usize = 0;
    while i < input.len()
        invariant
            0 <= i <= input@.len(),
            dists@.len() == i,
            forall|k: int| 0 <= k < i ==> dists@[k] == dist_list(basic, input@)[k],
        decreases input@.len() - i,
    {
        let d = basic.distance_squared(&input[i]);
        proof {
            crate::color::lemma_dist_sq_bound(basic, input@[i as int]);
        }
        dists.push(d);
        i = i + 1;
    }
    proof {
        assert(dists@ =~= dist_list(basic, input@));
    }
    let sorted = sort_u32(&dists);
    let len = sorted.len();
    let mid = len / 2;
    let r = RGB2Info {
        inner: basic,
        max: sorted[len - 1],
        min: sorted[0],
        middle: sorted[mid],
        middle_10: sorted[mid + 10],
        middle_n10: sorted[mid - 10],
    };
    proof {
        assert(sorted_u32(sorted@) && sorted@.to_multiset() == dist_list(
            basic,
            input@,
        ).to_multiset() && stats_from_sorted(r, basic, sorted@));
    }
    r
}

/// The statistics rows are ordered by their median distance.
pub open spec fn sorted_info(s: Seq<RGB2Info>) -> bool {
    forall|p: int, q: int| 0 <= p <= q < s.len() ==> #[trigger] s[p].middle <= #[trigger] s[q].middle
}

/// The running list of the ten candidate colours seen so far with the
/// smallest median distance, ordered by median.
pub struct TopList {
    pub items: Vec<RGB2Info>,
}

impl TopList {
    /// At most ten rows, ordered by median.
    pub open spec fn wf(self) -> bool {
        self.items@.len() <= 10 && sorted_info(self.items@)
    }

    /// An empty list.
    pub fn new() -> (r: TopList)
        ensures
            r.wf(),
            r.items@.len() == 0,
    {
        TopList { items: Vec::new() }
    }

    /// The rows, smallest median first.
    pub fn items(&self) -> (r: &Vec<RGB2Info>)
        ensures
            r == &self.items,
    {
        &self.items
    }

    /// Offers a new row. A list under capacity takes it; a full list takes
    /// it only in place of a row with a larger median, dropping that row.
    pub fn push(&mut self, x: RGB2Info)
        requires
            old(self).wf(),
        ensures
            final(self).wf(),
            old(self).items@.len() < 10 ==> final(self).items@.len() == old(self).items@.len() + 1
                && final(self).items@.to_multiset() == old(self).items@.to_multiset().insert(x),
            old(self).items@.len() == 10 ==> final(self).items@.len() == 10 && (if x.middle
                >= old(self).items@.last().middle {
                final(self).items@ == old(self).items@
            } else {
                final(self).items@.to_multiset() == old(self).items@.to_multiset().remove(
                    old(self).items@.last(),
                ).insert(x)
            }),
    {
        let n = self.items.len();
        if n == 10 && self.items[n - 1].middle <= x.middle {
            return ;
        }
        let mut j: usize = 0;
        while j < self.items.len() && self.items[j].middle <= x.middle
            invariant
                self.items@ == old(self).items@,
                0 <= j <= self.items@.len(),
                forall|k: int| 0 <= k < j ==> #[trigger] self.items@[k].middle <= x.middle,
            decreases self.items@.len() - j,
        {
            j = j + 1;
        }
        proof {
            let s = self.items@;
            s.insert_ensures(j as int, x);
            lemma_insert_multiset(s, j as int, x);
            let t = s.insert(j as int, x);
            assert forall|p: int, q: int| 0 <= p <= q < t.len() implies #[trigger] t[p].middle
                <= #[trigger] t[q].middle by {
                if p < j && q > j {
                    assert(t[p] == s[p] && t[q] == s[q - 1]);
                } else if p == j && q > j {
                    assert(t[q] == s[q - 1] && s[j as int].middle <= s[q - 1].middle);
                } else if p < j && q == j {
                    assert(t[p] == s[p]);
                }
            }
        }
        self.items.insert(j, x);
        if self.items.len() > 10 {
            proof {
                let t = self.items@;
                assert(t.drop_last() =~= t.remove(t.len() - 1));
                t.to_multiset_ensures();
                assert(t[t.len() - 1] == old(self).items@[old(self).items@.len() - 1]);
            }
            self.items.pop();
        }
    }
}

/// What a statistics line holds: eight decimal fields, the candidate's
/// three channels at most 255 and the five statistics fitting `u32`.
pub open spec fn spec_parse_info_line(s: Seq<u8>) -> Option<RGB2Info> {
    match spec_parse_fields(s, 0, 8) {
        Some(v) => if 0 <= v[0] <= 255 && 0 <= v[1] <= 255 && 0 <= v[2] <= 255 && fields_fit(v) {
            Some(
                (RGB2Info {
                    inner: (RGB2 { r: v[0] as u8, g: v[1] as u8, b: v[2] as u8 }),
                    max: v[3] as u32,
                    min: v[4] as u32,
                    middle: v[5] as u32,
                    middle_10: v[6] as u32,
                    middle_n10: v[7] as u32,
                }),
            )
        } else {
            None
        },
        None => None,
    }
}

/// Parses one statistics line, `R, G, B, max, min, middle, middle+10,
/// middle-10`.
pub fn parse_info_line(line: &Vec<u8>) -> (r: Option<RGB2Info>)
    ensures
        r == spec_parse_info_line(line@),
{
    match parse_fields_from(line, 0, 8) {
        Some(vs) => {
            proof {
                let vals = vs@.map_values(|x: u32| x as int);
                assert forall|k: int| 0 <= k < 8 implies vals[k] == vs@[k] as int by {}
            }
            let v0 = vs[0];
            let v1 = vs[1];
            let v2 = vs[2];
            if v0 <= 255 && v1 <= 255 && v2 <= 255 {
                Some(
                    RGB2Info {
                        inner: RGB2 { r: v0 as u8, g: v1 as u8, b: v2 as u8 },
                        max: vs[3],
                        min: vs[4],
                        middle: vs[5],
                        middle_10: vs[6],
                        middle_n10: vs[7],
                    },
                )
            } else {
                None
            }
        },
        None => {
            proof {
                match spec_parse_fields(line@, 0, 8) {
                    Some(vals) => {
                        lemma_parse_fields_len(line@, 0, 8);
                        assert(!fields_fit(vals));
                    },
                    None => {},
                }
            }
            None
        },
    }
}

} // verus!
