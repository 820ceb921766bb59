//! Palette extraction: the set of distinct colours of an image, and the
//! colour-list line format the offline tools read back.

use vstd::prelude::*;
use crate::color::RGB2;
use crate::parse::{fields_fit, parse_fields_from, spec_parse_fields};

verus! {

/// The distinct colours of `s`, in order of first occurrence.
pub open spec fn dedup_colors(s: Seq<RGB2>) -> Seq<RGB2>
    decreases s.len(),
{
    if s.len() == 0 {
        Seq::empty()
    } else {
        let p = dedup_colors(s.drop_last());
        if p.contains(s.last()) {
            p
        } else {
            p.push(s.last())
        }
    }
}

/// The distinct colours of a sequence hold each of its colours exactly
/// once: no colour twice, and a colour is listed exactly when it occurs.
pub proof fn lemma_dedup_colors(s: Seq<RGB2>)
    ensures
        forall|i: int, j: int| 0 <= i < j < dedup_colors(s).len() ==> dedup_colors(s)[i]
            != dedup_colors(s)[j],
        forall|c: RGB2| dedup_colors(s).contains(c) <==> s.contains(c),
    decreases s.len(),
{
    if s.len() == 0 {
        assert forall|c: RGB2| dedup_colors(s).contains(c) <==> s.contains(c) by {}
    } else {
        let p = dedup_colors(s.drop_last());
        lemma_dedup_colors(s.drop_last());
        assert forall|c: RGB2| dedup_colors(s).contains(c) <==> s.contains(c) by {
            if s.contains(c) {
                let i = choose|i: int| 0 <= i < s.len() && s[i] == c;
                if i < s.len() - 1 {
                    assert(s.drop_last()[i] == c);
                    assert(s.drop_last().contains(c));
                    if !p.contains(s.last()) {
                        assert(p.push(s.last())[p.index_of(c)] == c);
                    }
                } else {
                    if p.contains(s.last()) {
                        assert(dedup_colors(s).contains(c));
                    } else {
                        assert(p.push(s.last())[p.len() as int] == c);
                    }
                }
            }
            if dedup_colors(s).contains(c) {
                if p.contains(c) {
                    assert(s.drop_last().contains(c));
                    let i = choose|i: int| 0 <= i < s.drop_last().len() && s.drop_last()[i] == c;
                    assert(s[i] == c);
                } else {
                    assert(c == s.last());
                    assert(s[s.len() - 1] == c);
                }
            }
        }
        if !p.contains(s.last()) {
            assert forall|i: int, j: int|
                0 <= i < j < dedup_colors(s).len() implies dedup_colors(s)[i] != dedup_colors(
                s,
            )[j] by {
                if j == p.len() {
                    assert(p.contains(p[i]));
                }
            }
        }
    }
}

/// Whether `v` holds colour `c`.
fn color_in(v: &Vec<RGB2>, c: RGB2) -> (r: bool)
    ensures
        r == v@.contains(c),
{
    let mut i: usize = 0;
    while i < v.len()
        invariant
            0 <= i <= v@.len(),
            forall|k: int| 0 <= k < i ==> v@[k] != c,
        decreases v@.len() - i,
    {
        let x = v[i];
        if x.r == c.r && x.g == c.g && x.b == c.b {
            assert(v@[i as int] == c);
            return true;
        }
        i = i + 1;
    }
    false
}

/// Collects the distinct colours of a pixel list, in order of first
/// occurrence.
pub fn distinct_colors(pixels: &Vec<RGB2>) -> (r: Vec<RGB2>)
    ensures
        r@ == dedup_colors(pixels@),
{
    let mut out: Vec<RGB2> = Vec::new();
    let mut i: usize = 0;
    while i < pixels.len()
        invariant
            0 <= i <= pixels@.len(),
            out@ == dedup_colors(pixels@.subrange(0, i as int)),
        decreases pixels@.len() - i,
    {
        let p = pixels[i];
        proof {
            let pre = pixels@.subrange(0, i as int);
            let cur = pixels@.subrange(0, i + 1);
            assert(cur.drop_last() =~= pre);
            assert(cur.last() == pixels@[i as int]);
        }
        if !color_in(&out, p) {
            out.push(p);
        }
        i = i + 1;
    }
    proof {
        assert(pixels@.subrange(0, pixels@.len() as int) =~= pixels@);
    }
    out
}

/// What a colour-list line holds: exactly three decimal fields `R, G, B`,
/// each at most 255.
pub open spec fn spec_parse_rgb_line(s: Seq<u8>) -> Option<RGB2> {
    match spec_parse_fields(s, 0, 3) {
        Some(v) => if 0 <= v[0] <= 255 && 0 <= v[1] <= 255 && 0 <= v[2] <= 255 {
            Some((RGB2 { r: v[0] as u8, g: v[1] as u8, b: v[2] as u8 }))
        } else {
            None
        },
        None => None,
    }
}

/// Parses one colour-list line, `R, G, B`.
pub fn parse_rgb_line(line: &Vec<u8>) -> (r: Option<RGB2>)
    ensures
        r == spec_parse_rgb_line(line@),
{
    match parse_fields_from(line, 0, 3) {
        Some(vs) => {
            proof {
                let vals = vs@.map_values(|x: u32| x as int);
                assert(vals[0] == vs@[0] as int && vals[1] == vs@[1] as int && vals[2] == vs@[2]
                    as int);
            }
            let v0 = vs[0];
            let v1 = vs[1];
            let v2 = vs[2];
            if v0 <= 255 && v1 <= 255 && v2 <= 255 {
                Some(RGB2 { r: v0 as u8, g: v1 as u8, b: v2 as u8 })
            } else {
                None
            }
        },
        None => {
            proof {
                match spec_parse_fields(line@, 0, 3) {
                    Some(vals) => {
                        crate::parse::lemma_parse_fields_len(line@, 0, 3);
                        assert(!fields_fit(vals));
                        let k = choose|k: int|
                            0 <= k < vals.len() && !(#[trigger] vals[k] <= u32::MAX);
                        assert(k == 0 || k == 1 || k == 2);
                    },
                    None => {},
                }
            }
            None
        },
    }
}

} // verus!
