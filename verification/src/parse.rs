//! Parsing the colour-list file format the offline tools exchange: lines of
//! decimal fields separated by a comma and a space, as in `52, 182, 81`.

use vstd::prelude::*;

verus! {

/// `b` is an ASCII decimal digit.
pub open spec fn is_digit(b: u8) -> bool {
    48 <= b <= 57
}

/// The end of the run of digits that starts at `i`: the first index at or
/// after `i` that is past the end or holds a non-digit.
pub open spec fn digits_end(s: Seq<u8>, i: int) -> int
    decreases s.len() - i,
{
    if 0 <= i < s.len() && is_digit(s[i]) {
        digits_end(s, i + 1)
    } else {
        i
    }
}

/// The value of the decimal digits `s[i..j)`.
pub open spec fn digits_value(s: Seq<u8>, i: int, j: int) -> int
    decreases j - i,
{
    if i >= j {
        0
    } else {
        digits_value(s, i, j - 1) * 10 + (s[j - 1] - 48)
    }
}

/// A field separator, a comma followed by a space, sits at `i`.
pub open spec fn sep_at(s: Seq<u8>, i: int) -> bool {
    i + 2 <= s.len() && s[i] == 44 && s[i + 1] == 32
}

/// The values of exactly `n` comma-space-separated decimal fields filling
/// `s[i..]`, or nothing when the text is not of that shape. Field values
/// are unbounded here; callers bound them.
pub open spec fn spec_parse_fields(s: Seq<u8>, i: int, n: nat) -> Option<Seq<int>>
    decreases n,
{
    if n == 0 {
        if i == s.len() {
            Some(Seq::empty())
        } else {
            None
        }
    } else {
        let e = digits_end(s, i);
        if e <= i {
            None
        } else if n == 1 {
            if e == s.len() {
                Some(seq![digits_value(s, i, e)])
            } else {
                None
            }
        } else if sep_at(s, e) {
            match spec_parse_fields(s, e + 2, (n - 1) as nat) {
                Some(rest) => Some(seq![digits_value(s, i, e)] + rest),
                None => None,
            }
        } else {
            None
        }
    }
}

/// A successful parse of `n` fields yields `n` values.
pub proof fn lemma_parse_fields_len(s: Seq<u8>, i: int, n: nat)
    ensures
        spec_parse_fields(s, i, n) matches Some(vals) ==> vals.len() == n,
    decreases n,
{
    if n > 1 {
        let e = digits_end(s, i);
        if e > i && sep_at(s, e) {
            lemma_parse_fields_len(s, e + 2, (n - 1) as nat);
        }
    }
}

/// The value of a run of digits never shrinks as the run extends.
proof fn lemma_digits_value_grows(s: Seq<u8>, i: int, j: int, k: int)
    requires
        i <= j <= k,
        forall|x: int| i <= x < k ==> is_digit(#[trigger] s[x]),
    ensures
        digits_value(s, i, k) >= digits_value(s, i, j) >= 0,
    decreases k - j,
{
    if j == k {
        lemma_digits_value_nonneg(s, i, j);
    } else {
        lemma_digits_value_grows(s, i, j, k - 1);
        lemma_digits_value_nonneg(s, i, k - 1);
    }
}

proof fn lemma_digits_value_nonneg(s: Seq<u8>, i: int, j: int)
    requires
        forall|x: int| i <= x < j ==> is_digit(#[trigger] s[x]),
    ensures
        digits_value(s, i, j) >= 0,
    decreases j - i,
{
    if i < j {
        lemma_digits_value_nonneg(s, i, j - 1);
    }
}

/// Scans the run of digits that starts at `start` and returns its value
/// and end position, or nothing when the run is empty or its value does
/// not fit `u32`.
fn scan_number(s: &Vec<u8>, start: usize) -> (r: Option<(u32, usize)>)
    requires
        start <= s@.len(),
    ensures
        r is Some <==> digits_end(s@, start as int) > start && digits_value(
            s@,
            start as int,
            digits_end(s@, start as int),
        ) <= u32::MAX,
        r matches Some((v, e)) ==> e == digits_end(s@, start as int) && v == digits_value(
            s@,
            start as int,
            e as int,
        ) && start < e <= s@.len(),
{
    let len = s.len();
    let mut i: usize = start;
    let mut acc: u32 = 0;
    let mut overflow = false;
    while i < len && 48 <= s[i] && s[i] <= 57
        invariant
            start <= i <= len,
            len == s@.len(),
            forall|x: int| start <= x < i ==> is_digit(#[trigger] s@[x]),
            digits_end(s@, start as int) == digits_end(s@, i as int),
            !overflow ==> acc == digits_value(s@, start as int, i as int),
            overflow ==> digits_value(s@, start as int, i as int) > u32::MAX,
        decreases len - i,
    {
        let b = s[i];
        if !overflow {
            let next: u64 = (acc as u64) * 10 + ((b - 48) as u64);
            if next > (u32::MAX as u64) {
                overflow = true;
            } else {
                acc = next as u32;
            }
        } else {
            proof {
                lemma_digits_value_nonneg(s@, start as int, i as int);
            }
        }
        i = i + 1;
    }
    proof {
        assert(digits_end(s@, i as int) == i);
    }
    if overflow {
        proof {
            assert forall|x: int| start <= x < digits_end(s@, start as int) implies is_digit(
                #[trigger] s@[x],
            ) by {}
            lemma_digits_value_grows(s@, start as int, i as int, digits_end(s@, start as int));
        }
        None
    } else if i == start {
        None
    } else {
        Some((acc, i))
    }
}

/// Whether every field value fits `u32`.
pub open spec fn fields_fit(vals: Seq<int>) -> bool {
    forall|k: int| 0 <= k < vals.len() ==> #[trigger] vals[k] <= u32::MAX
}

/// Parses exactly `n` comma-space-separated decimal fields filling the
/// line from `start` on; fails exactly when the text is not of that shape
/// or some field does not fit `u32`.
pub fn parse_fields_from(line: &Vec<u8>, start: usize, n: usize) -> (r: Option<Vec<u32>>)
    requires
        start <= line@.len(),
    ensures
        r is Some <==> (spec_parse_fields(line@, start as int, n as nat) matches Some(vals)
            && fields_fit(vals)),
        r matches Some(vs) ==> spec_parse_fields(line@, start as int, n as nat) == Some(
            vs@.map_values(|x: u32| x as int),
        ) && vs@.len() == n,
    decreases n,
{
    if n == 0 {
        if start == line.len() {
            let vs: Vec<u32> = Vec::new();
            proof {
                assert(vs@.map_values(|x: u32| x as int) =~= Seq::<int>::empty());
            }
            Some(vs)
        } else {
            None
        }
    } else {
        match scan_number(line, start) {
            None => {
                proof {
                    let e = digits_end(line@, start as int);
                    if e > start {
                        assert(spec_parse_fields(line@, start as int, n as nat) matches Some(vals)
                            ==> vals[0] == digits_value(line@, start as int, e) > u32::MAX);
                    }
                }
                None
            },
            Some((v, e)) => {
                if n == 1 {
                    if e == line.len() {
                        let mut vs: Vec<u32> = Vec::new();
                        vs.push(v);
                        proof {
                            assert(vs@.map_values(|x: u32| x as int) =~= seq![v as int]);
                        }
                        Some(vs)
                    } else {
                        None
                    }
                } else if e < line.len() && *line.get(e).unwrap() == 44 && e + 1 < line.len()
                    && *line.get(e + 1).unwrap() == 32 {
                    match parse_fields_from(line, e + 2, n - 1) {
                        Some(rest) => {
                            let mut vs: Vec<u32> = Vec::new();
                            vs.push(v);
                            let mut k: usize = 0;
                            while k < rest.len()
                                invariant
                                    0 <= k <= rest@.len(),
                                    vs@.len() == k + 1,
                                    vs@[0] == v,
                                    forall|t: int| 0 <= t < k ==> vs@[t + 1] == #[trigger] rest@[t],
                                decreases rest@.len() - k,
                            {
                                vs.push(rest[k]);
                                k = k + 1;
                            }
                            proof {
                                let f = |x: u32| x as int;
                                let rvals = rest@.map_values(f);
                                assert(vs@.map_values(f) =~= seq![v as int] + rvals);
                                assert forall|t: int| 0 <= t < (seq![v as int] + rvals).len()
                                    implies #[trigger] (seq![v as int] + rvals)[t] <= u32::MAX by {
                                    if t > 0 {
                                        assert(rvals[t - 1] <= u32::MAX);
                                    }
                                }
                            }
                            Some(vs)
                        },
                        None => {
                            proof {
                                match spec_parse_fields(line@, e + 2, (n - 1) as nat) {
                                    Some(rvals) => {
                                        assert(!fields_fit(rvals));
                                        let k = choose|k: int|
                                            0 <= k < rvals.len() && !(#[trigger] rvals[k]
                                                <= u32::MAX);
                                        assert((seq![v as int] + rvals)[k + 1] > u32::MAX);
                                    },
                                    None => {},
                                }
                            }
                            None
                        },
                    }
                } else {
                    None
                }
            },
        }
    }
}

} // verus!
