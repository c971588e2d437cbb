//! Keyboard input: typing into the armed repair button edits its text,
//! and the text is parsed as a decimal durability target after every
//! keystroke; text that does not parse leaves the target unchanged.

use vstd::prelude::*;
use crate::model::{STAT_BOUND, TEXT_BOUND};
use crate::session::World;

verus! {

pub open spec fn is_digit(c: char) -> bool {
    '0' <= c <= '9'
}

pub open spec fn digit_val(c: char) -> int {
    c as int - '0' as int
}

/// The value of a digit string, most significant first.
pub open spec fn digits_val(s: Seq<char>) -> int
    decreases s.len(),
{
    if s.len() == 0 {
        0
    } else {
        digits_val(s.drop_last()) * 10 + digit_val(s.last())
    }
}

pub open spec fn all_digits(s: Seq<char>) -> bool {
    forall|i: int| 0 <= i < s.len() ==> is_digit(#[trigger] s[i])
}

pub proof fn lemma_digits_val_nonneg(s: Seq<char>)
    requires
        all_digits(s),
    ensures
        digits_val(s) >= 0,
    decreases s.len(),
{
    if s.len() > 0 {
        assert(all_digits(s.drop_last())) by {
            assert(forall|i: int| 0 <= i < s.len() - 1 ==> s.drop_last()[i] == s[i]);
        }
        lemma_digits_val_nonneg(s.drop_last());
    }
}

/// A digit string is worth at least any of its prefixes.
pub proof fn lemma_digits_val_mono(s: Seq<char>, i: int)
    requires
        all_digits(s),
        0 <= i <= s.len(),
    ensures
        digits_val(s.take(i)) <= digits_val(s),
    decreases s.len(),
{
    if i < s.len() {
        assert(all_digits(s.drop_last())) by {
            assert(forall|k: int| 0 <= k < s.len() - 1 ==> s.drop_last()[k] == s[k]);
        }
        assert(s.drop_last().take(i) =~= s.take(i));
        lemma_digits_val_mono(s.drop_last(), i);
        lemma_digits_val_nonneg(s.drop_last());
    } else {
        assert(s.take(i) =~= s);
    }
}

/// The first decimal point at or after `i`.
pub open spec fn dot_index(s: Seq<char>, i: int) -> Option<int>
    decreases s.len() - i,
{
    if i >= s.len() {
        None
    } else if s[i] == '.' {
        Some(i)
    } else {
        dot_index(s, i + 1)
    }
}

pub proof fn lemma_dot_index_range(s: Seq<char>, i: int)
    ensures
        match dot_index(s, i) {
            Some(d) => i <= d < s.len() && s[d] == '.',
            None => true,
        },
    decreases s.len() - i,
{
    if i < s.len() && s[i] != '.' {
        lemma_dot_index_range(s, i + 1);
    }
}

/// The first three fractional digits as thousandths; missing places
/// count as zero.
pub open spec fn frac3(f: Seq<char>) -> int {
    (if f.len() > 0 {
        digit_val(f[0]) * 100
    } else {
        0
    }) + (if f.len() > 1 {
        digit_val(f[1]) * 10
    } else {
        0
    }) + (if f.len() > 2 {
        digit_val(f[2])
    } else {
        0
    })
}

/// What a typed durability target means, in thousandths: a digit string,
/// optionally followed by a decimal point and further digits, of which
/// the first three count; anything else, or a value over the stat
/// bound, is rejected.
pub open spec fn parse_milli_spec(s: Seq<char>) -> Option<u64> {
    match dot_index(s, 0) {
        None => if s.len() > 0 && all_digits(s) && digits_val(s) * 1000 <= STAT_BOUND {
            Some((digits_val(s) * 1000) as u64)
        } else {
            None
        },
        Some(di) => {
            let ip = s.take(di);
            let fp = s.skip(di + 1);
            if di > 0 && all_digits(ip) && all_digits(fp) && digits_val(ip) * 1000 + frac3(fp)
                <= STAT_BOUND {
                Some((digits_val(ip) * 1000 + frac3(fp)) as u64)
            } else {
                None
            }
        },
    }
}

/// The value of the digit run `s[from..to]`, when it is all digits and
/// within the stat bound.
fn digits_value(s: &str, from: usize, to: usize) -> (r: Option<u64>)
    requires
        from <= to <= s@.len(),
        s@.len() <= TEXT_BOUND,
    ensures
        r == (if all_digits(s@.subrange(from as int, to as int)) && digits_val(
            s@.subrange(from as int, to as int),
        ) <= STAT_BOUND {
            Some(digits_val(s@.subrange(from as int, to as int)) as u64)
        } else {
            None::<u64>
        }),
{
    let ghost sub = s@.subrange(from as int, to as int);
    let mut val: u64 = 0;
    let mut i: usize = from;
    while i < to
        invariant
            from <= i <= to <= s@.len(),
            sub == s@.subrange(from as int, to as int),
            all_digits(sub.take(i - from)),
            val == digits_val(sub.take(i - from)),
            val <= STAT_BOUND,
        decreases to - i,
    {
        let c = s.get_char(i);
        proof {
            assert(sub[i - from] == s@[i as int]);
        }
        if !(c >= '0' && c <= '9') {
            return None;
        }
        let d = (c as u32 - '0' as u32) as u64;
        let next = val * 10 + d;
        proof {
            assert(sub.take(i - from + 1).drop_last() =~= sub.take(i - from));
            assert(sub.take(i - from + 1).last() == sub[i - from]);
        }
        if next > STAT_BOUND {
            proof {
                if all_digits(sub) {
                    lemma_digits_val_mono(sub, i - from + 1);
                }
            }
            return None;
        }
        val = next;
        i += 1;
    }
    proof {
        assert(sub.take(to - from) =~= sub);
    }
    Some(val)
}

/// Parse a typed durability target; `None` leaves the previous target
/// standing.
pub fn parse_milli(s: &str) -> (r: Option<u64>)
    requires
        s@.len() <= TEXT_BOUND,
    ensures
        r == parse_milli_spec(s@),
        match r {
            Some(v) => v <= STAT_BOUND,
            None => true,
        },
{
    let n = s.unicode_len();
    let mut i: usize = 0;
    while i < n && s.get_char(i) != '.'
        invariant
            n == s@.len(),
            i <= n,
            dot_index(s@, 0) == dot_index(s@, i as int),
        decreases n - i,
    {
        i += 1;
    }
    let dot: Option<usize> = if i < n {
        Some(i)
    } else {
        None
    };
    proof {
        lemma_dot_index_range(s@, 0);
    }
    match dot {
        None => {
            if n == 0 {
                return None;
            }
            match digits_value(s, 0, n) {
                Some(v) => {
                    proof {
                        assert(s@.subrange(0, n as int) =~= s@);
                        lemma_digits_val_nonneg(s@);
                    }
                    if v > STAT_BOUND / 1000 {
                        None
                    } else {
                        Some(v * 1000)
                    }
                },
                None => {
                    proof {
                        assert(s@.subrange(0, n as int) =~= s@);
                    }
                    None
                },
            }
        },
        Some(d) => {
            proof {
                assert(s@.subrange(0, d as int) =~= s@.take(d as int));
            }
            if d == 0 {
                return None;
            }
            let ipv = match digits_value(s, 0, d) {
                Some(v) => v,
                None => {
                    return None;
                },
            };
            proof {
                lemma_digits_val_nonneg(s@.take(d as int));
            }
            let mut fr: u64 = 0;
            let mut k: usize = d + 1;
            let ghost fp = s@.skip(d + 1);
            while k < n
                invariant
                    d < k <= n,
                    n == s@.len() <= TEXT_BOUND,
                    dot_index(s@, 0) == Some(d as int),
                    fp == s@.skip(d + 1),
                    all_digits(fp.take(k - d - 1)),
                    fr == frac3(fp.take(k - d - 1)),
                    fr <= 999,
                decreases n - k,
            {
                let c = s.get_char(k);
                proof {
                    assert(fp[k - d - 1] == s@[k as int]);
                    assert(fp.take(k - d) =~= fp.take(k - d - 1).push(s@[k as int]));
                }
                if !(c >= '0' && c <= '9') {
                    proof {
                        assert(!all_digits(fp)) by {
                            assert(fp[k - d - 1] == s@[k as int]);
                        }
                    }
                    return None;
                }
                let dv = (c as u32 - '0' as u32) as u64;
                let pos = k - d - 1;
                if pos == 0 {
                    fr = dv * 100;
                } else if pos == 1 {
                    fr = fr + dv * 10;
                } else if pos == 2 {
                    fr = fr + dv;
                }
                k += 1;
            }
            proof {
                assert(fp.take(n - d - 1) =~= fp);
                if fp.len() > 0 {
                    assert(is_digit(fp[0]));
                }
                if fp.len() > 1 {
                    assert(is_digit(fp[1]));
                }
                if fp.len() > 2 {
                    assert(is_digit(fp[2]));
                }
                assert(frac3(fp) >= 0);
            }
            if ipv > STAT_BOUND / 1000 {
                return None;
            }
            let total = ipv * 1000 + fr;
            if total > STAT_BOUND {
                None
            } else {
                Some(total)
            }
        },
    }
}

/// Feed one keystroke to the armed repair button: the key's text is
/// appended to the button's label (as long as it fits) and the label is
/// reparsed as the repair target.  With the button not armed, typing
/// does nothing.
pub fn handle_key(w: &mut World, key: &str)
    requires
        old(w).wf(),
        key@.len() <= 64,
    ensures
        final(w).wf(),
        !old(w).repair_selected ==> *final(w) == *old(w),
        old(w).repair_selected ==> {
            &&& *old(w) == (World {
                repair_text: old(w).repair_text,
                repair_target: old(w).repair_target,
                ..*final(w)
            })
            &&& final(w).repair_text@ == (if old(w).repair_text@.len() + key@.len() <= TEXT_BOUND {
                old(w).repair_text@ + key@
            } else {
                old(w).repair_text@
            })
            &&& final(w).repair_target == (match parse_milli_spec(final(w).repair_text@) {
                Some(v) => v,
                None => old(w).repair_target,
            })
        },
{
    if !w.repair_selected {
        return ;
    }
    if w.repair_text.as_str().unicode_len() + key.unicode_len() <= crate::model::TEXT_BOUND {
        w.repair_text.append(key);
    }
    if let Some(v) = parse_milli(w.repair_text.as_str()) {
        w.repair_target = v;
    }
}

} // verus!
