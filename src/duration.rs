//! How long a cached snapshot stays valid, and its short text form
//! ("1h", "30min").
use vstd::prelude::*;
use crate::text::{all_digits, digit_char, digits_value, is_digit, nat_text, push_nat};

verus! {

/// The longest span, in minutes, whose count of milliseconds fits in an `i64`.
pub const MAX_MINUTES: u64 = 153722867280912;

/// A span of whole minutes.
#[derive(Clone, Copy, Debug, PartialEq, Eq, Structural)]
pub struct CacheDuration {
    pub minutes: u64,
}

impl CacheDuration {
    pub open spec fn wf(self) -> bool {
        self.minutes <= MAX_MINUTES
    }

    /// The span in milliseconds.
    pub open spec fn millis(self) -> int {
        self.minutes * 60000
    }

    pub fn hours(h: u64) -> (r: Option<CacheDuration>)
        ensures
            r == (if h * 60 <= MAX_MINUTES {
                Some(CacheDuration { minutes: (h * 60) as u64 })
            } else {
                None::<CacheDuration>
            }),
    {
        if h <= MAX_MINUTES / 60 {
            Some(CacheDuration { minutes: h * 60 })
        } else {
            None
        }
    }

    pub fn minutes(m: u64) -> (r: Option<CacheDuration>)
        ensures
            r == (if m <= MAX_MINUTES {
                Some(CacheDuration { minutes: m })
            } else {
                None::<CacheDuration>
            }),
    {
        if m <= MAX_MINUTES {
            Some(CacheDuration { minutes: m })
        } else {
            None
        }
    }
}

/// Whether `s` ends in the three characters "min".
pub open spec fn ends_in_min(s: Seq<char>) -> bool {
    s.len() >= 3 && s[s.len() - 3] == 'm' && s[s.len() - 2] == 'i' && s[s.len() - 1] == 'n'
}

/// A count of whole units: a non-empty run of decimal digits.
pub open spec fn count_of(s: Seq<char>) -> Option<nat> {
    if s.len() > 0 && all_digits(s) {
        Some(digits_value(s))
    } else {
        None
    }
}

/// What a duration text means: a count followed by `h` or by `min`, and no
/// sign, fraction or other unit; a span too long to hold is refused too.
pub open spec fn duration_of(s: Seq<char>) -> Option<CacheDuration> {
    if s.len() > 0 && s.last() == 'h' {
        match count_of(s.drop_last()) {
            Some(h) => if h * 60 <= MAX_MINUTES {
                Some(CacheDuration { minutes: (h * 60) as u64 })
            } else {
                None
            },
            None => None,
        }
    } else if ends_in_min(s) {
        match count_of(s.subrange(0, s.len() - 3)) {
            Some(m) => if m <= MAX_MINUTES {
                Some(CacheDuration { minutes: m as u64 })
            } else {
                None
            },
            None => None,
        }
    } else {
        None
    }
}

/// The short text of a duration: whole hours as "<n>h", anything else as "<n>min".
pub open spec fn duration_text(d: CacheDuration) -> Seq<char> {
    if d.minutes > 0 && d.minutes % 60 == 0 {
        nat_text((d.minutes / 60) as nat) + seq!['h']
    } else {
        nat_text(d.minutes as nat) + seq!['m', 'i', 'n']
    }
}

proof fn lemma_value_grows(s: Seq<char>, i: int, j: int)
    requires
        0 <= i <= j <= s.len(),
        all_digits(s.take(j)),
    ensures
        digits_value(s.take(i)) <= digits_value(s.take(j)),
    decreases j - i,
{
    if i < j {
        let t = s.take(j);
        assert(t.drop_last() =~= s.take(j - 1));
        assert(all_digits(s.take(j - 1))) by {
            assert forall|k: int| 0 <= k < s.take(j - 1).len() implies is_digit(
                #[trigger] s.take(j - 1)[k],
            ) by {
                assert(s.take(j - 1)[k] == t[k]);
            }
        }
        lemma_value_grows(s, i, j - 1);
    }
}

/// Reads the count in the first `end` characters of `s`, refusing one above `limit`.
fn parse_count(s: &str, end: usize, limit: u64) -> (r: Option<u64>)
    requires
        end <= s@.len(),
    ensures
        r == (match count_of(s@.take(end as int)) {
            Some(v) => if v <= limit {
                Some(v as u64)
            } else {
                None::<u64>
            },
            None => None::<u64>,
        }),
{
    if end == 0 {
        return None;
    }
    let mut acc: u64 = 0;
    let mut i: usize = 0;
    while i < end
        invariant
            end <= s@.len(),
            i <= end,
            all_digits(s@.take(i as int)),
            acc as nat == digits_value(s@.take(i as int)),
            acc <= limit,
        decreases end - i,
    {
        let c = s.get_char(i);
        let t = Ghost(s@.take(i as int + 1));
        assert(t@.drop_last() =~= s@.take(i as int));
        if !('0' <= c && c <= '9') {
            proof {
                assert(s@.take(end as int)[i as int] == c);
            }
            return None;
        }
        let d: u64 = (c as u32 - 48) as u64;
        proof {
            assert forall|k: int| 0 <= k < t@.len() implies is_digit(#[trigger] t@[k]) by {
                if k < i {
                    assert(t@[k] == s@.take(i as int)[k]);
                }
            }
        }
        if d > limit || acc > (limit - d) / 10 {
            proof {
                let v = digits_value(t@);
                assert(v == acc * 10 + d);
                if d <= limit {
                    assert(acc * 10 + d > limit) by (nonlinear_arith)
                        requires
                            acc > (limit - d) / 10,
                            d <= limit,
                    ;
                }
                if all_digits(s@.take(end as int)) {
                    lemma_value_grows(s@, i as int + 1, end as int);
                    assert(s@.take(end as int).len() > 0);
                }
            }
            return None;
        }
        acc = acc * 10 + d;
        i = i + 1;
    }
    Some(acc)
}

/// Reads a duration text: a count followed by `h` or `min`.
pub fn parse_duration(s: &str) -> (r: Option<CacheDuration>)
    ensures
        r == duration_of(s@),
        r matches Some(d) ==> d.wf(),
{
    let n = s.unicode_len();
    if n > 0 && s.get_char(n - 1) == 'h' {
        assert(s@.drop_last() =~= s@.take(n - 1));
        match parse_count(s, n - 1, MAX_MINUTES / 60) {
            Some(h) => Some(CacheDuration { minutes: h * 60 }),
            None => None,
        }
    } else if n >= 3 && s.get_char(n - 3) == 'm' && s.get_char(n - 2) == 'i' && s.get_char(n - 1)
        == 'n' {
        assert(s@.subrange(0, n - 3) =~= s@.take(n - 3));
        match parse_count(s, n - 3, MAX_MINUTES) {
            Some(m) => Some(CacheDuration { minutes: m }),
            None => None,
        }
    } else {
        None
    }
}

/// The short text of a duration, as the configuration file holds it.
pub fn serialize(duration: &CacheDuration) -> (r: String)
    ensures
        r@ == duration_text(*duration),
{
    let mut out = String::new();
    if duration.minutes > 0 && duration.minutes % 60 == 0 {
        push_nat(&mut out, duration.minutes / 60);
        out.append("h");
        proof {
            reveal_strlit("h");
        }
    } else {
        push_nat(&mut out, duration.minutes);
        out.append("min");
        proof {
            reveal_strlit("min");
        }
    }
    proof {
        assert(out@ =~= duration_text(*duration));
    }
    out
}

/// Reads the short text of a duration; the error carries a message.
pub fn deserialize(text: &str) -> (r: Result<CacheDuration, String>)
    ensures
        r is Ok <==> duration_of(text@) is Some,
        r matches Ok(d) ==> duration_of(text@) == Some(d),
        r matches Err(m) ==> m@ == "failed to parse duration"@,
{
    match parse_duration(text) {
        Some(d) => Ok(d),
        None => Err(String::from_str("failed to parse duration")),
    }
}

proof fn lemma_digit_char(d: nat)
    requires
        d < 10,
    ensures
        is_digit(digit_char(d)),
        digit_char(d) as u32 == 48 + d,
{
    if d == 0 {
    } else if d == 1 {
    } else if d == 2 {
    } else if d == 3 {
    } else if d == 4 {
    } else if d == 5 {
    } else if d == 6 {
    } else if d == 7 {
    } else if d == 8 {
    } else {
        assert(d == 9);
    }
}

proof fn lemma_nat_text_reads_back(n: nat)
    ensures
        nat_text(n).len() > 0,
        all_digits(nat_text(n)),
        digits_value(nat_text(n)) == n,
    decreases n,
{
    let s = nat_text(n);
    lemma_digit_char(n % 10);
    if n < 10 {
        assert(s.drop_last() =~= Seq::<char>::empty());
        assert(digits_value(Seq::<char>::empty()) == 0);
        assert(s.last() == digit_char(n));
        assert(digits_value(s) == 0 * 10 + ((digit_char(n) as u32) - 48) as nat);
    } else {
        lemma_nat_text_reads_back(n / 10);
        assert(s.drop_last() =~= nat_text(n / 10));
        assert(s.last() == digit_char(n % 10));
        assert(digits_value(s) == (n / 10) * 10 + n % 10);
        assert forall|i: int| 0 <= i < s.len() implies is_digit(#[trigger] s[i]) by {
            if i < s.len() - 1 {
                assert(s[i] == nat_text(n / 10)[i]);
            }
        }
    }
}

/// A duration written as text and read back is the same duration.
pub proof fn lemma_duration_round_trip(d: CacheDuration)
    requires
        d.wf(),
    ensures
        duration_of(duration_text(d)) == Some(d),
{
    let s = duration_text(d);
    if d.minutes > 0 && d.minutes % 60 == 0 {
        let h = (d.minutes / 60) as nat;
        lemma_nat_text_reads_back(h);
        assert(s.drop_last() =~= nat_text(h));
    } else {
        lemma_nat_text_reads_back(d.minutes as nat);
        assert(s.subrange(0, s.len() - 3) =~= nat_text(d.minutes as nat));
    }
}

} // verus!
