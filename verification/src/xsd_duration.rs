//! The `xsd:duration` leaf codec.
//!
//! The text form is `[-]P[nY][nM][nD][T[nH][nM][nS]]`: an optional sign,
//! a literal `P`, then optional date components and, after a literal `T`,
//! optional time components. Years and months are not kept as units: a
//! year counts as 365 days and a month as 31, so a parsed duration is a
//! single signed number of seconds. Formatting emits only non-zero
//! components, in the order `D`, `T`, `H`, `M`, `S`, writing the `T`
//! marker exactly when some time component is non-zero; parsing the
//! formatted text always gives the seconds back.

use vstd::prelude::*;

use vstd::arithmetic::div_mod::{
    lemma_div_is_ordered, lemma_div_pos_is_pos, lemma_fundamental_div_mod,
    lemma_mod_division_less_than_divisor, lemma_mod_mod,
};

use crate::text::{
    all_digits, dec_digits, digit_char, digit_val, digits_val, find_char, is_digit,
    lemma_dec_digits,
    lemma_find_char_concat,
    lemma_find_char_found, lemma_find_char_is, lemma_find_char_miss, lemma_find_char_none,
    lemma_trim_leading_run, trim_leading,
};

verus! {

/// A duration of time, in whole seconds.
#[derive(Clone, Copy, Debug, PartialEq, Eq, Structural, PartialOrd, Ord, Hash)]
pub struct XsdDuration {
    /// The signed number of seconds.
    pub seconds: i64,
}

/// The error produced when duration text cannot be parsed.
#[derive(Clone, Copy, Debug, PartialEq, Eq, Structural)]
pub struct XsdDurationError;

/// Whether `v` fits the seconds field.
pub open spec fn fits_i64(v: int) -> bool {
    i64::MIN as int <= v <= i64::MAX as int
}

/// One parsing step: the integer before the first `c` (zero when `c` is
/// absent) and the text after the run of `c`s. The step fails when the
/// prefix before `c` is empty, is not all digits, or does not fit `i64`.
pub open spec fn parse_next_spec(s: Seq<char>, c: char) -> Option<(int, Seq<char>)> {
    let i = find_char(s, c);
    if i == -1 {
        Some((0, s))
    } else {
        let pre = s.subrange(0, i);
        if pre.len() > 0 && all_digits(pre) && digits_val(pre) <= i64::MAX as int {
            Some((digits_val(pre), trim_leading(s.subrange(i, s.len() as int), c)))
        } else {
            None
        }
    }
}

/// The seconds denoted by duration text, or `None` when the text is not
/// a duration. The value itself is unbounded here; the executable parser
/// additionally rejects what does not fit its result type.
pub open spec fn parse_duration(s: Seq<char>) -> Option<int> {
    let neg = s.len() > 0 && s[0] == '-';
    let s1 = if neg {
        s.subrange(1, s.len() as int)
    } else {
        s
    };
    if s1.len() == 0 || s1[0] != 'P' {
        None
    } else {
        let s2 = trim_leading(s1, 'P');
        let ti = find_char(s2, 'T');
        let large = if ti == -1 {
            s2
        } else {
            s2.subrange(0, ti)
        };
        let small = if ti == -1 {
            Seq::<char>::empty()
        } else {
            trim_leading(s2.subrange(ti, s2.len() as int), 'T')
        };
        match parse_next_spec(large, 'Y') {
            None => None,
            Some((years, l1)) => match parse_next_spec(l1, 'M') {
                None => None,
                Some((months, l2)) => match parse_next_spec(l2, 'D') {
                    None => None,
                    Some((days, _)) => match parse_next_spec(small, 'H') {
                        None => None,
                        Some((hours, t1)) => match parse_next_spec(t1, 'M') {
                            None => None,
                            Some((minutes, t2)) => match parse_next_spec(t2, 'S') {
                                None => None,
                                Some((secs, _)) => {
                                    let total = (365 * years + 31 * months + days) * 86400
                                        + hours * 3600 + minutes * 60 + secs;
                                    Some(
                                        if neg {
                                            -total
                                        } else {
                                            total
                                        },
                                    )
                                },
                            },
                        },
                    },
                },
            },
        }
    }
}

/// One formatted component: the digits of `v` followed by its designator,
/// or nothing when `v` is zero.
pub open spec fn unit_part(v: int, c: char) -> Seq<char> {
    if v > 0 {
        dec_digits(v) + seq![c]
    } else {
        Seq::<char>::empty()
    }
}

/// The canonical text of `n` seconds: sign, `P`, non-zero components only,
/// with `T` exactly when an `H`, `M` or `S` component follows.
pub open spec fn fmt_duration(n: int) -> Seq<char> {
    let m = if n < 0 {
        -n
    } else {
        n
    };
    let days = m / 86400;
    let hours = (m % 86400) / 3600;
    let minutes = (m % 3600) / 60;
    let secs = m % 60;
    (if n < 0 {
        seq!['-']
    } else {
        Seq::<char>::empty()
    }) + seq!['P'] + unit_part(days, 'D') + (if hours > 0 || minutes > 0 || secs > 0 {
        seq!['T'] + unit_part(hours, 'H') + unit_part(minutes, 'M') + unit_part(secs, 'S')
    } else {
        Seq::<char>::empty()
    })
}

/// The characters of `s`, in order.
pub fn str_to_chars(s: &str) -> (r: Vec<char>)
    ensures
        r@ == s@,
{
    let n = s.unicode_len();
    let mut r: Vec<char> = Vec::new();
    let mut i: usize = 0;
    while i < n
        invariant
            n == s@.len(),
            0 <= i <= n,
            r@ =~= s@.subrange(0, i as int),
        decreases n - i,
    {
        r.push(s.get_char(i));
        i = i + 1;
        proof {
            assert(r@ =~= s@.subrange(0, i as int));
        }
    }
    proof {
        assert(s@.subrange(0, n as int) =~= s@);
    }
    r
}

/// A copy of `s[from..to]`.
fn subrange_vec(s: &Vec<char>, from: usize, to: usize) -> (r: Vec<char>)
    requires
        from <= to <= s@.len(),
    ensures
        r@ == s@.subrange(from as int, to as int),
{
    let mut r: Vec<char> = Vec::new();
    let mut i: usize = from;
    while i < to
        invariant
            from <= i <= to <= s@.len(),
            r@ =~= s@.subrange(from as int, i as int),
        decreases to - i,
    {
        r.push(s[i]);
        i = i + 1;
        proof {
            assert(r@ =~= s@.subrange(from as int, i as int));
        }
    }
    r
}

/// The index of the first `c` in `s`, if any.
fn find_in(s: &Vec<char>, c: char) -> (r: Option<usize>)
    ensures
        match r {
            Some(i) => find_char(s@, c) == i as int,
            None => find_char(s@, c) == -1,
        },
{
    let n = s.len();
    let mut i: usize = 0;
    while i < n
        invariant
            n == s@.len(),
            0 <= i <= n,
            forall|j: int| 0 <= j < i ==> s@[j] != c,
        decreases n - i,
    {
        if s[i] == c {
            proof {
                lemma_find_char_is(s@, c, i as int);
            }
            return Some(i);
        }
        i = i + 1;
    }
    proof {
        lemma_find_char_none(s@, c);
    }
    None
}

/// The index just past the run of `c`s starting at `from`.
fn skip_run(s: &Vec<char>, from: usize, c: char) -> (r: usize)
    requires
        from <= s@.len(),
    ensures
        from <= r <= s@.len(),
        forall|j: int| from <= j < r ==> s@[j] == c,
        r < s@.len() ==> s@[r as int] != c,
{
    let n = s.len();
    let mut i: usize = from;
    while i < n && s[i] == c
        invariant
            from <= i <= n == s@.len(),
            forall|j: int| from <= j < i ==> s@[j] == c,
        decreases n - i,
    {
        i = i + 1;
    }
    i
}

/// The integer before the first `c` in `s` and the text after the run of
/// `c`s, or zero and `s` itself when `c` is absent. Fails when the prefix
/// before `c` is empty, holds a non-digit, or does not fit `i64`.
pub fn parse_next(s: &Vec<char>, c: char) -> (r: Result<(i64, Vec<char>), XsdDurationError>)
    ensures
        match r {
            Ok(p) => parse_next_spec(s@, c) == Some((p.0 as int, p.1@)),
            Err(_) => parse_next_spec(s@, c) is None,
        },
{
    let i = match find_in(s, c) {
        None => {
            return Ok((0, subrange_vec(s, 0, s.len())));
        },
        Some(i) => i,
    };
    proof {
        lemma_find_char_found(s@, c);
    }
    if i == 0 {
        return Err(XsdDurationError);
    }
    let ghost pre = s@.subrange(0, i as int);
    let mut v: i64 = 0;
    let mut big = false;
    let mut j: usize = 0;
    while j < i
        invariant
            0 < i <= s@.len(),
            0 <= j <= i,
            find_char(s@, c) == i as int,
            pre == s@.subrange(0, i as int),
            all_digits(s@.subrange(0, j as int)),
            !big ==> v as int == digits_val(s@.subrange(0, j as int)),
            big ==> digits_val(s@.subrange(0, j as int)) > i64::MAX as int,
            v >= 0,
        decreases i - j,
    {
        let ch = s[j];
        let code = ch as u32;
        if code < 48 || code > 57 {
            proof {
                assert(!is_digit(s@[j as int]));
                assert(pre[j as int] == s@[j as int]);
                assert(!all_digits(pre));
            }
            return Err(XsdDurationError);
        }
        let d = (code - 48) as i64;
        proof {
            assert(is_digit(s@[j as int]));
            assert(digit_val(s@[j as int]) == d as int);
            assert(s@.subrange(0, j + 1).drop_last() =~= s@.subrange(0, j as int));
            assert(s@.subrange(0, j + 1).last() == s@[j as int]);
            assert(digits_val(s@.subrange(0, j + 1))
                == digits_val(s@.subrange(0, j as int)) * 10 + d as int);
        }
        if big || v > (i64::MAX - d) / 10 {
            proof {
                if !big {
                    assert(v as int * 10 + d as int > i64::MAX as int);
                }
            }
            big = true;
            v = 0;
        } else {
            v = v * 10 + d;
        }
        j = j + 1;
        proof {
            assert(all_digits(s@.subrange(0, j as int)));
        }
    }
    if big {
        proof {
            assert(digits_val(pre) > i64::MAX as int);
        }
        return Err(XsdDurationError);
    }
    let k = skip_run(s, i, c);
    let rest = subrange_vec(s, k, s.len());
    proof {
        let tail = s@.subrange(i as int, s@.len() as int);
        lemma_trim_leading_run(tail, c, k - i);
        assert(tail.subrange(k - i, tail.len() as int) =~= s@.subrange(k as int, s@.len() as int));
        assert(pre.len() > 0);
        assert(all_digits(pre));
    }
    Ok((v, rest))
}

impl XsdDuration {
    /// A duration of `seconds` seconds.
    pub fn new(seconds: i64) -> (r: XsdDuration)
        ensures
            r.seconds == seconds,
    {
        XsdDuration { seconds }
    }

    /// The signed number of seconds.
    pub fn into_inner(self) -> (r: i64)
        ensures
            r == self.seconds,
    {
        self.seconds
    }

    /// Parses duration text. Fails exactly when the text is not a
    /// duration or its value does not fit the seconds field.
    #[verifier::rlimit(100)]
    #[verifier::spinoff_prover]
    pub fn parse(s: &str) -> (r: Result<XsdDuration, XsdDurationError>)
        ensures
            match r {
                Ok(d) => parse_duration(s@) == Some(d.seconds as int),
                Err(_) => match parse_duration(s@) {
                    Some(v) => !fits_i64(v),
                    None => true,
                },
            },
    {
        let v = str_to_chars(s);
        let neg = v.len() > 0 && v[0] == '-';
        let v1 = if neg {
            subrange_vec(&v, 1, v.len())
        } else {
            subrange_vec(&v, 0, v.len())
        };
        proof {
            if neg {
                assert(v1@ == s@.subrange(1, s@.len() as int));
            } else {
                assert(v1@ =~= s@);
            }
        }
        if v1.len() == 0 {
            return Err(XsdDurationError);
        }
        if v1[0] != 'P' {
            return Err(XsdDurationError);
        }
        let k = skip_run(&v1, 0, 'P');
        let v2 = subrange_vec(&v1, k, v1.len());
        proof {
            lemma_trim_leading_run(v1@, 'P', k as int);
        }
        let (large, small) = match find_in(&v2, 'T') {
            None => (subrange_vec(&v2, 0, v2.len()), Vec::new()),
            Some(ti) => {
                proof {
                    lemma_find_char_found(v2@, 'T');
                }
                let k2 = skip_run(&v2, ti, 'T');
                proof {
                    let tail = v2@.subrange(ti as int, v2@.len() as int);
                    lemma_trim_leading_run(tail, 'T', k2 - ti);
                    assert(tail.subrange(k2 - ti, tail.len() as int)
                        =~= v2@.subrange(k2 as int, v2@.len() as int));
                }
                (subrange_vec(&v2, 0, ti), subrange_vec(&v2, k2, v2.len()))
            },
        };
        proof {
            if find_char(v2@, 'T') == -1 {
                assert(large@ =~= v2@);
                assert(small@ =~= Seq::<char>::empty());
            }
        }
        let years = match parse_next(&large, 'Y') {
            Ok(p) => p,
            Err(e) => {
                return Err(e);
            },
        };
        let months = match parse_next(&years.1, 'M') {
            Ok(p) => p,
            Err(e) => {
                return Err(e);
            },
        };
        let days = match parse_next(&months.1, 'D') {
            Ok(p) => p,
            Err(e) => {
                return Err(e);
            },
        };
        let hours = match parse_next(&small, 'H') {
            Ok(p) => p,
            Err(e) => {
                return Err(e);
            },
        };
        let minutes = match parse_next(&hours.1, 'M') {
            Ok(p) => p,
            Err(e) => {
                return Err(e);
            },
        };
        let secs = match parse_next(&minutes.1, 'S') {
            Ok(p) => p,
            Err(e) => {
                return Err(e);
            },
        };
        let total: i128 = (365 * years.0 as i128 + 31 * months.0 as i128 + days.0 as i128)
            * 86400 + hours.0 as i128 * 3600 + minutes.0 as i128 * 60 + secs.0 as i128;
        let signed: i128 = if neg {
            -total
        } else {
            total
        };
        if signed < i64::MIN as i128 || signed > i64::MAX as i128 {
            return Err(XsdDurationError);
        }
        Ok(XsdDuration { seconds: signed as i64 })
    }
}

/// Every character of a formatted component is a digit or its designator,
/// and a non-empty component starts with a digit.
proof fn lemma_unit_chars(v: int, c: char)
    requires
        v >= 0,
    ensures
        forall|i: int| 0 <= i < unit_part(v, c).len()
            ==> is_digit(#[trigger] unit_part(v, c)[i]) || unit_part(v, c)[i] == c,
        unit_part(v, c).len() > 0 <==> v > 0,
        v > 0 ==> is_digit(unit_part(v, c)[0]),
{
    if v > 0 {
        lemma_dec_digits(v);
        let u = unit_part(v, c);
        let d = dec_digits(v);
        assert(u == d + seq![c]);
        assert forall|i: int| 0 <= i < u.len() implies is_digit(u[i]) || u[i] == c by {
            if i < d.len() {
                assert(u[i] == d[i]);
            } else {
                assert(u[i] == c);
            }
        }
        assert(u[0] == d[0]);
    }
}

/// The digit character of `d < 10`.
fn digit_char_of(d: u64) -> (r: char)
    requires
        d < 10,
    ensures
        r == digit_char(d as int),
{
    if d == 0 {
        '0'
    } else if d == 1 {
        '1'
    } else if d == 2 {
        '2'
    } else if d == 3 {
        '3'
    } else if d == 4 {
        '4'
    } else if d == 5 {
        '5'
    } else if d == 6 {
        '6'
    } else if d == 7 {
        '7'
    } else if d == 8 {
        '8'
    } else {
        '9'
    }
}

/// Appends the decimal digits of `n`.
fn push_digits(out: &mut String, n: u64)
    ensures
        final(out)@ == old(out)@ + dec_digits(n as int),
    decreases n,
{
    if n < 10 {
        crate::text::push_char(out, digit_char_of(n));
        proof {
            assert(final(out)@ =~= old(out)@ + dec_digits(n as int));
        }
    } else {
        push_digits(out, n / 10);
        crate::text::push_char(out, digit_char_of(n % 10));
        proof {
            assert((n / 10) as int == n as int / 10);
            assert((n % 10) as int == n as int % 10);
            assert(final(out)@ =~= old(out)@ + dec_digits(n as int));
        }
    }
}

impl XsdDuration {
    /// The canonical duration text of this value.
    #[verifier::rlimit(100)]
    #[verifier::spinoff_prover]
    pub fn format(&self) -> (r: String)
        ensures
            r@ == fmt_duration(self.seconds as int),
    {
        let n = self.seconds;
        let neg = n < 0;
        let m: u64 = if neg {
            (-(n as i128)) as u64
        } else {
            n as u64
        };
        proof {
            assert(m as int == if n < 0 { -(n as int) } else { n as int });
        }
        let days: u64 = m / 86400;
        let hours: u64 = (m % 86400) / 3600;
        let minutes: u64 = (m % 3600) / 60;
        let secs: u64 = m % 60;
        let ghost sign_s: Seq<char> = if neg {
            seq!['-']
        } else {
            Seq::<char>::empty()
        };
        let ghost dpart = unit_part(days as int, 'D');
        let ghost hpart = unit_part(hours as int, 'H');
        let ghost mpart = unit_part(minutes as int, 'M');
        let ghost spart = unit_part(secs as int, 'S');
        let ghost timed = hours > 0 || minutes > 0 || secs > 0;
        let ghost tpart: Seq<char> = if timed {
            seq!['T'] + hpart + mpart + spart
        } else {
            Seq::<char>::empty()
        };
        proof {
            assert(fmt_duration(n as int) == sign_s + seq!['P'] + dpart + tpart);
        }
        let mut out = String::new();
        if neg {
            crate::text::push_char(&mut out, '-');
        }
        crate::text::push_char(&mut out, 'P');
        let ghost head = out@;
        proof {
            assert(head =~= sign_s + seq!['P']);
        }
        if days > 0 {
            push_digits(&mut out, days);
            crate::text::push_char(&mut out, 'D');
        }
        let ghost with_days = out@;
        proof {
            assert(with_days =~= head + dpart);
        }
        if hours > 0 || minutes > 0 || secs > 0 {
            crate::text::push_char(&mut out, 'T');
            if hours > 0 {
                push_digits(&mut out, hours);
                crate::text::push_char(&mut out, 'H');
            }
            let ghost with_hours = out@;
            proof {
                assert(with_hours =~= with_days + seq!['T'] + hpart);
            }
            if minutes > 0 {
                push_digits(&mut out, minutes);
                crate::text::push_char(&mut out, 'M');
            }
            let ghost with_minutes = out@;
            proof {
                assert(with_minutes =~= with_hours + mpart);
            }
            if secs > 0 {
                push_digits(&mut out, secs);
                crate::text::push_char(&mut out, 'S');
            }
            proof {
                assert(out@ =~= with_minutes + spart);
                assert(out@ =~= sign_s + seq!['P'] + dpart + tpart);
            }
        } else {
            proof {
                assert(out@ =~= sign_s + seq!['P'] + dpart + tpart);
            }
        }
        out
    }
}

/// Parsing one component out of `unit_part(v, c) + rest` yields `v` and
/// `rest`, provided `rest` holds no further `c`.
proof fn lemma_parse_next_unit(v: int, c: char, rest: Seq<char>)
    requires
        0 <= v <= i64::MAX as int,
        !is_digit(c),
        forall|i: int| 0 <= i < rest.len() ==> rest[i] != c,
    ensures
        parse_next_spec(unit_part(v, c) + rest, c) == Some((v, rest)),
{
    let s = unit_part(v, c) + rest;
    if v > 0 {
        lemma_dec_digits(v);
        let d = dec_digits(v);
        let dl = d.len() as int;
        assert(s[dl] == (d + seq![c])[dl]);
        assert forall|i: int| 0 <= i < dl implies s[i] != c by {
            assert(s[i] == d[i]);
        }
        lemma_find_char_is(s, c, dl);
        let pre = s.subrange(0, dl);
        assert(pre =~= d);
        let tail = s.subrange(dl, s.len() as int);
        assert(tail =~= seq![c] + rest);
        lemma_trim_leading_run(tail, c, 1);
        assert(tail.subrange(1, tail.len() as int) =~= rest);
    } else {
        assert(s =~= rest);
        lemma_find_char_none(s, c);
    }
}

/// Parsing a component whose designator is absent yields zero and leaves
/// the text alone.
proof fn lemma_parse_next_absent(s: Seq<char>, c: char)
    requires
        forall|i: int| 0 <= i < s.len() ==> s[i] != c,
    ensures
        parse_next_spec(s, c) == Some((0int, s)),
{
    lemma_find_char_none(s, c);
}

/// Parsing canonical duration text gives the seconds back, for any value
/// an `i64` can hold.
#[verifier::rlimit(100)]
#[verifier::spinoff_prover]
pub proof fn lemma_parse_fmt_duration(n: int)
    requires
        i64::MIN as int <= n <= i64::MAX as int,
    ensures
        parse_duration(fmt_duration(n)) == Some(n),
{
    let m = if n < 0 { -n } else { n };
    let days = m / 86400;
    let hours = (m % 86400) / 3600;
    let minutes = (m % 3600) / 60;
    let secs = m % 60;

    // Component bounds and the reconstruction identity.
    assert(m >= 0);
    lemma_div_pos_is_pos(m, 86400);
    lemma_mod_division_less_than_divisor(m, 86400);
    lemma_mod_division_less_than_divisor(m, 3600);
    lemma_mod_division_less_than_divisor(m, 60);
    lemma_div_pos_is_pos(m % 86400, 3600);
    lemma_div_pos_is_pos(m % 3600, 60);
    lemma_div_is_ordered(m % 86400, 86399, 3600);
    lemma_div_is_ordered(m % 3600, 3599, 60);
    assert(0 <= hours <= 23);
    assert(0 <= minutes <= 59);
    assert(0 <= secs <= 59);
    assert(days <= i64::MAX as int) by {
        lemma_div_is_ordered(m, 0x8000_0000_0000_0000, 86400);
    }
    assert(days * 86400 + hours * 3600 + minutes * 60 + secs == m) by {
        lemma_fundamental_div_mod(m, 86400);
        lemma_fundamental_div_mod(m % 86400, 3600);
        lemma_fundamental_div_mod(m % 3600, 60);
        lemma_mod_mod(m, 3600, 24);
        assert(3600 * 24 == 86400);
        lemma_mod_mod(m, 60, 60);
        assert(60 * 60 == 3600);
    }

    // The pieces of the canonical text.
    let dpart = unit_part(days, 'D');
    let hpart = unit_part(hours, 'H');
    let mpart = unit_part(minutes, 'M');
    let spart = unit_part(secs, 'S');
    let timed = hours > 0 || minutes > 0 || secs > 0;
    let sm = hpart + mpart + spart;
    let tpart = if timed { seq!['T'] + sm } else { Seq::<char>::empty() };
    let body = seq!['P'] + dpart + tpart;
    let s = fmt_duration(n);
    assert(s =~= (if n < 0 { seq!['-'] } else { Seq::<char>::empty() }) + body);
    lemma_unit_chars(days, 'D');
    lemma_unit_chars(hours, 'H');
    lemma_unit_chars(minutes, 'M');
    lemma_unit_chars(secs, 'S');

    // Sign and the leading `P`.
    let neg = s.len() > 0 && s[0] == '-';
    assert(body[0] == 'P');
    let s1 = if n < 0 { s.subrange(1, s.len() as int) } else { s };
    if n < 0 {
        assert(s[0] == '-');
        assert(neg);
        assert(s1 =~= body);
    } else {
        assert(s[0] == 'P');
        assert(!neg);
        assert(s1 =~= body);
    }
    // `trim_leading` strips exactly the one `P`.
    let rest0 = dpart + tpart;
    assert(s1 =~= seq!['P'] + rest0);
    if rest0.len() > 0 {
        assert(rest0[0] != 'P') by {
            if dpart.len() > 0 {
                assert(rest0[0] == dpart[0]);
            } else if timed {
                assert(rest0[0] == 'T');
            }
        }
    }
    lemma_trim_leading_run(s1, 'P', 1);
    let s2 = trim_leading(s1, 'P');
    assert(s2 =~= rest0);

    // Locate the `T` marker.
    assert(forall|i: int| 0 <= i < dpart.len() ==> #[trigger] dpart[i] != 'T');
    lemma_find_char_none(dpart, 'T');
    let ti = find_char(s2, 'T');
    if timed {
        assert(tpart[0] == 'T');
        lemma_find_char_is(tpart, 'T', 0);
        lemma_find_char_concat(dpart, tpart, 'T');
        assert(ti == dpart.len());
        assert(s2.subrange(0, ti) =~= dpart);
        let tail = s2.subrange(ti, s2.len() as int);
        assert(tail =~= tpart);
        // `sm` is non-empty and starts with a digit, so one `T` is trimmed.
        assert(sm.len() > 0);
        assert(is_digit(sm[0])) by {
            if hours > 0 {
                assert(sm[0] == hpart[0]);
            } else if minutes > 0 {
                assert(sm[0] == mpart[0]);
            } else {
                assert(sm[0] == spart[0]);
            }
        }
        assert(tail[1] == sm[0]);
        lemma_trim_leading_run(tail, 'T', 1);
        assert(trim_leading(tail, 'T') =~= sm);
    } else {
        assert(s2 =~= dpart);
        assert(ti == -1);
    }
    let large = if ti == -1 { s2 } else { s2.subrange(0, ti) };
    let small = if ti == -1 { Seq::<char>::empty() } else {
        trim_leading(s2.subrange(ti, s2.len() as int), 'T')
    };
    assert(large == dpart);
    if timed {
        assert(small == sm);
    } else {
        assert(hours == 0 && minutes == 0 && secs == 0);
        assert(small =~= sm);
    }

    // The date segment: no years, no months, then the days.
    assert(forall|i: int| 0 <= i < dpart.len() ==> #[trigger] dpart[i] != 'Y');
    lemma_parse_next_absent(dpart, 'Y');
    assert(forall|i: int| 0 <= i < dpart.len() ==> #[trigger] dpart[i] != 'M');
    lemma_parse_next_absent(dpart, 'M');
    assert(dpart =~= unit_part(days, 'D') + Seq::<char>::empty());
    lemma_parse_next_unit(days, 'D', Seq::<char>::empty());
    assert(parse_next_spec(dpart, 'D') == Some((days, Seq::<char>::empty())));

    // The time segment: hours, minutes, seconds in turn.
    let after_h = mpart + spart;
    assert(forall|i: int| 0 <= i < after_h.len()
        ==> #[trigger] after_h[i] != 'H');
    assert(sm =~= unit_part(hours, 'H') + after_h);
    lemma_parse_next_unit(hours, 'H', after_h);
    assert(parse_next_spec(sm, 'H') == Some((hours, after_h)));
    assert(forall|i: int| 0 <= i < spart.len() ==> #[trigger] spart[i] != 'M');
    assert(after_h =~= unit_part(minutes, 'M') + spart);
    lemma_parse_next_unit(minutes, 'M', spart);
    assert(parse_next_spec(after_h, 'M') == Some((minutes, spart)));
    assert(spart =~= unit_part(secs, 'S') + Seq::<char>::empty());
    lemma_parse_next_unit(secs, 'S', Seq::<char>::empty());
    assert(parse_next_spec(spart, 'S') == Some((secs, Seq::<char>::empty())));

    // The accumulated total is the magnitude, signed back.
    let total = (365 * 0 + 31 * 0 + days) * 86400 + hours * 3600 + minutes * 60 + secs;
    assert(total == m);
    if n < 0 {
        assert(parse_duration(s) == Some(-total));
    } else {
        assert(parse_duration(s) == Some(total));
    }
}

/// Law: formatting normalizes once and for all. Whatever text a value was
/// parsed from, the canonical text parses back to the same value, so a
/// second parse-and-format round changes nothing.
pub proof fn lemma_format_after_parse_idempotent(s: Seq<char>, n: int)
    requires
        parse_duration(s) == Some(n),
        fits_i64(n),
    ensures
        parse_duration(fmt_duration(n)) == Some(n),
        fmt_duration(n) == fmt_duration(
            match parse_duration(fmt_duration(n)) {
                Some(v) => v,
                None => 0,
            },
        ),
{
    lemma_parse_fmt_duration(n);
}

} // verus!
