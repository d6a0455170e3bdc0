//! Character-level helpers shared by the leaf codecs and by wire-key
//! derivation: decimal digit strings, first-occurrence search, and prefix
//! trimming, each with a mathematical description and the lemmas that tie
//! the two together.

use vstd::prelude::*;

verus! {

/// Whether `c` is a decimal digit.
pub open spec fn is_digit(c: char) -> bool {
    48 <= c as u32 && c as u32 <= 57
}

/// The numeric value of a digit character.
pub open spec fn digit_val(c: char) -> int {
    (c as u32) as int - 48
}

/// The digit character for a value in `0..10`.
pub open spec fn digit_char(d: int) -> char {
    if d == 0 {
        '0'
    } else if d == 1 {
        '1'
    } else if d == 2 {
        '2'
    } else if d == 3 {
        '3'
    } else if d == 4 {
        '4'
    } else if d == 5 {
        '5'
    } else if d == 6 {
        '6'
    } else if d == 7 {
        '7'
    } else if d == 8 {
        '8'
    } else {
        '9'
    }
}

/// Whether every character of `s` is a decimal digit.
pub open spec fn all_digits(s: Seq<char>) -> bool {
    forall|i: int| 0 <= i < s.len() ==> is_digit(#[trigger] s[i])
}

/// The value of a digit string, most significant digit first.
pub open spec fn digits_val(s: Seq<char>) -> int
    decreases s.len(),
{
    if s.len() == 0 {
        0
    } else {
        digits_val(s.drop_last()) * 10 + digit_val(s.last())
    }
}

/// The canonical (no leading zero) digit string of `n >= 0`.
pub open spec fn dec_digits(n: int) -> Seq<char>
    decreases n,
{
    if n < 10 {
        seq![digit_char(n)]
    } else {
        dec_digits(n / 10).push(digit_char(n % 10))
    }
}

/// The index of the first occurrence of `c` in `s`, or `-1`.
pub open spec fn find_char(s: Seq<char>, c: char) -> int
    decreases s.len(),
{
    if s.len() == 0 {
        -1
    } else if s[0] == c {
        0
    } else {
        let r = find_char(s.subrange(1, s.len() as int), c);
        if r == -1 {
            -1
        } else {
            r + 1
        }
    }
}

/// `s` with every leading `c` removed.
pub open spec fn trim_leading(s: Seq<char>, c: char) -> Seq<char>
    decreases s.len(),
{
    if s.len() > 0 && s[0] == c {
        trim_leading(s.subrange(1, s.len() as int), c)
    } else {
        s
    }
}

/// The canonical digit string of `n` is made of digits, is non-empty, and
/// reads back as `n`.
pub proof fn lemma_dec_digits(n: int)
    requires
        n >= 0,
    ensures
        all_digits(dec_digits(n)),
        dec_digits(n).len() > 0,
        digits_val(dec_digits(n)) == n,
    decreases n,
{
    if n < 10 {
        let d = seq![digit_char(n)];
        assert(dec_digits(n) == d);
        assert(d.drop_last() =~= Seq::<char>::empty());
        assert(digits_val(d) == digits_val(d.drop_last()) * 10 + digit_val(d.last()));
        assert(digits_val(Seq::<char>::empty()) == 0);
        assert(d.last() == digit_char(n));
        assert(is_digit(digit_char(n)));
        assert(digit_val(digit_char(n)) == n);
    } else {
        lemma_dec_digits(n / 10);
        let d = dec_digits(n / 10).push(digit_char(n % 10));
        assert(dec_digits(n) == d);
        assert(d.drop_last() =~= dec_digits(n / 10));
        assert(d.last() == digit_char(n % 10));
        assert(is_digit(digit_char(n % 10)));
        assert(digit_val(digit_char(n % 10)) == n % 10);
        assert(digits_val(d) == digits_val(d.drop_last()) * 10 + digit_val(d.last()));
        assert(digits_val(d) == (n / 10) * 10 + n % 10);
        assert((n / 10) * 10 + n % 10 == n);
        assert(forall|i: int| 0 <= i < d.len() ==> is_digit(d[i]));
    }
}

/// If no character of `s` is `c`, the search misses.
pub proof fn lemma_find_char_none(s: Seq<char>, c: char)
    requires
        forall|i: int| 0 <= i < s.len() ==> s[i] != c,
    ensures
        find_char(s, c) == -1,
    decreases s.len(),
{
    if s.len() > 0 {
        lemma_find_char_none(s.subrange(1, s.len() as int), c);
    }
}

/// If `c` first appears at `f`, the search returns `f`.
pub proof fn lemma_find_char_is(s: Seq<char>, c: char, f: int)
    requires
        0 <= f < s.len(),
        s[f] == c,
        forall|i: int| 0 <= i < f ==> s[i] != c,
    ensures
        find_char(s, c) == f,
    decreases s.len(),
{
    if f > 0 {
        lemma_find_char_is(s.subrange(1, s.len() as int), c, f - 1);
    }
}

/// A found index is in range, holds `c`, and nothing before it does.
pub proof fn lemma_find_char_found(s: Seq<char>, c: char)
    requires
        find_char(s, c) != -1,
    ensures
        0 <= find_char(s, c) < s.len(),
        s[find_char(s, c)] == c,
        forall|i: int| 0 <= i < find_char(s, c) ==> s[i] != c,
    decreases s.len(),
{
    if s.len() == 0 {
        assert(find_char(s, c) == -1);
    } else if s[0] == c {
        assert(find_char(s, c) == 0);
    } else {
        let t = s.subrange(1, s.len() as int);
        assert(find_char(t, c) != -1);
        lemma_find_char_found(t, c);
        let f = find_char(s, c);
        assert(f == find_char(t, c) + 1);
        assert(s[f] == t[f - 1]);
        assert forall|i: int| 0 <= i < f implies s[i] != c by {
            if i > 0 {
                assert(s[i] == t[i - 1]);
            }
        }
    }
}

/// Trimming removes exactly the run of leading `c`s: if the first `k`
/// characters are `c` and the next one is not, the trim is `s.skip(k)`.
pub proof fn lemma_trim_leading_run(s: Seq<char>, c: char, k: int)
    requires
        0 <= k <= s.len(),
        forall|i: int| 0 <= i < k ==> s[i] == c,
        k < s.len() ==> s[k] != c,
    ensures
        trim_leading(s, c) == s.subrange(k, s.len() as int),
    decreases s.len(),
{
    if k == 0 {
        assert(s.subrange(0, s.len() as int) =~= s);
    } else {
        let t = s.subrange(1, s.len() as int);
        lemma_trim_leading_run(t, c, k - 1);
        assert(t.subrange(k - 1, t.len() as int) =~= s.subrange(k, s.len() as int));
    }
}

/// The upper-case form of an ASCII letter; any other character is kept.
pub open spec fn ascii_upper(c: char) -> char {
    if c == 'a' { 'A' } else if c == 'b' { 'B' } else if c == 'c' { 'C' }
    else if c == 'd' { 'D' } else if c == 'e' { 'E' } else if c == 'f' { 'F' }
    else if c == 'g' { 'G' } else if c == 'h' { 'H' } else if c == 'i' { 'I' }
    else if c == 'j' { 'J' } else if c == 'k' { 'K' } else if c == 'l' { 'L' }
    else if c == 'm' { 'M' } else if c == 'n' { 'N' } else if c == 'o' { 'O' }
    else if c == 'p' { 'P' } else if c == 'q' { 'Q' } else if c == 'r' { 'R' }
    else if c == 's' { 'S' } else if c == 't' { 'T' } else if c == 'u' { 'U' }
    else if c == 'v' { 'V' } else if c == 'w' { 'W' } else if c == 'x' { 'X' }
    else if c == 'y' { 'Y' } else if c == 'z' { 'Z' } else { c }
}

/// The lower-case form of an ASCII letter; any other character is kept.
pub open spec fn ascii_lower(c: char) -> char {
    if c == 'A' { 'a' } else if c == 'B' { 'b' } else if c == 'C' { 'c' }
    else if c == 'D' { 'd' } else if c == 'E' { 'e' } else if c == 'F' { 'f' }
    else if c == 'G' { 'g' } else if c == 'H' { 'h' } else if c == 'I' { 'i' }
    else if c == 'J' { 'j' } else if c == 'K' { 'k' } else if c == 'L' { 'l' }
    else if c == 'M' { 'm' } else if c == 'N' { 'n' } else if c == 'O' { 'o' }
    else if c == 'P' { 'p' } else if c == 'Q' { 'q' } else if c == 'R' { 'r' }
    else if c == 'S' { 's' } else if c == 'T' { 't' } else if c == 'U' { 'u' }
    else if c == 'V' { 'v' } else if c == 'W' { 'w' } else if c == 'X' { 'x' }
    else if c == 'Y' { 'y' } else if c == 'Z' { 'z' } else { c }
}

/// Whether `c` is an upper-case ASCII letter.
pub open spec fn is_ascii_upper(c: char) -> bool {
    65 <= c as u32 && c as u32 <= 90
}

/// Camel-casing of a snake-case name: underscores are dropped and the
/// character after each one is upper-cased; `up` says whether the next
/// character begins a word.
pub open spec fn camel_seq(s: Seq<char>, up: bool) -> Seq<char>
    decreases s.len(),
{
    if s.len() == 0 {
        Seq::empty()
    } else if s[0] == '_' {
        camel_seq(s.subrange(1, s.len() as int), true)
    } else {
        seq![
            if up {
                ascii_upper(s[0])
            } else {
                s[0]
            },
        ] + camel_seq(s.subrange(1, s.len() as int), false)
    }
}

/// Snake-casing: each upper-case letter is lower-cased, preceded by an
/// underscore unless it starts the text.
pub open spec fn snake_seq(s: Seq<char>, first: bool) -> Seq<char>
    decreases s.len(),
{
    if s.len() == 0 {
        Seq::empty()
    } else {
        (if is_ascii_upper(s[0]) {
            if first {
                seq![ascii_lower(s[0])]
            } else {
                seq!['_', ascii_lower(s[0])]
            }
        } else {
            seq![s[0]]
        }) + snake_seq(s.subrange(1, s.len() as int), false)
    }
}

/// The upper-case form of a character.
pub fn upper_char(c: char) -> (r: char)
    ensures
        r == ascii_upper(c),
{
    let code = c as u32;
    if 97 <= code && code <= 122 {
        if c == 'a' { 'A' } else if c == 'b' { 'B' } else if c == 'c' { 'C' }
        else if c == 'd' { 'D' } else if c == 'e' { 'E' } else if c == 'f' { 'F' }
        else if c == 'g' { 'G' } else if c == 'h' { 'H' } else if c == 'i' { 'I' }
        else if c == 'j' { 'J' } else if c == 'k' { 'K' } else if c == 'l' { 'L' }
        else if c == 'm' { 'M' } else if c == 'n' { 'N' } else if c == 'o' { 'O' }
        else if c == 'p' { 'P' } else if c == 'q' { 'Q' } else if c == 'r' { 'R' }
        else if c == 's' { 'S' } else if c == 't' { 'T' } else if c == 'u' { 'U' }
        else if c == 'v' { 'V' } else if c == 'w' { 'W' } else if c == 'x' { 'X' }
        else if c == 'y' { 'Y' } else { 'Z' }
    } else {
        c
    }
}

/// The lower-case form of a character.
pub fn lower_char(c: char) -> (r: char)
    ensures
        r == ascii_lower(c),
{
    let code = c as u32;
    if 65 <= code && code <= 90 {
        if c == 'A' { 'a' } else if c == 'B' { 'b' } else if c == 'C' { 'c' }
        else if c == 'D' { 'd' } else if c == 'E' { 'e' } else if c == 'F' { 'f' }
        else if c == 'G' { 'g' } else if c == 'H' { 'h' } else if c == 'I' { 'i' }
        else if c == 'J' { 'j' } else if c == 'K' { 'k' } else if c == 'L' { 'l' }
        else if c == 'M' { 'm' } else if c == 'N' { 'n' } else if c == 'O' { 'o' }
        else if c == 'P' { 'p' } else if c == 'Q' { 'q' } else if c == 'R' { 'r' }
        else if c == 'S' { 's' } else if c == 'T' { 't' } else if c == 'U' { 'u' }
        else if c == 'V' { 'v' } else if c == 'W' { 'w' } else if c == 'X' { 'x' }
        else if c == 'Y' { 'y' } else { 'z' }
    } else {
        c
    }
}

/// The camel-case form of `s`, first word capitalized: the shape of a
/// generated type name.
#[verifier::loop_isolation(false)]
pub fn camelize(s: &str) -> (r: String)
    ensures
        r@ == camel_seq(s@, true),
{
    camel_convert(s, true)
}

/// The camel-case form of `s` with the first word kept lower-case: the
/// default wire key of a property name.
#[verifier::loop_isolation(false)]
pub fn camel_key(s: &str) -> (r: String)
    ensures
        r@ == camel_seq(s@, false),
{
    camel_convert(s, false)
}

/// Camel-cases `s`, capitalizing the first word when `up_start` asks.
#[verifier::loop_isolation(false)]
fn camel_convert(s: &str, up_start: bool) -> (r: String)
    ensures
        r@ == camel_seq(s@, up_start),
{
    let n = s.unicode_len();
    let mut out = String::new();
    let mut up = up_start;
    let mut i: usize = 0;
    proof {
        assert(s@.subrange(0, n as int) =~= s@);
        assert(Seq::<char>::empty() + camel_seq(s@, up_start) =~= camel_seq(s@, up_start));
    }
    while i < n
        invariant
            0 <= i <= n,
            out@ + camel_seq(s@.subrange(i as int, n as int), up) == camel_seq(s@, up_start),
        decreases n - i,
    {
        let c = s.get_char(i);
        let ghost tail = s@.subrange(i as int, n as int);
        let ghost out0 = out@;
        let ghost up_here = up;
        if c == '_' {
            up = true;
        } else if up {
            crate::text::push_char(&mut out, upper_char(c));
            up = false;
        } else {
            crate::text::push_char(&mut out, c);
        }
        i = i + 1;
        proof {
            assert(tail.subrange(1, tail.len() as int) =~= s@.subrange(i as int, n as int));
            if tail[0] == '_' {
                assert(camel_seq(tail, up_here) == camel_seq(
                    s@.subrange(i as int, n as int),
                    true,
                ));
            } else {
                let head = seq![
                    if up_here {
                        ascii_upper(tail[0])
                    } else {
                        tail[0]
                    },
                ];
                assert(camel_seq(tail, up_here) == head + camel_seq(
                    s@.subrange(i as int, n as int),
                    false,
                ));
                assert(out@ =~= out0 + head);
                assert(out0 + (head + camel_seq(s@.subrange(i as int, n as int), false))
                    =~= (out0 + head) + camel_seq(s@.subrange(i as int, n as int), false));
            }
        }
    }
    proof {
        assert(s@.subrange(n as int, n as int) =~= Seq::<char>::empty());
        assert(out@ + Seq::<char>::empty() =~= out@);
    }
    out
}

/// The snake-case form of `s`: the shape of a generated accessor name.
#[verifier::loop_isolation(false)]
pub fn snakize(s: &str) -> (r: String)
    ensures
        r@ == snake_seq(s@, true),
{
    let n = s.unicode_len();
    let mut out = String::new();
    let mut i: usize = 0;
    proof {
        assert(s@.subrange(0, n as int) =~= s@);
        assert(Seq::<char>::empty() + snake_seq(s@, true) =~= snake_seq(s@, true));
    }
    while i < n
        invariant
            0 <= i <= n,
            out@ + snake_seq(s@.subrange(i as int, n as int), i == 0) == snake_seq(s@, true),
        decreases n - i,
    {
        let c = s.get_char(i);
        let ghost tail = s@.subrange(i as int, n as int);
        let ghost out0 = out@;
        let ghost first = i == 0;
        let code = c as u32;
        if 65 <= code && code <= 90 {
            if i != 0 {
                crate::text::push_char(&mut out, '_');
            }
            crate::text::push_char(&mut out, lower_char(c));
        } else {
            crate::text::push_char(&mut out, c);
        }
        i = i + 1;
        proof {
            assert(tail.subrange(1, tail.len() as int) =~= s@.subrange(i as int, n as int));
            let head: Seq<char> = if is_ascii_upper(tail[0]) {
                if first {
                    seq![ascii_lower(tail[0])]
                } else {
                    seq!['_', ascii_lower(tail[0])]
                }
            } else {
                seq![tail[0]]
            };
            assert(snake_seq(tail, first) == head + snake_seq(
                s@.subrange(i as int, n as int),
                false,
            ));
            assert(out@ =~= out0 + head);
            assert(out0 + (head + snake_seq(s@.subrange(i as int, n as int), false))
                =~= (out0 + head) + snake_seq(s@.subrange(i as int, n as int), false));
        }
    }
    proof {
        assert(s@.subrange(n as int, n as int) =~= Seq::<char>::empty());
        assert(out@ + Seq::<char>::empty() =~= out@);
    }
    out
}

/// Relies on `String::push`: appends the given character to the end of
/// the string.
#[verifier::external_body]
pub fn push_char(s: &mut String, c: char)
    ensures
        final(s)@ == old(s)@.push(c),
{
    s.push(c);
}

/// A missed search means no character matches.
pub proof fn lemma_find_char_miss(s: Seq<char>, c: char)
    requires
        find_char(s, c) == -1,
    ensures
        forall|i: int| 0 <= i < s.len() ==> s[i] != c,
    decreases s.len(),
{
    if s.len() > 0 {
        let t = s.subrange(1, s.len() as int);
        assert(s[0] != c);
        if find_char(t, c) != -1 {
            lemma_find_char_found(t, c);
            assert(false);
        }
        lemma_find_char_miss(t, c);
        assert forall|i: int| 0 <= i < s.len() implies s[i] != c by {
            if i > 0 {
                assert(s[i] == t[i - 1]);
            }
        }
    }
}

/// Searching a concatenation: a hit in the left part wins, otherwise the
/// right part is searched at an offset.
pub proof fn lemma_find_char_concat(s1: Seq<char>, s2: Seq<char>, c: char)
    ensures
        find_char(s1 + s2, c) == if find_char(s1, c) != -1 {
            find_char(s1, c)
        } else if find_char(s2, c) == -1 {
            -1
        } else {
            s1.len() + find_char(s2, c)
        },
{
    let s = s1 + s2;
    if find_char(s1, c) != -1 {
        lemma_find_char_found(s1, c);
        let f = find_char(s1, c);
        assert(s[f] == s1[f]);
        assert forall|i: int| 0 <= i < f implies s[i] != c by {
            assert(s[i] == s1[i]);
        }
        lemma_find_char_is(s, c, f);
    } else {
        lemma_find_char_miss(s1, c);
        if find_char(s2, c) == -1 {
            lemma_find_char_miss(s2, c);
            assert forall|i: int| 0 <= i < s.len() implies s[i] != c by {
                if i >= s1.len() {
                    assert(s[i] == s2[i - s1.len()]);
                }
            }
            lemma_find_char_none(s, c);
        } else {
            lemma_find_char_found(s2, c);
            let f = s1.len() + find_char(s2, c);
            assert(s[f] == s2[f - s1.len()]);
            assert forall|i: int| 0 <= i < f implies s[i] != c by {
                if i >= s1.len() {
                    assert(s[i] == s2[i - s1.len()]);
                }
            }
            lemma_find_char_is(s, c, f);
        }
    }
}

} // verus!
