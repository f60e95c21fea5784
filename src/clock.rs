use vstd::prelude::*;

use crate::error::ScrapeError;

verus! {

/// One more than the largest value an `i32` field can hold.
pub const SECONDS_CAP: u64 = 2147483648;

pub open spec fn is_digit(c: char) -> bool {
    '0' <= c && c <= '9'
}

/// A non-empty run of ASCII decimal digits.
pub open spec fn all_digits(s: Seq<char>) -> bool {
    s.len() > 0 && forall|i: int| 0 <= i < s.len() ==> #[trigger] is_digit(s[i])
}

pub open spec fn digit_value(c: char) -> int {
    c as int - '0' as int
}

/// The decimal value of a run of digits, most significant first.
pub open spec fn digits_value(s: Seq<char>) -> int
    decreases s.len(),
{
    if s.len() == 0 {
        0
    } else {
        10 * digits_value(s.drop_last()) + digit_value(s.last())
    }
}

/// The text with one leading minus sign removed (the remaining-time display convention).
pub open spec fn unsigned_part(s: Seq<char>) -> Seq<char> {
    if s.len() > 0 && s[0] == '-' {
        s.drop_first()
    } else {
        s
    }
}

/// `s` is `mm:ss` with the colon at `k`.
pub open spec fn colon_at(s: Seq<char>, k: int) -> bool {
    0 <= k < s.len() && s[k] == ':' && all_digits(s.take(k)) && all_digits(s.skip(k + 1))
}

/// `s` is `mm:ss`, optionally led by `-`.
pub open spec fn is_clock(s: Seq<char>) -> bool {
    exists|k: int| colon_at(unsigned_part(s), k)
}

/// The seconds that a well-formed clock text shows: `60 * mm + ss`, sign ignored.
pub open spec fn clock_seconds(s: Seq<char>) -> int {
    let u = unsigned_part(s);
    let k = choose|k: int| colon_at(u, k);
    60 * digits_value(u.take(k)) + digits_value(u.skip(k + 1))
}

/// A clock text that `parse_clock` accepts: well formed, and its seconds fit in an `i32`.
pub open spec fn clock_parses(s: Seq<char>) -> bool {
    is_clock(s) && clock_seconds(s) < SECONDS_CAP
}

proof fn lemma_digits_value_nonneg(s: Seq<char>)
    requires
        forall|i: int| 0 <= i < s.len() ==> #[trigger] is_digit(s[i]),
    ensures
        digits_value(s) >= 0,
    decreases s.len(),
{
    if s.len() > 0 {
        let p = s.drop_last();
        assert forall|i: int| 0 <= i < p.len() implies #[trigger] is_digit(p[i]) by {
            assert(p[i] == s[i]);
        }
        assert(is_digit(s[s.len() - 1]));
        lemma_digits_value_nonneg(p);
    }
}

/// A clock value is never negative.
pub proof fn lemma_clock_seconds_nonneg(s: Seq<char>)
    requires
        is_clock(s),
    ensures
        clock_seconds(s) >= 0,
{
    let u = unsigned_part(s);
    let k = choose|k: int| colon_at(u, k);
    lemma_digits_value_nonneg(u.take(k));
    lemma_digits_value_nonneg(u.skip(k + 1));
}

/// A colon between two digit runs is the only colon of the text.
proof fn lemma_colon_unique(s: Seq<char>, k: int, j: int)
    requires
        colon_at(s, k),
        colon_at(s, j),
    ensures
        k == j,
{
    if j < k {
        assert(is_digit(s.take(k)[j]));
    } else if k < j {
        assert(is_digit(s.take(j)[k]));
    }
}

proof fn lemma_clock_value(s: Seq<char>, k: int)
    requires
        colon_at(unsigned_part(s), k),
    ensures
        is_clock(s),
        clock_seconds(s) == 60 * digits_value(unsigned_part(s).take(k)) + digits_value(
            unsigned_part(s).skip(k + 1),
        ),
{
    let u = unsigned_part(s);
    let c = choose|c: int| colon_at(u, c);
    lemma_colon_unique(u, k, c);
}

proof fn lemma_clock_shape(t: Seq<char>, a: Seq<char>, b: Seq<char>)
    requires
        all_digits(a),
        all_digits(b),
        t == a + seq![':'] + b || t == seq!['-'] + a + seq![':'] + b,
    ensures
        is_clock(t),
        clock_seconds(t) == 60 * digits_value(a) + digits_value(b),
{
    assert(is_digit(a[0]));
    let v = unsigned_part(t);
    if t == a + seq![':'] + b {
        assert(t[0] == a[0]);
    } else {
        assert(t[0] == '-');
    }
    assert(v =~= a + seq![':'] + b);
    assert(v.take(a.len() as int) =~= a);
    assert(v.skip(a.len() as int + 1) =~= b);
    lemma_clock_value(t, a.len() as int);
}

/// Reads the run of digits of `text` that starts at `start`: where it ends, and its value,
/// held at `SECONDS_CAP` once it reaches that.
fn scan_digits(text: &str, start: usize) -> (r: (usize, u64))
    requires
        start <= text@.len(),
    ensures
        start <= r.0 <= text@.len(),
        forall|i: int| start <= i < r.0 ==> #[trigger] is_digit(text@[i]),
        r.0 == text@.len() || !is_digit(text@[r.0 as int]),
        r.1 as int == if digits_value(text@.subrange(start as int, r.0 as int)) < SECONDS_CAP {
            digits_value(text@.subrange(start as int, r.0 as int))
        } else {
            SECONDS_CAP as int
        },
{
    let n = text.unicode_len();
    let mut i: usize = start;
    let mut acc: u64 = 0;
    while i < n
        invariant
            n == text@.len(),
            start <= i <= n,
            forall|j: int| start <= j < i ==> #[trigger] is_digit(text@[j]),
            acc as int == if digits_value(text@.subrange(start as int, i as int)) < SECONDS_CAP {
                digits_value(text@.subrange(start as int, i as int))
            } else {
                SECONDS_CAP as int
            },
        ensures
            i == n || !is_digit(text@[i as int]),
        decreases n - i,
    {
        let c = text.get_char(i);
        if !('0' <= c && c <= '9') {
            break;
        }
        let d = (c as u32 - '0' as u32) as u64;
        let ghost prev = text@.subrange(start as int, i as int);
        let ghost next = text@.subrange(start as int, i + 1);
        proof {
            assert(next.drop_last() =~= prev);
            assert(next.last() == c);
            lemma_digits_value_nonneg(prev);
        }
        if acc < SECONDS_CAP {
            acc = acc * 10 + d;
            if acc > SECONDS_CAP {
                acc = SECONDS_CAP;
            }
        }
        i = i + 1;
    }
    (i, acc)
}

/// Seconds shown by a time label of the form `mm:ss`. A leading `-` (a remaining time) is
/// dropped before reading, so `-1:30` gives 90. Any other shape, or a value that does not
/// fit in an `i32`, is a `ParseError`.
pub fn parse_clock(text: &str) -> (r: Result<i32, ScrapeError>)
    ensures
        r is Ok <==> clock_parses(text@),
        r is Ok ==> r->Ok_0 as int == clock_seconds(text@),
        r is Err ==> r->Err_0 == ScrapeError::ParseError,
        forall|mm: Seq<char>, ss: Seq<char>|
            #![trigger digits_value(mm), digits_value(ss)]
            all_digits(mm) && all_digits(ss) && (text@ == mm + seq![':'] + ss || text@ == seq![
                '-',
            ] + mm + seq![':'] + ss) && 60 * digits_value(mm) + digits_value(ss) < SECONDS_CAP
                ==> r is Ok && r->Ok_0 == 60 * digits_value(mm) + digits_value(ss),
{
    let r = read_clock(text);
    proof {
        assert forall|mm: Seq<char>, ss: Seq<char>|
            #![trigger digits_value(mm), digits_value(ss)]
            all_digits(mm) && all_digits(ss) && (text@ == mm + seq![':'] + ss || text@ == seq![
                '-',
            ] + mm + seq![':'] + ss) && 60 * digits_value(mm) + digits_value(ss) < SECONDS_CAP
                implies r is Ok && r->Ok_0 == 60 * digits_value(mm) + digits_value(ss) by {
            lemma_clock_shape(text@, mm, ss);
            lemma_digits_value_nonneg(mm);
            lemma_digits_value_nonneg(ss);
        }
    }
    r
}

fn read_clock(text: &str) -> (r: Result<i32, ScrapeError>)
    ensures
        r is Ok <==> clock_parses(text@),
        r is Ok ==> r->Ok_0 as int == clock_seconds(text@),
        r is Err ==> r->Err_0 == ScrapeError::ParseError,
{
    let n = text.unicode_len();
    let mut s: usize = 0;
    if n > 0 && text.get_char(0) == '-' {
        s = 1;
    }
    let ghost u = unsigned_part(text@);
    assert(u =~= text@.skip(s as int));
    let (k, mm) = scan_digits(text, s);
    if k == s || k >= n || text.get_char(k) != ':' {
        proof {
            if is_clock(text@) {
                let c = choose|c: int| colon_at(u, c);
                assert(is_digit(u.take(c)[0]));
                assert forall|i: int| s <= i < s + c implies is_digit(text@[i]) by {
                    assert(u.take(c)[i - s] == text@[i]);
                }
                assert(u[c] == text@[s + c]);
                assert(!is_digit(':'));
            }
        }
        return Err(ScrapeError::ParseError);
    }
    let (e, ss) = scan_digits(text, k + 1);
    let ghost minutes = text@.subrange(s as int, k as int);
    let ghost seconds = text@.subrange(k + 1, e as int);
    if e == k + 1 || e != n {
        proof {
            if is_clock(text@) {
                let c = choose|c: int| colon_at(u, c);
                assert forall|i: int| s <= i < s + c implies is_digit(text@[i]) by {
                    assert(u.take(c)[i - s] == text@[i]);
                }
                assert(u[c] == text@[s + c]);
                assert(!is_digit(':'));
                assert(k == s + c);
                assert(is_digit(u.skip(c + 1)[0]));
                assert forall|i: int| k + 1 <= i < n implies is_digit(text@[i]) by {
                    assert(u.skip(c + 1)[i - k - 1] == text@[i]);
                }
            }
        }
        return Err(ScrapeError::ParseError);
    }
    proof {
        let c = (k - s) as int;
        assert(u.take(c) =~= minutes);
        assert(u.skip(c + 1) =~= seconds);
        assert(colon_at(u, c));
        lemma_clock_value(text@, c);
        lemma_digits_value_nonneg(minutes);
        lemma_digits_value_nonneg(seconds);
    }
    let total: u64 = 60 * mm + ss;
    if total >= SECONDS_CAP {
        return Err(ScrapeError::ParseError);
    }
    Ok(total as i32)
}

} // verus!
