//! Scalars as they are written and read: in decimal, with up to three
//! places behind the point.

use vstd::prelude::*;
use crate::fixed::saturate;
use crate::text::push_char;
use vstd::string::StrSliceExecFns;

verus! {

/// The character of a digit.
pub open spec fn digit(d: int) -> char {
    (d + 48) as u8 as char
}

/// A natural number as it is written.
pub open spec fn numeral(n: nat) -> Seq<char>
    decreases n,
{
    if n < 10 {
        seq![digit(n as int)]
    } else {
        numeral(n / 10).push(digit((n % 10) as int))
    }
}

/// The thousandths of a scalar as they are written: nothing if there
/// are none, else a point and as many places as it takes.
pub open spec fn fraction(f: nat) -> Seq<char> {
    if f == 0 {
        Seq::empty()
    } else if f % 100 == 0 {
        seq!['.', digit((f / 100) as int)]
    } else if f % 10 == 0 {
        seq!['.', digit((f / 100) as int), digit((f / 10 % 10) as int)]
    } else {
        seq!['.', digit((f / 100) as int), digit((f / 10 % 10) as int), digit((f % 10) as int)]
    }
}

/// A scalar as it is written: a sign if it is below zero, its whole
/// part, and its thousandths.
pub open spec fn written(v: int) -> Seq<char> {
    if v < 0 {
        seq!['-'] + numeral(((-v) / 1000) as nat) + fraction(((-v) % 1000) as nat)
    } else {
        numeral((v / 1000) as nat) + fraction((v % 1000) as nat)
    }
}

fn digit_char(d: u64) -> (c: char)
    requires
        d < 10,
    ensures
        c == digit(d as int),
{
    ((d + 48) as u8) as char
}

fn push_numeral(text: &mut String, n: u64)
    ensures
        final(text)@ == old(text)@ + numeral(n as nat),
    decreases n,
{
    if n >= 10 {
        push_numeral(text, n / 10);
    }
    push_char(text, digit_char(n % 10));
    assert(text@ =~= old(text)@ + numeral(n as nat));
}

/// Writes a scalar.
pub fn number_text(v: i64) -> (r: String)
    ensures
        r@ == written(v as int),
{
    let mut text = String::new();
    let a: u64 = if v < 0 {
        push_char(&mut text, '-');
        (-(v as i128)) as u64
    } else {
        v as u64
    };
    push_numeral(&mut text, a / 1000);
    let f = a % 1000;
    if f != 0 {
        push_char(&mut text, '.');
        push_char(&mut text, digit_char(f / 100));
        if f % 100 != 0 {
            push_char(&mut text, digit_char(f / 10 % 10));
            if f % 10 != 0 {
                push_char(&mut text, digit_char(f % 10));
            }
        }
    }
    assert(text@ =~= written(v as int));
    text
}

/// The character is a digit.
pub open spec fn is_digit(c: char) -> bool {
    48 <= c as u32 <= 57
}

/// The number that a run of digits stands for.
pub open spec fn amount(s: Seq<char>) -> int
    decreases s.len(),
{
    if s.len() == 0 {
        0
    } else {
        amount(s.drop_last()) * 10 + (s.last() as u32 - 48)
    }
}

/// Every character of the text is a digit.
pub open spec fn all_digits(s: Seq<char>) -> bool {
    forall|i: int| 0 <= i < s.len() ==> is_digit(#[trigger] s[i])
}

/// The place of the first point in the text at or after `from`, or the
/// length of the text.
pub open spec fn point_at(s: Seq<char>, from: int) -> int
    decreases s.len() - from,
{
    if from < 0 || from >= s.len() {
        s.len() as int
    } else if s[from] == '.' {
        from
    } else {
        point_at(s, from + 1)
    }
}

/// What stands before the first point.
pub open spec fn whole(s: Seq<char>) -> Seq<char> {
    s.take(point_at(s, 0))
}

/// What stands behind the first point.
pub open spec fn places(s: Seq<char>) -> Seq<char> {
    if point_at(s, 0) < s.len() {
        s.skip(point_at(s, 0) + 1)
    } else {
        Seq::empty()
    }
}

/// The thousandths that up to three places stand for.
pub open spec fn thousandths(s: Seq<char>) -> int {
    if s.len() == 1 {
        amount(s) * 100
    } else if s.len() == 2 {
        amount(s) * 10
    } else {
        amount(s)
    }
}

/// The places that count: the first three.
pub open spec fn counted(s: Seq<char>) -> Seq<char> {
    if s.len() > 3 {
        s.take(3)
    } else {
        s
    }
}

/// The scalar that an unsigned text stands for: digits, and behind a
/// point more digits, of which the first three count; one digit at
/// least. Nothing else is a scalar.
pub open spec fn plain(s: Seq<char>) -> Option<int> {
    if all_digits(whole(s)) && all_digits(places(s)) && whole(s).len() + places(s).len() >= 1 {
        Some(amount(whole(s)) * 1000 + thousandths(counted(places(s))))
    } else {
        None
    }
}

/// The scalar that a text stands for: a scalar without a sign, or one
/// behind a minus sign.
pub open spec fn read(text: Seq<char>) -> Option<int> {
    if text.len() > 0 && text[0] == '-' {
        match plain(text.skip(1)) {
            Some(v) => Some(-v),
            None => None,
        }
    } else {
        plain(text)
    }
}

/// The most that a run of digits is counted up to: far beyond any
/// scalar.
pub const FAR: i128 = 1_000_000_000_000_000_000_000_000;

/// `amount`, one digit on.
proof fn lemma_amount_step(s: Seq<char>, i: int)
    requires
        0 <= i < s.len(),
    ensures
        amount(s.take(i + 1)) == amount(s.take(i)) * 10 + (s[i] as u32 - 48),
        all_digits(s.take(i)) ==> amount(s.take(i)) >= 0,
    decreases i,
{
    assert(s.take(i + 1).drop_last() =~= s.take(i));
    if i > 0 {
        lemma_amount_step(s, i - 1);
        assert(s.take(i)[i - 1] == s[i - 1]);
    }
}

/// Reads the digits of `text` from `from` to the first character that
/// is no digit, or to the end. The result is where the digits end and
/// what they stand for, counted up to `FAR`.
fn read_digits(text: &str, from: usize) -> (r: (usize, i128))
    requires
        from <= text@.len(),
    ensures
        from <= r.0 <= text@.len(),
        all_digits(text@.subrange(from as int, r.0 as int)),
        r.0 < text@.len() ==> !is_digit(text@[r.0 as int]),
        r.1 == if amount(text@.subrange(from as int, r.0 as int)) < FAR {
            amount(text@.subrange(from as int, r.0 as int))
        } else {
            FAR as int
        },
        0 <= r.1 <= FAR,
{
    let n = text.unicode_len();
    let mut i = from;
    let mut total: i128 = 0;
    let ghost body = text@.skip(from as int);
    proof {
        assert(text@.subrange(from as int, from as int) =~= Seq::<char>::empty());
    }
    while i < n
        invariant
            n == text@.len(),
            from <= i <= n,
            body == text@.skip(from as int),
            all_digits(text@.subrange(from as int, i as int)),
            0 <= total <= FAR,
            amount(text@.subrange(from as int, i as int)) >= 0,
            total == if amount(text@.subrange(from as int, i as int)) < FAR {
                amount(text@.subrange(from as int, i as int))
            } else {
                FAR as int
            },
        decreases n - i,
    {
        let c = text.get_char(i);
        let code = c as u32;
        if code < 48 || code > 57 {
            return (i, total);
        }
        proof {
            lemma_amount_step(body, i - from);
            assert(body.take(i - from) =~= text@.subrange(from as int, i as int));
            assert(body.take(i - from + 1) =~= text@.subrange(from as int, i + 1));
            assert(body[i - from] == c);
            assert forall|k: int| 0 <= k < i + 1 - from implies is_digit(
                #[trigger] text@.subrange(from as int, i + 1)[k],
            ) by {
                if k < i - from {
                    assert(text@.subrange(from as int, i as int)[k] == text@.subrange(
                        from as int,
                        i + 1,
                    )[k]);
                }
            }
        }
        let next: i128 = total * 10 + (code as i128 - 48);
        total = if next < FAR {
            next
        } else {
            FAR
        };
        i += 1;
    }
    (i, total)
}

/// Where no point stands between `from` and `to`, the first point from
/// `from` on is the first from `to` on.
proof fn lemma_point_skips(s: Seq<char>, from: int, to: int)
    requires
        0 <= from <= to <= s.len(),
        forall|k: int| from <= k < to ==> s[k] != '.',
    ensures
        point_at(s, from) == point_at(s, to),
        point_at(s, to) >= to,
    decreases to - from,
{
    if from < to {
        lemma_point_skips(s, from + 1, to);
    } else {
        lemma_point_from(s, to);
    }
}

/// The first point from `from` on stands at `from` or behind it.
proof fn lemma_point_from(s: Seq<char>, from: int)
    requires
        0 <= from <= s.len(),
    ensures
        from <= point_at(s, from) <= s.len(),
    decreases s.len() - from,
{
    if from < s.len() && s[from] != '.' {
        lemma_point_from(s, from + 1);
    }
}

/// Up to three digits stand for less than a thousand.
proof fn lemma_amount_small(s: Seq<char>)
    requires
        all_digits(s),
        s.len() <= 3,
    ensures
        0 <= amount(s) <= 999,
        s.len() <= 2 ==> amount(s) <= 99,
        s.len() <= 1 ==> amount(s) <= 9,
    decreases s.len(),
{
    if s.len() > 0 {
        assert(is_digit(s[s.len() - 1]));
        assert forall|i: int| 0 <= i < s.drop_last().len() implies is_digit(
            #[trigger] s.drop_last()[i],
        ) by {
            assert(s.drop_last()[i] == s[i]);
        }
        lemma_amount_small(s.drop_last());
    }
}

/// Digits stand for a number that is zero or more.
proof fn lemma_amount_sign(s: Seq<char>)
    requires
        all_digits(s),
    ensures
        amount(s) >= 0,
    decreases s.len(),
{
    if s.len() > 0 {
        assert(is_digit(s[s.len() - 1]));
        assert forall|i: int| 0 <= i < s.drop_last().len() implies is_digit(
            #[trigger] s.drop_last()[i],
        ) by {
            assert(s.drop_last()[i] == s[i]);
        }
        lemma_amount_sign(s.drop_last());
    }
}

/// Reads a scalar without a sign from `text`, from `start` on.
fn parse_plain(text: &str, start: usize) -> (r: Option<i128>)
    requires
        start <= text@.len(),
    ensures
        match plain(text@.skip(start as int)) {
            Some(v) => r == Some(
                if v < FAR * 1000 {
                    v as i128
                } else {
                    (FAR * 1000) as i128
                },
            ) && v >= 0,
            None => r is None,
        },
{
    let n = text.unicode_len();
    let ghost body = text@.skip(start as int);
    let (end, total) = read_digits(text, start);
    proof {
        assert(body.take(end - start) =~= text@.subrange(start as int, end as int));
        assert forall|k: int| 0 <= k < end - start implies body[k] != '.' by {
            assert(is_digit(text@.subrange(start as int, end as int)[k]));
        }
        lemma_point_skips(body, 0, end - start);
        lemma_amount_sign(body.take(end - start));
    }
    if end == n {
        proof {
            assert(point_at(body, 0) == body.len());
            assert(whole(body) =~= body.take(end - start));
        }
        if end == start {
            return None;
        }
        return Some(
            if total < FAR {
                total * 1000
            } else {
                FAR * 1000
            },
        );
    }
    if text.get_char(end) != '.' {
        proof {
            assert(body[end - start] == text@[end as int]);
            assert forall|k: int| 0 <= k < end - start + 1 implies body[k] != '.' by {
                if k < end - start {
                    assert(is_digit(text@.subrange(start as int, end as int)[k]));
                }
            }
            lemma_point_skips(body, 0, end - start + 1);
            lemma_point_from(body, 0);
            let w = whole(body);
            assert(w.len() > end - start);
            assert(w[end - start] == body[end - start]);
            assert(!is_digit(w[end - start]));
        }
        return None;
    }
    proof {
        assert(body[end - start] == '.');
        assert(point_at(body, 0) == end - start);
        assert(whole(body) =~= body.take(end - start));
        assert(places(body) =~= text@.subrange(end + 1, n as int));
    }
    let (last, part) = read_digits(text, end + 1);
    if last < n {
        proof {
            assert(places(body)[last - end - 1] == text@[last as int]);
        }
        return None;
    }
    let count = n - end - 1;
    if end == start && count == 0 {
        return None;
    }
    proof {
        assert(all_digits(places(body)));
    }
    let scaled: i128 = if count > 3 {
        let head = text.substring_char(end + 1, end + 4);
        let (stop, first) = read_digits(head, 0);
        proof {
            assert(head@ =~= places(body).take(3));
            assert forall|k: int| 0 <= k < 3 implies is_digit(#[trigger] head@[k]) by {
                assert(head@[k] == places(body)[k]);
            }
            assert(stop == 3);
            assert(head@.subrange(0, 3) =~= head@);
            lemma_amount_small(head@);
        }
        first
    } else {
        proof {
            lemma_amount_small(places(body));
        }
        if count == 1 {
            part * 100
        } else if count == 2 {
            part * 10
        } else {
            part
        }
    };
    Some(
        if total < FAR {
            total * 1000 + scaled
        } else {
            FAR * 1000
        },
    )
}

/// Reads a scalar. Places behind the third are dropped. A scalar beyond
/// the range of `i64` is read as the nearest that is in range.
pub fn parse_number(text: &str) -> (r: Option<i64>)
    ensures
        r == match read(text@) {
            Some(v) => Some(saturate(v) as i64),
            None => None,
        },
{
    let n = text.unicode_len();
    if n > 0 && text.get_char(0) == '-' {
        match parse_plain(text, 1) {
            Some(v) => Some(crate::fixed::narrow(-v)),
            None => None,
        }
    } else {
        proof {
            assert(text@.skip(0) =~= text@);
        }
        match parse_plain(text, 0) {
            Some(v) => Some(crate::fixed::narrow(v)),
            None => None,
        }
    }
}

/// The character of a digit is a digit, and stands for it.
proof fn lemma_digit(d: int)
    requires
        0 <= d < 10,
    ensures
        is_digit(digit(d)),
        digit(d) as u32 - 48 == d,
        digit(d) != '.',
        digit(d) != '-',
{
}

/// A number as it is written is a run of digits that stands for the
/// number.
proof fn lemma_numeral(n: nat)
    ensures
        numeral(n).len() >= 1,
        all_digits(numeral(n)),
        amount(numeral(n)) == n,
    decreases n,
{
    reveal_with_fuel(amount, 2);
    if n < 10 {
        lemma_digit(n as int);
        assert(numeral(n).drop_last() =~= Seq::<char>::empty());
        assert(numeral(n).last() == digit(n as int));
    } else {
        lemma_numeral(n / 10);
        lemma_digit((n % 10) as int);
        assert(numeral(n).drop_last() =~= numeral(n / 10));
        assert(numeral(n).last() == digit((n % 10) as int));
    }
}

/// What is written without a sign is read back.
proof fn lemma_plain_round_trip(v: nat)
    ensures
        plain(numeral(v / 1000) + fraction(v % 1000)) == Some(v as int),
        (numeral(v / 1000) + fraction(v % 1000))[0] != '-',
{
    let head = numeral(v / 1000);
    let f = v % 1000;
    let tail = fraction(f);
    let s = head + tail;
    lemma_numeral(v / 1000);
    lemma_digit((f / 100) as int);
    lemma_digit((f / 10 % 10) as int);
    lemma_digit((f % 10) as int);
    assert(s[0] == head[0]);
    assert(is_digit(head[0]));
    assert forall|k: int| 0 <= k < head.len() implies s[k] != '.' by {
        assert(s[k] == head[k]);
        assert(is_digit(head[k]));
    }
    if f == 0 {
        assert(s =~= head);
        lemma_point_skips(s, 0, s.len() as int);
        assert(whole(s) =~= head);
        assert(places(s) =~= Seq::<char>::empty());
    } else {
        lemma_point_skips(s, 0, head.len() as int);
        assert(s[head.len() as int] == tail[0]);
        assert(point_at(s, 0) == head.len());
        assert(whole(s) =~= head);
        let p = places(s);
        assert(p =~= tail.skip(1));
        if f % 100 == 0 {
            assert(p =~= seq![digit((f / 100) as int)]);
            assert(p.drop_last() =~= Seq::<char>::empty());
            assert(amount(p) == f / 100) by {
                reveal_with_fuel(amount, 2);
            }
        } else if f % 10 == 0 {
            assert(p =~= seq![digit((f / 100) as int), digit((f / 10 % 10) as int)]);
            assert(p.drop_last() =~= seq![digit((f / 100) as int)]);
            assert(p.drop_last().drop_last() =~= Seq::<char>::empty());
            assert(amount(p) == (f / 100) * 10 + f / 10 % 10) by {
                reveal_with_fuel(amount, 3);
            }
        } else {
            assert(p =~= seq![
                digit((f / 100) as int),
                digit((f / 10 % 10) as int),
                digit((f % 10) as int),
            ]);
            assert(p.drop_last() =~= seq![digit((f / 100) as int), digit((f / 10 % 10) as int)]);
            assert(p.drop_last().drop_last() =~= seq![digit((f / 100) as int)]);
            assert(p.drop_last().drop_last().drop_last() =~= Seq::<char>::empty());
            assert(amount(p) == ((f / 100) * 10 + f / 10 % 10) * 10 + f % 10) by {
                reveal_with_fuel(amount, 4);
            }
        }
        assert forall|k: int| 0 <= k < p.len() implies is_digit(#[trigger] p[k]) by {}
    }
}

/// What is written is read back: a scalar that is written and then read
/// is the scalar that was written.
pub proof fn lemma_written_is_read(v: int)
    ensures
        read(written(v)) == Some(v),
{
    if v < 0 {
        let body = numeral(((-v) / 1000) as nat) + fraction(((-v) % 1000) as nat);
        lemma_plain_round_trip((-v) as nat);
        assert(written(v) =~= seq!['-'] + body);
        assert(written(v).skip(1) =~= body);
        assert(written(v)[0] == '-');
    } else {
        lemma_plain_round_trip(v as nat);
    }
}

} // verus!
