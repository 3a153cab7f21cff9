//! Labels sort as their instants do.
//!
//! Backups are told apart by name alone, so the order of the names as text
//! has to be the order in time. This holds because every field of a label
//! has a fixed width and the fields stand from the longest span of time to
//! the shortest.

use crate::digits::{decimal, digit_char, padded};
use crate::timestamp::Timestamp;
use vstd::prelude::*;

verus! {

/// `a` and `b` agree before position `k`, and at `k` either `a` has ended
/// while `b` goes on, or `a` holds the lesser character.
pub open spec fn first_difference(a: Seq<char>, b: Seq<char>, k: int) -> bool {
    &&& 0 <= k <= a.len()
    &&& k < b.len()
    &&& forall|j: int| 0 <= j < k ==> a[j] == b[j]
    &&& k < a.len() ==> (a[k] as u32) < (b[k] as u32)
}

/// `a` comes before `b` in the order of texts: character by character, a
/// text before each of its extensions.
pub open spec fn text_before(a: Seq<char>, b: Seq<char>) -> bool {
    exists|k: int| first_difference(a, b, k)
}

/// `a` is an earlier instant than `b`.
pub open spec fn earlier(a: Timestamp, b: Timestamp) -> bool {
    if a.year != b.year {
        a.year < b.year
    } else if a.month != b.month {
        a.month < b.month
    } else if a.day != b.day {
        a.day < b.day
    } else if a.hour != b.hour {
        a.hour < b.hour
    } else if a.minute != b.minute {
        a.minute < b.minute
    } else {
        a.second < b.second
    }
}

/// Texts that begin with parts of one length are ordered by those parts,
/// and by what follows where the parts are equal.
pub proof fn lemma_before_concat(p1: Seq<char>, r1: Seq<char>, p2: Seq<char>, r2: Seq<char>)
    requires
        p1.len() == p2.len(),
    ensures
        text_before(p1 + r1, p2 + r2) <==> (text_before(p1, p2) || (p1 == p2 && text_before(
            r1,
            r2,
        ))),
        (p1 + r1 == p2 + r2) <==> (p1 == p2 && r1 == r2),
{
    let a = p1 + r1;
    let b = p2 + r2;
    let n = p1.len() as int;
    if text_before(a, b) {
        let k = choose|k: int| first_difference(a, b, k);
        if k < n {
            assert forall|j: int| 0 <= j < k implies p1[j] == p2[j] by {
                assert(a[j] == b[j]);
            }
            assert(a[k] == p1[k] && b[k] == p2[k]);
            assert(first_difference(p1, p2, k));
        } else {
            assert forall|j: int| 0 <= j < n implies p1[j] == p2[j] by {
                assert(a[j] == b[j]);
            }
            assert(p1 =~= p2);
            assert forall|j: int| 0 <= j < k - n implies r1[j] == r2[j] by {
                assert(a[j + n] == b[j + n]);
            }
            if k < a.len() {
                assert(a[k] == r1[k - n] && b[k] == r2[k - n]);
            }
            assert(first_difference(r1, r2, k - n));
        }
    }
    if text_before(p1, p2) {
        let k = choose|k: int| first_difference(p1, p2, k);
        assert forall|j: int| 0 <= j < k implies a[j] == b[j] by {
            assert(p1[j] == p2[j]);
        }
        assert(a[k] == p1[k] && b[k] == p2[k]);
        assert(first_difference(a, b, k));
    }
    if p1 == p2 && text_before(r1, r2) {
        let k = choose|k: int| first_difference(r1, r2, k);
        assert forall|j: int| 0 <= j < k + n implies a[j] == b[j] by {
            if j >= n {
                assert(r1[j - n] == r2[j - n]);
            }
        }
        if k < r1.len() {
            assert(a[k + n] == r1[k] && b[k + n] == r2[k]);
        }
        assert(first_difference(a, b, k + n));
    }
    if a == b {
        assert forall|j: int| 0 <= j < n implies p1[j] == p2[j] by {
            assert(a[j] == b[j]);
        }
        assert(p1 =~= p2);
        assert(r1.len() == r2.len()) by {
            assert(a.len() == b.len());
        }
        assert forall|j: int| 0 <= j < r1.len() implies r1[j] == r2[j] by {
            assert(a[j + n] == b[j + n]);
        }
        assert(r1 =~= r2);
    }
}

/// No text comes before itself.
pub proof fn lemma_before_irreflexive(a: Seq<char>)
    ensures
        !text_before(a, a),
{
    if text_before(a, a) {
        let k = choose|k: int| first_difference(a, a, k);
        assert(false);
    }
}

/// The digits in order are the characters `'0'` to `'9'` in order.
pub proof fn lemma_digit_code(d: nat)
    requires
        d < 10,
    ensures
        digit_char(d) as u32 == 48 + d,
{
}

/// A number below a hundred, padded to two places, is its two digits.
pub proof fn lemma_two_digits(n: nat)
    requires
        n < 100,
    ensures
        padded(n, 2) == seq![digit_char(n / 10), digit_char(n % 10)],
{
    reveal_with_fuel(decimal, 3);
    assert(padded(n, 2) =~= seq![digit_char(n / 10), digit_char(n % 10)]);
}

/// A number below ten thousand, padded to four places, is its four digits.
pub proof fn lemma_four_digits(n: nat)
    requires
        n < 10000,
    ensures
        padded(n, 4) == seq![
            digit_char(n / 1000),
            digit_char(n / 100 % 10),
            digit_char(n / 10 % 10),
            digit_char(n % 10),
        ],
{
    reveal_with_fuel(decimal, 5);
    assert(padded(n, 4) =~= seq![
        digit_char(n / 1000),
        digit_char(n / 100 % 10),
        digit_char(n / 10 % 10),
        digit_char(n % 10),
    ]);
}

/// Two-place numbers are ordered as texts as they are as numbers.
pub proof fn lemma_two_digits_order(m: nat, n: nat)
    requires
        m < 100,
        n < 100,
    ensures
        text_before(padded(m, 2), padded(n, 2)) <==> m < n,
        padded(m, 2) == padded(n, 2) <==> m == n,
        padded(m, 2).len() == 2,
        padded(n, 2).len() == 2,
{
    lemma_two_digits(m);
    lemma_two_digits(n);
    let a = padded(m, 2);
    let b = padded(n, 2);
    lemma_digit_code(m / 10);
    lemma_digit_code(m % 10);
    lemma_digit_code(n / 10);
    lemma_digit_code(n % 10);
    assert(a[0] == digit_char(m / 10) && a[1] == digit_char(m % 10));
    assert(b[0] == digit_char(n / 10) && b[1] == digit_char(n % 10));
    if m < n {
        if m / 10 < n / 10 {
            assert(first_difference(a, b, 0));
        } else {
            assert(first_difference(a, b, 1));
        }
    }
    if text_before(a, b) {
        let k = choose|k: int| first_difference(a, b, k);
        if k == 1 {
            assert(a[0] == b[0]);
        }
    }
    if a == b {
        assert(a[0] == b[0] && a[1] == b[1]);
    }
}

/// Four-place numbers are ordered as texts as they are as numbers.
pub proof fn lemma_four_digits_order(m: nat, n: nat)
    requires
        m < 10000,
        n < 10000,
    ensures
        text_before(padded(m, 4), padded(n, 4)) <==> m < n,
        padded(m, 4) == padded(n, 4) <==> m == n,
        padded(m, 4).len() == 4,
        padded(n, 4).len() == 4,
{
    lemma_four_digits_split(m);
    lemma_four_digits_split(n);
    lemma_two_digits_order(m / 100, n / 100);
    lemma_two_digits_order(m % 100, n % 100);
    lemma_before_concat(
        padded(m / 100, 2),
        padded(m % 100, 2),
        padded(n / 100, 2),
        padded(n % 100, 2),
    );
}

/// A four-place number is its upper two places followed by its lower two.
proof fn lemma_four_digits_split(n: nat)
    requires
        n < 10000,
    ensures
        padded(n, 4) == padded(n / 100, 2) + padded(n % 100, 2),
{
    lemma_four_digits(n);
    lemma_two_digits(n / 100);
    lemma_two_digits(n % 100);
    assert(n / 100 / 10 == n / 1000);
    assert(n / 100 % 10 == n / 100 % 10);
    assert(n % 100 / 10 == n / 10 % 10);
    assert(n % 100 % 10 == n % 10);
    assert(padded(n, 4) =~= padded(n / 100, 2) + padded(n % 100, 2));
}

/// One and the same separator decides nothing.
proof fn lemma_separator(sep: char)
    ensures
        !text_before(seq![sep], seq![sep]),
{
    lemma_before_irreflexive(seq![sep]);
}

/// Times of day sort as texts as they do as times.
pub proof fn lemma_time_text_order(a: Timestamp, b: Timestamp, sep: char)
    requires
        a.wf(),
        b.wf(),
    ensures
        a.time_text(sep).len() == 8,
        b.time_text(sep).len() == 8,
        text_before(a.time_text(sep), b.time_text(sep)) <==> (a.hour < b.hour || (a.hour == b.hour
            && (a.minute < b.minute || (a.minute == b.minute && a.second < b.second)))),
        a.time_text(sep) == b.time_text(sep) <==> (a.hour == b.hour && a.minute == b.minute
            && a.second == b.second),
{
    let s = seq![sep];
    lemma_separator(sep);
    lemma_two_digits_order(a.hour as nat, b.hour as nat);
    lemma_two_digits_order(a.minute as nat, b.minute as nat);
    lemma_two_digits_order(a.second as nat, b.second as nat);
    let a0 = padded(a.hour as nat, 2);
    let b0 = padded(b.hour as nat, 2);
    let a1 = a0 + s;
    let b1 = b0 + s;
    lemma_before_concat(a0, s, b0, s);
    let a2 = a1 + padded(a.minute as nat, 2);
    let b2 = b1 + padded(b.minute as nat, 2);
    lemma_before_concat(a1, padded(a.minute as nat, 2), b1, padded(b.minute as nat, 2));
    let a3 = a2 + s;
    let b3 = b2 + s;
    lemma_before_concat(a2, s, b2, s);
    lemma_before_concat(a3, padded(a.second as nat, 2), b3, padded(b.second as nat, 2));
}

/// Dates sort as texts as they do as dates.
pub proof fn lemma_date_text_order(a: Timestamp, b: Timestamp)
    requires
        a.wf(),
        b.wf(),
        0 <= a.year <= 9999,
        0 <= b.year <= 9999,
    ensures
        a.date_text().len() == 10,
        b.date_text().len() == 10,
        text_before(a.date_text(), b.date_text()) <==> (a.year < b.year || (a.year == b.year && (
        a.month < b.month || (a.month == b.month && a.day < b.day)))),
        a.date_text() == b.date_text() <==> (a.year == b.year && a.month == b.month && a.day
            == b.day),
{
    let s = seq!['-'];
    lemma_separator('-');
    lemma_four_digits_order(a.year as nat, b.year as nat);
    lemma_two_digits_order(a.month as nat, b.month as nat);
    lemma_two_digits_order(a.day as nat, b.day as nat);
    let a0 = padded(a.year as nat, 4);
    let b0 = padded(b.year as nat, 4);
    let a1 = a0 + s;
    let b1 = b0 + s;
    lemma_before_concat(a0, s, b0, s);
    let a2 = a1 + padded(a.month as nat, 2);
    let b2 = b1 + padded(b.month as nat, 2);
    lemma_before_concat(a1, padded(a.month as nat, 2), b1, padded(b.month as nat, 2));
    let a3 = a2 + s;
    let b3 = b2 + s;
    lemma_before_concat(a2, s, b2, s);
    lemma_before_concat(a3, padded(a.day as nat, 2), b3, padded(b.day as nat, 2));
}

/// Labels sort as their instants do.
///
/// Of two calendar readings in the years 0 to 9999, the label of one comes
/// before the label of the other in the order of texts exactly if the one
/// is the earlier instant; and the labels are equal exactly if the readings
/// are.
pub proof fn law_labels_sort_by_time(a: Timestamp, b: Timestamp)
    requires
        a.wf(),
        b.wf(),
        0 <= a.year <= 9999,
        0 <= b.year <= 9999,
    ensures
        text_before(a.label_text(), b.label_text()) <==> earlier(a, b),
        a.label_text() == b.label_text() <==> a == b,
{
    let s = seq!['_'];
    lemma_separator('_');
    lemma_date_text_order(a, b);
    lemma_time_text_order(a, b, '-');
    lemma_before_concat(a.date_text(), s, b.date_text(), s);
    lemma_before_concat(a.date_text() + s, a.time_text('-'), b.date_text() + s, b.time_text('-'));
}

} // verus!
