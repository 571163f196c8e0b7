//! Small verified text helpers shared by the scanner: building owned
//! strings character by character, splitting a source into its lines, and
//! reading a digit run as a 64-bit signed integer.

use vstd::prelude::*;
use vstd::string::StrSliceExecFns;

use crate::model;
use crate::props;

verus! {

/// Relies on `String::push`: appends exactly the given character to the
/// end of the string.
#[verifier::external_body]
pub(crate) fn push_char(s: &mut String, c: char)
    ensures
        final(s)@ == old(s)@.push(c),
{
    s.push(c);
}

/// The characters of a vector, gathered into an owned string.
pub(crate) fn chars_to_string(v: &Vec<char>) -> (r: String)
    ensures
        r@ == v@,
{
    let mut r = String::new();
    let mut i: usize = 0;
    while i < v.len()
        invariant
            i <= v@.len(),
            r@ == v@.take(i as int),
        decreases v@.len() - i,
    {
        push_char(&mut r, v[i]);
        proof {
            assert(v@.take(i as int + 1) =~= v@.take(i as int).push(v@[i as int]));
        }
        i = i + 1;
    }
    proof {
        assert(v@.take(v@.len() as int) =~= v@);
    }
    r
}

/// The view of a vector of strings, line by line.
pub open spec fn lines_view(v: Seq<String>) -> Seq<Seq<char>> {
    Seq::new(v.len(), |i: int| v[i]@)
}

/// The source split into lines, exactly as `model::spec_lines` describes:
/// at each newline, with a single trailing carriage return stripped, and
/// no empty final line for a trailing newline.
pub(crate) fn split_lines(source: &str) -> (r: Vec<String>)
    ensures
        lines_view(r@) == model::spec_lines(source@),
{
    let n = source.unicode_len();
    let mut r: Vec<String> = Vec::new();
    let mut cur: Vec<char> = Vec::new();
    let mut i: usize = 0;
    proof {
        assert(cur@ =~= Seq::<char>::empty());
        assert(lines_view(r@) =~= Seq::<Seq<char>>::empty());
    }
    while i < n
        invariant
            n == source@.len(),
            i <= n,
            model::lines_from(source@, i as int, cur@, lines_view(r@)) == model::spec_lines(
                source@,
            ),
        decreases n - i,
    {
        let c = source.get_char(i);
        if c == '\n' {
            let ghost prev = cur@;
            if cur.len() > 0 && cur[cur.len() - 1] == '\r' {
                cur.pop();
            }
            proof {
                assert(cur@ == model::strip_tail_cr(prev));
            }
            let line = chars_to_string(&cur);
            let ghost before = r@;
            r.push(line);
            proof {
                assert(lines_view(r@) =~= lines_view(before).push(model::strip_tail_cr(prev)));
            }
            cur = Vec::new();
        } else {
            cur.push(c);
        }
        i = i + 1;
    }
    if cur.len() > 0 {
        let line = chars_to_string(&cur);
        let ghost before = r@;
        r.push(line);
        proof {
            assert(lines_view(r@) =~= lines_view(before).push(cur@));
        }
    }
    r
}

/// The numeric value of a run of decimal digits, or nothing where the
/// value leaves the 64-bit signed range.
pub(crate) fn parse_i64(digits: &Vec<char>) -> (r: Option<i64>)
    requires
        forall|k: int| 0 <= k < digits@.len() ==> model::is_digit_char(digits@[k]),
    ensures
        match r {
            Some(v) => v >= 0 && v as int == model::digits_value(digits@) && model::digits_value(
                digits@,
            ) <= i64::MAX,
            None => model::digits_value(digits@) > i64::MAX,
        },
{
    let mut val: i64 = 0;
    let mut i: usize = 0;
    while i < digits.len()
        invariant
            i <= digits@.len(),
            forall|k: int| 0 <= k < digits@.len() ==> model::is_digit_char(digits@[k]),
            0 <= val,
            val as int == model::digits_value(digits@.take(i as int)),
        decreases digits@.len() - i,
    {
        let c = digits[i];
        let d: u32 = c as u32 - 48;
        let d64: i64 = d as i64;
        proof {
            assert(digits@.take(i as int + 1).drop_last() =~= digits@.take(i as int));
            assert(digits@.take(i as int + 1).last() == digits@[i as int]);
            assert(model::digits_value(digits@.take(i as int + 1)) == val * 10 + d64);
        }
        if val > (i64::MAX - d64) / 10 {
            proof {
                assert(val * 10 + d64 > i64::MAX) by {
                    assert(val >= (i64::MAX - d64) / 10 + 1);
                    assert(10 * ((i64::MAX - d64) / 10) + (i64::MAX - d64) % 10 == i64::MAX - d64);
                };
                props::lemma_digits_value_prefix_le(digits@, i as int + 1);
            }
            return None;
        }
        proof {
            assert(val * 10 + d64 <= i64::MAX) by {
                assert(10 * ((i64::MAX - d64) / 10) + (i64::MAX - d64) % 10 == i64::MAX - d64);
            };
        }
        val = val * 10 + d64;
        i = i + 1;
    }
    proof {
        assert(digits@.take(digits@.len() as int) =~= digits@);
    }
    Some(val)
}

} // verus!
