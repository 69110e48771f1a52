//! Small verified helpers shared by the cgroup controller and the display
//! code: decimal rendering of counters, parsing of counter files, and path
//! joining.

use vstd::prelude::*;

verus! {

/// The decimal digit character for a value below ten.
pub open spec fn spec_digit_char(d: u64) -> char {
    if d == 0 {
        '0'
    } else if d == 1 {
        '1'
    } else if d == 2 {
        '2'
    } else if d == 3 {
        '3'
    } else if d == 4 {
        '4'
    } else if d == 5 {
        '5'
    } else if d == 6 {
        '6'
    } else if d == 7 {
        '7'
    } else if d == 8 {
        '8'
    } else {
        '9'
    }
}

/// The decimal rendering of a number, without sign or padding.
pub open spec fn spec_u64_string(x: u64) -> Seq<char>
    decreases x,
{
    if x < 10 {
        seq![spec_digit_char(x)]
    } else {
        spec_u64_string(x / 10).push(spec_digit_char(x % 10))
    }
}

fn digit_str(d: u64) -> (s: &'static str)
    requires
        d < 10,
    ensures
        s@ == seq![spec_digit_char(d)],
{
    if d == 0 {
        proof { reveal_strlit("0"); }
        assert("0"@ =~= seq![spec_digit_char(0)]);
        "0"
    } else if d == 1 {
        proof { reveal_strlit("1"); }
        assert("1"@ =~= seq![spec_digit_char(1)]);
        "1"
    } else if d == 2 {
        proof { reveal_strlit("2"); }
        assert("2"@ =~= seq![spec_digit_char(2)]);
        "2"
    } else if d == 3 {
        proof { reveal_strlit("3"); }
        assert("3"@ =~= seq![spec_digit_char(3)]);
        "3"
    } else if d == 4 {
        proof { reveal_strlit("4"); }
        assert("4"@ =~= seq![spec_digit_char(4)]);
        "4"
    } else if d == 5 {
        proof { reveal_strlit("5"); }
        assert("5"@ =~= seq![spec_digit_char(5)]);
        "5"
    } else if d == 6 {
        proof { reveal_strlit("6"); }
        assert("6"@ =~= seq![spec_digit_char(6)]);
        "6"
    } else if d == 7 {
        proof { reveal_strlit("7"); }
        assert("7"@ =~= seq![spec_digit_char(7)]);
        "7"
    } else if d == 8 {
        proof { reveal_strlit("8"); }
        assert("8"@ =~= seq![spec_digit_char(8)]);
        "8"
    } else {
        proof { reveal_strlit("9"); }
        assert("9"@ =~= seq![spec_digit_char(9)]);
        "9"
    }
}

/// Renders a number in decimal, as written into cgroup control files.
pub fn u64_to_string(x: u64) -> (s: String)
    ensures
        s@ == spec_u64_string(x),
    decreases x,
{
    if x < 10 {
        let s = digit_str(x);
        s.to_owned()
    } else {
        let mut s = u64_to_string(x / 10);
        s.append(digit_str(x % 10));
        proof {
            assert(s@ =~= spec_u64_string(x / 10).push(spec_digit_char(x % 10)));
        }
        s
    }
}

/// A decimal digit byte.
pub open spec fn spec_is_digit(b: u8) -> bool {
    48 <= b <= 57
}

/// The number denoted by a sequence of decimal digit bytes, read left to
/// right; an empty sequence denotes zero.
pub open spec fn spec_digits_value(s: Seq<u8>) -> int
    decreases s.len(),
{
    if s.len() == 0 {
        0
    } else {
        spec_digits_value(s.drop_last()) * 10 + (s.last() - 48)
    }
}

/// All bytes of the sequence are decimal digits.
pub open spec fn spec_all_digits(s: Seq<u8>) -> bool {
    forall|i: int| 0 <= i < s.len() ==> spec_is_digit(#[trigger] s[i])
}

proof fn lemma_digits_value_nonneg(s: Seq<u8>)
    requires
        spec_all_digits(s),
    ensures
        spec_digits_value(s) >= 0,
    decreases s.len(),
{
    if s.len() > 0 {
        lemma_digits_value_nonneg(s.drop_last());
    }
}

proof fn lemma_digits_value_monotone(s: Seq<u8>, i: int, j: int)
    requires
        0 <= i <= j <= s.len(),
        spec_all_digits(s),
    ensures
        spec_digits_value(s.subrange(0, i)) <= spec_digits_value(s.subrange(0, j)),
    decreases j - i,
{
    if i < j {
        lemma_digits_value_monotone(s, i, j - 1);
        let p = s.subrange(0, j - 1);
        let q = s.subrange(0, j);
        assert(q.drop_last() =~= p);
        assert(spec_all_digits(p)) by {
            assert(forall|k: int| 0 <= k < p.len() ==> p[k] == s[k]);
        }
        lemma_digits_value_nonneg(p);
    }
}

/// Parses a decimal number. Returns the value exactly when the input is a
/// nonempty, all-digit string whose value fits in a machine word.
pub fn parse_u64(bytes: &[u8]) -> (r: Option<u64>)
    ensures
        match r {
            Some(v) => bytes@.len() > 0 && spec_all_digits(bytes@) && v == spec_digits_value(
                bytes@,
            ),
            None => bytes@.len() == 0 || !spec_all_digits(bytes@) || spec_digits_value(bytes@)
                > u64::MAX,
        },
{
    if bytes.len() == 0 {
        return None;
    }
    let mut acc: u64 = 0;
    let mut i: usize = 0;
    while i < bytes.len()
        invariant
            0 <= i <= bytes@.len(),
            spec_all_digits(bytes@.subrange(0, i as int)),
            acc == spec_digits_value(bytes@.subrange(0, i as int)),
        decreases bytes@.len() - i,
    {
        let b: u8 = bytes[i];
        if b < 48 || b > 57 {
            return None;
        }
        let d: u64 = (b - 48) as u64;
        if acc > (u64::MAX - d) / 10 {
            // The value no longer fits; adding further digits cannot shrink it.
            proof {
                let p = bytes@.subrange(0, i + 1);
                assert(p.drop_last() =~= bytes@.subrange(0, i as int));
                if spec_all_digits(bytes@) {
                    assert(spec_digits_value(p) > u64::MAX);
                    lemma_digits_value_monotone(bytes@, i + 1, bytes@.len() as int);
                    assert(bytes@.subrange(0, bytes@.len() as int) =~= bytes@);
                }
            }
            return None;
        }
        proof {
            let p = bytes@.subrange(0, i + 1);
            assert(p.drop_last() =~= bytes@.subrange(0, i as int));
        }
        acc = acc * 10 + d;
        i = i + 1;
    }
    proof {
        assert(bytes@.subrange(0, bytes@.len() as int) =~= bytes@);
    }
    Some(acc)
}

/// The input with one trailing line feed removed, as cgroup counter files
/// end their single value with one.
pub open spec fn spec_trim_newline(s: Seq<u8>) -> Seq<u8> {
    if s.len() > 0 && s.last() == 10 {
        s.drop_last()
    } else {
        s
    }
}

/// Parses a counter file's contents: a decimal value, optionally followed by
/// a single trailing line feed.
pub fn parse_counter(bytes: &[u8]) -> (r: Option<u64>)
    ensures
        match r {
            Some(v) => spec_trim_newline(bytes@).len() > 0 && spec_all_digits(
                spec_trim_newline(bytes@),
            ) && v == spec_digits_value(spec_trim_newline(bytes@)),
            None => spec_trim_newline(bytes@).len() == 0 || !spec_all_digits(
                spec_trim_newline(bytes@),
            ) || spec_digits_value(spec_trim_newline(bytes@)) > u64::MAX,
        },
{
    let len: usize = bytes.len();
    let end: usize = if len > 0 && bytes[len - 1] == 10 {
        len - 1
    } else {
        len
    };
    let trimmed = vstd::slice::slice_subrange(bytes, 0, end);
    proof {
        assert(trimmed@ =~= spec_trim_newline(bytes@));
    }
    parse_u64(trimmed)
}

/// Joins a directory path and an entry name with a single separator.
pub fn path_join(base: &str, name: &str) -> (r: String)
    ensures
        r@ == base@ + seq!['/'] + name@,
{
    proof {
        reveal_strlit("/");
        assert("/"@ =~= seq!['/']);
    }
    let mut s = base.to_owned();
    s.append("/");
    s.append(name);
    proof {
        assert(s@ =~= base@ + seq!['/'] + name@);
    }
    s
}

} // verus!
