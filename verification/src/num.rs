use vstd::prelude::*;
use vstd::string::StringExecFns;
use vstd::string::StringSliceAdditionalSpecFns;

verus! {

/// The character that writes one decimal digit value.
pub open spec fn digit_char(d: int) -> char {
    if d == 0 {
        '0'
    } else if d == 1 {
        '1'
    } else if d == 2 {
        '2'
    } else if d == 3 {
        '3'
    } else if d == 4 {
        '4'
    } else if d == 5 {
        '5'
    } else if d == 6 {
        '6'
    } else if d == 7 {
        '7'
    } else if d == 8 {
        '8'
    } else {
        '9'
    }
}

pub open spec fn is_digit(c: char) -> bool {
    '0' as int <= c as int && c as int <= '9' as int
}

pub open spec fn digit_val(c: char) -> int {
    c as int - '0' as int
}

/// The canonical decimal writing of a number: no sign, no leading zero
/// (except for the number zero itself).
pub open spec fn dec_rep(n: nat) -> Seq<char>
    decreases n,
{
    if n < 10 {
        seq![digit_char(n as int)]
    } else {
        dec_rep(n / 10) + seq![digit_char((n % 10) as int)]
    }
}

/// The value of a digit string, most significant digit first.
pub open spec fn dec_val(s: Seq<char>) -> nat
    decreases s.len(),
{
    if s.len() == 0 {
        0
    } else {
        dec_val(s.drop_last()) * 10 + (digit_val(s.last()) as nat)
    }
}

/// A non-empty, all-digit character sequence: the wire grammar of an
/// unsigned number.
pub open spec fn is_dec_seq(s: Seq<char>) -> bool {
    s.len() > 0 && forall|i: int| 0 <= i < s.len() ==> is_digit(#[trigger] s[i])
}

/// The wire grammar of a signed number: an optional leading minus sign,
/// then digits.
pub open spec fn spec_parse_int(s: Seq<char>) -> Option<int> {
    if s.len() > 0 && s[0] == '-' {
        if is_dec_seq(s.drop_first()) {
            Some(-(dec_val(s.drop_first()) as int))
        } else {
            None
        }
    } else {
        if is_dec_seq(s) {
            Some(dec_val(s) as int)
        } else {
            None
        }
    }
}

/// The decimal writing of a signed number: a minus sign before the
/// magnitude when it is negative.
pub open spec fn int_rep(i: int) -> Seq<char> {
    if i < 0 {
        seq!['-'] + dec_rep((-i) as nat)
    } else {
        dec_rep(i as nat)
    }
}

fn digit_str(d: u64) -> (r: &'static str)
    requires
        d < 10,
    ensures
        r@ =~= seq![digit_char(d as int)],
{
    proof {
        reveal_strlit("0");
        reveal_strlit("1");
        reveal_strlit("2");
        reveal_strlit("3");
        reveal_strlit("4");
        reveal_strlit("5");
        reveal_strlit("6");
        reveal_strlit("7");
        reveal_strlit("8");
        reveal_strlit("9");
    }
    if d == 0 {
        "0"
    } else if d == 1 {
        "1"
    } else if d == 2 {
        "2"
    } else if d == 3 {
        "3"
    } else if d == 4 {
        "4"
    } else if d == 5 {
        "5"
    } else if d == 6 {
        "6"
    } else if d == 7 {
        "7"
    } else if d == 8 {
        "8"
    } else {
        "9"
    }
}

/// Writes a number in decimal, exactly as `dec_rep` describes it.
pub fn u64_to_dec(n: u64) -> (r: String)
    ensures
        r@ == dec_rep(n as nat),
    decreases n,
{
    if n < 10 {
        let s = digit_str(n).to_owned();
        assert(s@ == dec_rep(n as nat));
        s
    } else {
        let mut s = u64_to_dec(n / 10);
        s.append(digit_str(n % 10));
        assert(s@ == dec_rep(n as nat));
        s
    }
}

/// Writes a signed number in decimal, exactly as `int_rep` describes it.
pub fn i32_to_dec(i: i32) -> (r: String)
    ensures
        r@ == int_rep(i as int),
{
    if i >= 0 {
        u64_to_dec(i as u64)
    } else {
        let mag: u64 = if i == i32::MIN {
            2147483648
        } else {
            (-i) as u64
        };
        assert(mag as int == -(i as int));
        let mut s = "-".to_owned();
        proof {
            reveal_strlit("-");
        }
        s.append(u64_to_dec(mag).as_str());
        assert(s@ =~= int_rep(i as int));
        s
    }
}

/// Every decimal writing is a digit string.
pub proof fn lemma_dec_rep_digits(n: nat)
    ensures
        is_dec_seq(dec_rep(n)),
    decreases n,
{
    if n >= 10 {
        lemma_dec_rep_digits(n / 10);
    }
}

/// Reading back a decimal writing yields the number written: the numeric
/// round trip under `dec_rep` and `dec_val`.
pub proof fn lemma_dec_rep_val(n: nat)
    ensures
        dec_val(dec_rep(n)) == n,
    decreases n,
{
    if n < 10 {
        let s = dec_rep(n);
        assert(s.drop_last() =~= Seq::<char>::empty());
        assert(digit_val(digit_char(n as int)) == n);
        assert(dec_val(s) == dec_val(s.drop_last()) * 10 + (digit_val(s.last()) as nat));
        assert(dec_val(s.drop_last()) == 0);
        assert(s.last() == digit_char(n as int));
    } else {
        lemma_dec_rep_val(n / 10);
        let s = dec_rep(n);
        assert(s.drop_last() =~= dec_rep(n / 10));
        assert(s.last() == digit_char((n % 10) as int));
    }
}

/// Reading back a signed decimal writing yields the number written.
pub proof fn lemma_int_rep_val(i: int)
    ensures
        spec_parse_int(int_rep(i)) == Some(i),
{
    if i < 0 {
        let s = int_rep(i);
        lemma_dec_rep_digits((-i) as nat);
        lemma_dec_rep_val((-i) as nat);
        assert(s.drop_first() =~= dec_rep((-i) as nat));
        assert(s[0] == '-');
    } else {
        lemma_dec_rep_digits(i as nat);
        lemma_dec_rep_val(i as nat);
        let s = dec_rep(i as nat);
        assert(!(s[0] == '-'));
    }
}

/// A digit string's value only grows as digits are appended.
pub proof fn lemma_dec_val_prefix(s: Seq<char>, i: int)
    requires
        0 <= i <= s.len(),
    ensures
        dec_val(s.subrange(0, i)) <= dec_val(s),
    decreases s.len() - i,
{
    if i == s.len() {
        assert(s.subrange(0, i) =~= s);
    } else {
        lemma_dec_val_prefix(s, i + 1);
        let p = s.subrange(0, i + 1);
        assert(p.drop_last() =~= s.subrange(0, i));
        assert(dec_val(s.subrange(0, i)) <= dec_val(p));
    }
}

/// Parses the digits of `s` from position `start` on, under `dec_val`.
fn parse_digits(s: &str, start: usize) -> (r: Option<u64>)
    requires
        vstd::string::is_ascii(s),
        start as int <= s@.len(),
    ensures
        match r {
            Some(v) => is_dec_seq(s@.skip(start as int)) && dec_val(s@.skip(start as int))
                == v as nat,
            None => !is_dec_seq(s@.skip(start as int)) || dec_val(s@.skip(start as int))
                > u64::MAX as nat,
        },
{
    broadcast use vstd::string::is_ascii_spec_bytes;

    let b = s.as_bytes();
    proof {
        vstd::string::is_ascii_spec_bytes(s);
    }
    assert(b@.len() == s@.len());
    let ghost t = s@.skip(start as int);
    if start == b.len() {
        assert(t.len() == 0);
        assert(!is_dec_seq(t));
        return None;
    }
    let mut acc: u64 = 0;
    let mut i: usize = start;
    while i < b.len()
        invariant
            vstd::string::is_ascii(s),
            b@ == s.spec_bytes(),
            t == s@.skip(start as int),
            start <= i <= b.len(),
            b@.len() == s@.len(),
            forall|j: int| start <= j < i ==> is_digit(#[trigger] s@[j]),
            acc as nat == dec_val(s@.subrange(start as int, i as int)),
        decreases b.len() - i,
    {
        let c = b[i];
        assert(c == s@[i as int] as u8);
        if c < 48 || c > 57 {
            assert(!is_digit(s@[i as int]));
            assert(t[i - start] == s@[i as int]);
            assert(!is_dec_seq(t));
            return None;
        }
        assert(is_digit(s@[i as int]));
        let d: u64 = (c - 48) as u64;
        assert(d as int == digit_val(s@[i as int]));
        let shifted = match acc.checked_mul(10) {
            Some(x) => x,
            None => {
                proof {
                    overflow_reasoning(s@, start as int, i as int, acc as nat, d as nat);
                }
                return None;
            },
        };
        let next = match shifted.checked_add(d) {
            Some(x) => x,
            None => {
                proof {
                    overflow_reasoning(s@, start as int, i as int, acc as nat, d as nat);
                }
                return None;
            },
        };
        acc = next;
        assert(s@.subrange(start as int, i as int + 1).drop_last() =~= s@.subrange(
            start as int,
            i as int,
        ));
        i = i + 1;
    }
    assert(s@.subrange(start as int, i as int) =~= t);
    assert(is_dec_seq(t));
    Some(acc)
}

/// When the accumulated value would exceed `u64::MAX` at position `i`, the
/// whole digit string (if it is one) is too large for a `u64`.
proof fn overflow_reasoning(s: Seq<char>, start: int, i: int, acc: nat, d: nat)
    requires
        0 <= start <= i < s.len(),
        acc == dec_val(s.subrange(start, i)),
        is_digit(s[i]),
        d == digit_val(s[i]),
        acc * 10 + d > u64::MAX as nat,
    ensures
        !is_dec_seq(s.skip(start)) || dec_val(s.skip(start)) > u64::MAX as nat,
{
    if is_dec_seq(s.skip(start)) {
        let t = s.skip(start);
        let p = s.subrange(start, i + 1);
        assert(p.drop_last() =~= s.subrange(start, i));
        assert(dec_val(p) == acc * 10 + d);
        assert(t.subrange(0, i + 1 - start) =~= p);
        lemma_dec_val_prefix(t, i + 1 - start);
    }
}

/// Reads an unsigned decimal number. Returns the value exactly when the
/// whole input is a digit string whose value fits in a `u64`.
pub fn parse_u64(s: &str) -> (r: Option<u64>)
    ensures
        match r {
            Some(v) => is_dec_seq(s@) && dec_val(s@) == v as nat,
            None => !is_dec_seq(s@) || dec_val(s@) > u64::MAX as nat,
        },
{
    if !s.is_ascii() {
        proof {
            non_ascii_not_digits(s@);
        }
        return None;
    }
    let r = parse_digits(s, 0);
    assert(s@.skip(0) =~= s@);
    r
}

/// A sequence with a character outside ASCII holds a non-digit.
proof fn non_ascii_not_digits(s: Seq<char>)
    requires
        !vstd::utf8::is_ascii_chars(s),
    ensures
        !is_dec_seq(s),
        s.len() > 0,
        exists|i: int| 0 <= i < s.len() && !is_digit(s[i]) && !(s[i] == '-'),
{
    let i = choose|i: int| !(0 <= i < s.len() ==> '\0' <= #[trigger] s[i] <= '\u{7f}');
    assert(!is_digit(s[i]));
    assert(!(s[i] == '-'));
}

/// Reads a signed decimal number under the wire grammar `spec_parse_int`.
/// Returns the value exactly when the input parses and fits in an `i32`.
pub fn parse_i32(s: &str) -> (r: Option<i32>)
    ensures
        match r {
            Some(v) => spec_parse_int(s@) == Some(v as int),
            None => match spec_parse_int(s@) {
                Some(v) => v < i32::MIN as int || v > i32::MAX as int,
                None => true,
            },
        },
{
    broadcast use vstd::string::is_ascii_spec_bytes;

    if !s.is_ascii() {
        proof {
            non_ascii_not_digits(s@);
            let i = choose|i: int|
                0 <= i < s@.len() && !is_digit(s@[i]) && !(s@[i] == '-');
            if s@[0] == '-' {
                assert(i != 0);
                assert(s@.drop_first()[i - 1] == s@[i]);
                assert(!is_dec_seq(s@.drop_first()));
            }
        }
        return None;
    }
    let b = s.as_bytes();
    if b.len() == 0 {
        assert(!is_dec_seq(s@));
        return None;
    }
    assert(b@[0] == s@[0] as u8);
    if b[0] == 45 {
        assert(s@[0] == '-');
        let mag = match parse_digits(s, 1) {
            Some(v) => v,
            None => {
                assert(s@.skip(1) =~= s@.drop_first());
                proof {
                    if is_dec_seq(s@.drop_first()) {
                        assert(dec_val(s@.drop_first()) > u64::MAX as nat);
                        assert(-(dec_val(s@.drop_first()) as int) < i32::MIN as int);
                    }
                }
                return None;
            },
        };
        assert(s@.skip(1) =~= s@.drop_first());
        if mag > 2147483648 {
            return None;
        }
        let v: i32 = if mag == 2147483648 {
            i32::MIN
        } else {
            -(mag as i32)
        };
        assert(v as int == -(mag as int));
        Some(v)
    } else {
        assert(!(s@[0] == '-'));
        let mag = match parse_digits(s, 0) {
            Some(v) => v,
            None => {
                assert(s@.skip(0) =~= s@);
                proof {
                    if is_dec_seq(s@) {
                        assert(dec_val(s@) > u64::MAX as nat);
                    }
                }
                return None;
            },
        };
        assert(s@.skip(0) =~= s@);
        if mag > 2147483647 {
            return None;
        }
        Some(mag as i32)
    }
}

/// The numeric value of a decimal digit character, if it is one.
pub fn digit_of(c: char) -> (r: Option<u8>)
    ensures
        r is Some <==> is_digit(c),
        r matches Some(d) ==> d as int == digit_val(c) && d < 10,
{
    match c {
        '0' => Some(0),
        '1' => Some(1),
        '2' => Some(2),
        '3' => Some(3),
        '4' => Some(4),
        '5' => Some(5),
        '6' => Some(6),
        '7' => Some(7),
        '8' => Some(8),
        '9' => Some(9),
        _ => None,
    }
}

} // verus!
