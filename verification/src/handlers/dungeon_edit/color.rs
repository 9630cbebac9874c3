//! Colours as hexadecimal text.

use vstd::prelude::*;

use crate::text::{chars, own, text_of, trim, trimmed};
use crate::unicode::white_space;

verus! {

/// What is said of a colour that is none.
pub const BAD_COLOR: &'static str = "Color must be a hex triplet like `FF4500`.";

// ----- reading ---------------------------------------------------------------------------

/// The value of a hexadecimal digit.
pub open spec fn hex_digit(c: char) -> Option<int> {
    if '0' <= c <= '9' {
        Some(c as int - 48)
    } else if 'A' <= c <= 'F' {
        Some(c as int - 55)
    } else if 'a' <= c <= 'f' {
        Some(c as int - 87)
    } else {
        None
    }
}

/// Every character is a hexadecimal digit.
pub open spec fn all_hex(s: Seq<char>) -> bool {
    forall|i: int| 0 <= i < s.len() ==> hex_digit(#[trigger] s[i]) is Some
}

/// The number that hexadecimal digits write.
pub open spec fn hex_value(s: Seq<char>) -> int
    decreases s.len(),
{
    if s.len() == 0 {
        0
    } else {
        hex_value(s.drop_last()) * 16 + match hex_digit(s.last()) {
            Some(d) => d,
            None => 0,
        }
    }
}

/// The number that a text writes in hexadecimal: digits only, at least one.
pub open spec fn hex_number(s: Seq<char>) -> Option<int> {
    if s.len() > 0 && all_hex(s) {
        Some(hex_value(s))
    } else {
        None
    }
}

/// A text without the hash signs in front of it.
pub open spec fn without_hashes(s: Seq<char>) -> Seq<char>
    decreases s.len(),
{
    if s.len() > 0 && s[0] == '#' {
        without_hashes(s.skip(1))
    } else {
        s
    }
}

/// The colour that a text writes: none where it is blank, else a hexadecimal
/// number of at most three bytes, behind hash signs or not.
pub open spec fn read_color(s: Seq<char>) -> Result<Option<i32>, ()> {
    if trimmed(s).len() == 0 {
        Ok(None)
    } else {
        match hex_number(without_hashes(s)) {
            Some(v) => if v <= 0xFFFFFF {
                Ok(Some(v as i32))
            } else {
                Err(())
            },
            None => Err(()),
        }
    }
}

fn digit_value(c: char) -> (r: Option<u64>)
    ensures
        match r {
            Some(d) => hex_digit(c) == Some(d as int) && d < 16,
            None => hex_digit(c) is None,
        },
{
    if '0' <= c && c <= '9' {
        Some(c as u64 - 48)
    } else if 'A' <= c && c <= 'F' {
        Some(c as u64 - 55)
    } else if 'a' <= c && c <= 'f' {
        Some(c as u64 - 87)
    } else {
        None
    }
}

/// The number behind the largest colour.
const BEYOND: u64 = 0x100_0000;

/// The number that the digits from `from` on write, or `BEYOND` where it is at
/// least that.
fn magnitude(cs: &Vec<char>, from: usize) -> (r: Option<u64>)
    requires
        from <= cs@.len(),
    ensures
        ({
            let ds = cs@.skip(from as int);
            match r {
                Some(v) => all_hex(ds) && v <= BEYOND && (if v < BEYOND {
                    hex_value(ds) == v
                } else {
                    hex_value(ds) >= BEYOND
                }),
                None => !all_hex(ds),
            }
        }),
{
    let ghost ds = cs@.skip(from as int);
    let mut v: u64 = 0;
    let mut i: usize = from;
    while i < cs.len()
        invariant
            from <= i <= cs@.len(),
            ds == cs@.skip(from as int),
            all_hex(ds.take(i - from)),
            v <= BEYOND,
            v < BEYOND ==> hex_value(ds.take(i - from)) == v,
            v == BEYOND ==> hex_value(ds.take(i - from)) >= BEYOND,
        decreases cs@.len() - i,
    {
        let c = cs[i];
        assert(ds[i - from] == c);
        assert(ds.take(i - from + 1).drop_last() =~= ds.take(i - from));
        assert(ds.take(i - from + 1).last() == c);
        let d: u64 = match digit_value(c) {
            Some(d) => d,
            None => {
                return None;
            },
        };
        assert(hex_value(ds.take(i - from + 1)) == hex_value(ds.take(i - from)) * 16 + d);
        v = if v * 16 + d >= BEYOND {
            BEYOND
        } else {
            v * 16 + d
        };
        i = i + 1;
        assert(ds.take(i - from) =~= ds.take(i - from - 1).push(c));
    }
    assert(ds.take(i - from) =~= ds);
    Some(v)
}

/// Parse "FF4500", "#FF4500" or a blank text into a colour, or none. What is malformed
/// gives what is said of it.
pub fn parse_color_hex(s: &str) -> (r: Result<Option<i32>, String>)
    ensures
        match r {
            Ok(c) => read_color(s@) == Ok::<Option<i32>, ()>(c),
            Err(t) => read_color(s@) is Err && t@ == BAD_COLOR@,
        },
        r matches Ok(Some(c)) ==> 0 <= c <= 0xFFFFFF,
{
    if trim(s).as_str().is_empty() {
        return Ok(None);
    }
    let all = chars(s);
    let mut k: usize = 0;
    assert(all@.skip(0) =~= s@);
    while k < all.len() && all[k] == '#'
        invariant
            k <= all@.len(),
            without_hashes(all@.skip(k as int)) == without_hashes(s@),
        decreases all@.len() - k,
    {
        assert(all@.skip(k as int).skip(1) =~= all@.skip(k + 1));
        k = k + 1;
    }
    let ghost hex = all@.skip(k as int);
    assert(hex == without_hashes(s@));
    if k >= all.len() {
        return Err(own(BAD_COLOR));
    }
    match magnitude(&all, k) {
        Some(v) => if v <= 0xFFFFFF {
            Ok(Some(v as i32))
        } else {
            Err(own(BAD_COLOR))
        },
        None => Err(own(BAD_COLOR)),
    }
}

// ----- writing ---------------------------------------------------------------------------

/// The character of a hexadecimal digit.
pub open spec fn hex_char(d: int) -> char {
    if d < 10 {
        (48 + d) as u8 as char
    } else {
        (55 + d) as u8 as char
    }
}

/// A natural number in hexadecimal, without leading zeros.
pub open spec fn hex_nat(n: nat) -> Seq<char>
    decreases n,
{
    if n < 16 {
        seq![hex_char(n as int)]
    } else {
        hex_nat(n / 16).push(hex_char((n % 16) as int))
    }
}

/// A text with zeros in front, up to a length.
pub open spec fn zero_padded(s: Seq<char>, len: nat) -> Seq<char> {
    if s.len() < len {
        Seq::new((len - s.len()) as nat, |i: int| '0') + s
    } else {
        s
    }
}

/// A colour as hexadecimal digits, at least six.
pub open spec fn color_text(c: i32) -> Seq<char> {
    zero_padded(hex_nat(c as u32 as nat), 6)
}

fn hex_u32(n: u32) -> (r: String)
    ensures
        r@ == hex_nat(n as nat),
    decreases n,
{
    let d: u32 = n % 16;
    let c = if d < 10 {
        (48 + d) as u8 as char
    } else {
        (55 + d) as u8 as char
    };
    let mut s = if n < 16 {
        String::new()
    } else {
        hex_u32(n / 16)
    };
    s.push(c);
    s
}

/// A colour as hexadecimal digits, at least six.
pub fn show_color(c: i32) -> (r: String)
    ensures
        r@ == color_text(c),
{
    let n: u32 = #[verifier::truncate] (c as u32);
    let digits = chars(&hex_u32(n));
    let mut out: Vec<char> = Vec::new();
    let len: usize = digits.len();
    while out.len() < 6 && 6 - out.len() > len
        invariant
            len == digits@.len(),
            out@ == Seq::new(out@.len(), |i: int| '0'),
            out@.len() <= 6,
            len < 6 ==> out@.len() + len <= 6,
            len >= 6 ==> out@.len() == 0,
        decreases 6 - out@.len(),
    {
        let ghost before = out@;
        out.push('0');
        assert(out@ =~= Seq::new(out@.len(), |i: int| '0'));
    }
    let ghost zeros = out@;
    let mut i: usize = 0;
    while i < digits.len()
        invariant
            i <= digits@.len(),
            out@ == zeros + digits@.take(i as int),
        decreases digits@.len() - i,
    {
        out.push(digits[i]);
        i = i + 1;
        assert(digits@.take(i as int) =~= digits@.take(i - 1).push(digits@[i - 1]));
    }
    assert(digits@.take(i as int) =~= digits@);
    let n_out: usize = out.len();
    let r = text_of(&out, 0, n_out);
    assert(r@ =~= color_text(c));
    r
}

proof fn hex_reads_back(n: nat)
    ensures
        hex_nat(n).len() > 0,
        all_hex(hex_nat(n)),
        hex_value(hex_nat(n)) == n,
    decreases n,
{
    if n < 16 {
        let c = hex_char(n as int);
        assert(hex_nat(n).drop_last() =~= Seq::<char>::empty());
        assert(hex_nat(n).last() == c);
        assert(hex_value(Seq::<char>::empty()) == 0);
    } else {
        hex_reads_back(n / 16);
        let c = hex_char((n % 16) as int);
        let before = hex_nat(n / 16);
        assert(hex_nat(n).drop_last() =~= before);
        assert forall|i: int| 0 <= i < hex_nat(n).len() implies hex_digit(
            #[trigger] hex_nat(n)[i],
        ) is Some by {
            if i < before.len() {
                assert(hex_nat(n)[i] == before[i]);
            }
        }
    }
}

proof fn zeros_change_nothing(k: nat, s: Seq<char>)
    requires
        all_hex(s),
    ensures
        all_hex(Seq::new(k, |i: int| '0') + s),
        hex_value(Seq::new(k, |i: int| '0') + s) == hex_value(s),
    decreases k + s.len(),
{
    let t = Seq::new(k, |i: int| '0') + s;
    if s.len() > 0 {
        zeros_change_nothing(k, s.drop_last());
        assert(t.drop_last() =~= Seq::new(k, |i: int| '0') + s.drop_last());
        assert(t.last() == s.last());
    } else if k > 0 {
        zeros_change_nothing((k - 1) as nat, s);
        assert(t.drop_last() =~= Seq::new((k - 1) as nat, |i: int| '0') + s);
        assert(t.last() == '0');
        assert(hex_digit('0') == Some(0int));
    } else {
        assert(t =~= s);
    }
}

proof fn digits_are_not_blank(s: Seq<char>)
    requires
        s.len() > 0,
        all_hex(s),
    ensures
        trimmed(s).len() > 0,
{
    assert(hex_digit(s[0]) is Some);
    assert(!white_space(s[0]));
    assert(hex_digit(s.last()) is Some);
    assert(!white_space(s.last()));
}

/// No colour lies outside of three bytes, and a text with a sign is none.
pub proof fn colors_have_three_bytes(s: Seq<char>)
    ensures
        read_color(s) matches Ok(Some(c)) ==> 0 <= c <= 0xFFFFFF,
        s.len() > 0 && (s[0] == '-' || s[0] == '+') ==> !(read_color(s) matches Ok(Some(_))),
{
    hex_values_are_natural(without_hashes(s));
    if s.len() > 0 && (s[0] == '-' || s[0] == '+') {
        assert(without_hashes(s) == s);
        assert(hex_digit(s[0]) is None);
    }
}

proof fn hex_values_are_natural(s: Seq<char>)
    ensures
        hex_value(s) >= 0,
    decreases s.len(),
{
    if s.len() > 0 {
        hex_values_are_natural(s.drop_last());
    }
}

/// A colour that was shown is read back.
pub proof fn colors_read_back(c: i32)
    requires
        0 <= c <= 0xFFFFFF,
    ensures
        read_color(color_text(c)) == Ok::<Option<i32>, ()>(Some(c)),
{
    let n = c as u32 as nat;
    let s = hex_nat(n);
    hex_reads_back(n);
    if s.len() < 6 {
        zeros_change_nothing((6 - s.len()) as nat, s);
    }
    let t = color_text(c);
    assert(all_hex(t));
    assert(hex_digit(t[0]) is Some);
    assert(without_hashes(t) == t);
    assert(hex_number(t) == Some(c as int));
    digits_are_not_blank(t);
}

// ----- how colours are read -----------------------------------------------------------------------

/// A colour is read digit by digit, whatever the case of its letters: each digit behind
/// the others makes the number sixteen times as large and adds its own value.
pub proof fn digits_add_up(s: Seq<char>, c: char, d: int)
    ensures
        0 <= d <= 9 && c as int == '0' as int + d ==> hex_digit(c) == Some(d),
        10 <= d <= 15 && (c as int == 'A' as int + d - 10 || c as int == 'a' as int + d - 10)
            ==> hex_digit(c) == Some(d),
        !('0' <= c <= '9' || 'A' <= c <= 'F' || 'a' <= c <= 'f') ==> hex_digit(c) is None,
        hex_digit(c) == Some(d) ==> hex_value(s.push(c)) == hex_value(s) * 16 + d,
        hex_value(Seq::empty()) == 0,
{
    assert(s.push(c).drop_last() =~= s);
}

/// Hashes in front of a colour do not count; nothing typed is no colour; what holds
/// another character than digits, or more than three bytes, is refused.
pub proof fn colors_are_read_from_digits(s: Seq<char>)
    ensures
        trimmed(s).len() == 0 ==> read_color(s) == Ok::<Option<i32>, ()>(None),
        trimmed(s).len() > 0 && s[0] != '#' && all_hex(s) && hex_value(s) <= 0xFFFFFF ==> read_color(
            s,
        ) == Ok::<Option<i32>, ()>(Some(hex_value(s) as i32)),
        trimmed(s).len() > 0 && s[0] != '#' && all_hex(s) && hex_value(s) > 0xFFFFFF ==> read_color(
            s,
        ) is Err,
        trimmed(s).len() > 0 && s[0] != '#' && !all_hex(s) ==> read_color(s) is Err,
        forall|i: int|
            #![trigger s[i]]
            all_hex(s) && 0 <= i < s.len() ==> '0' <= s[i] <= '9' || 'A' <= s[i] <= 'F' || 'a' <= s[i]
                <= 'f',
        trimmed(seq!['#'] + s).len() > 0 && trimmed(s).len() > 0 ==> read_color(seq!['#'] + s)
            == read_color(s),
        s.len() > 0 && s[0] != '#' ==> without_hashes(s) == s,
        without_hashes(seq!['#'] + s) == without_hashes(s),
{
    assert((seq!['#'] + s).skip(1) =~= s);
    if trimmed(s).len() > 0 {
        assert(s.len() > 0);
    }
}

/// Hashes alone are no colour.
pub proof fn hashes_alone_are_no_color(s: Seq<char>)
    requires
        trimmed(s).len() > 0,
        forall|i: int| 0 <= i < s.len() ==> #[trigger] s[i] == '#',
    ensures
        read_color(s) is Err,
{
    only_hashes_leave_nothing(s);
}

proof fn only_hashes_leave_nothing(s: Seq<char>)
    requires
        forall|i: int| 0 <= i < s.len() ==> #[trigger] s[i] == '#',
    ensures
        without_hashes(s).len() == 0,
    decreases s.len(),
{
    if s.len() > 0 {
        assert forall|i: int| 0 <= i < s.skip(1).len() implies #[trigger] s.skip(1)[i] == '#' by {
            assert(s[i + 1] == '#');
        }
        only_hashes_leave_nothing(s.skip(1));
    }
}

} // verus!
