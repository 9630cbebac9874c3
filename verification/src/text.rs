//! Text over its characters: building, comparing, searching and cutting.
//!
//! A string is modelled by its view, the sequence of its characters.

use vstd::prelude::*;
use vstd::string::{StrSliceExecFns, StringExecFns};

use crate::unicode::{
    ascii_digit, ascii_lower_char, ascii_lower_text, is_white_space, lower_char, white_space,
};

verus! {

/// `String::push` appends one character.
pub assume_specification[ String::push ](s: &mut String, c: char)
    ensures
        final(s)@ == old(s)@.push(c),
;

/// The characters of a text.
pub fn chars(s: &str) -> (r: Vec<char>)
    ensures
        r@ == s@,
{
    let mut out: Vec<char> = Vec::new();
    for c in iter: s.chars()
        invariant
            iter.seq() == s@,
            out@ == s@.take(iter.index() as int),
    {
        out.push(c);
    }
    out
}

/// The text of the characters `from..to`.
pub fn text_of(cs: &[char], from: usize, to: usize) -> (r: String)
    requires
        from <= to <= cs@.len(),
    ensures
        r@ == cs@.subrange(from as int, to as int),
{
    let mut out = String::new();
    let mut i: usize = from;
    while i < to
        invariant
            from <= i <= to <= cs@.len(),
            out@ == cs@.subrange(from as int, i as int),
        decreases to - i,
    {
        out.push(cs[i]);
        i = i + 1;
    }
    out
}

/// A copy of a text.
pub fn own(s: &str) -> (r: String)
    ensures
        r@ == s@,
{
    s.to_owned()
}

/// Two texts in a row.
pub fn cat2(a: &str, b: &str) -> (r: String)
    ensures
        r@ == a@ + b@,
{
    let mut s = a.to_owned();
    s.append(b);
    s
}

/// Three texts in a row.
pub fn cat3(a: &str, b: &str, c: &str) -> (r: String)
    ensures
        r@ == a@ + b@ + c@,
{
    let mut s = cat2(a, b);
    s.append(c);
    s
}

/// Four texts in a row.
pub fn cat4(a: &str, b: &str, c: &str, d: &str) -> (r: String)
    ensures
        r@ == a@ + b@ + c@ + d@,
{
    let mut s = cat3(a, b, c);
    s.append(d);
    s
}

/// Five texts in a row.
pub fn cat5(a: &str, b: &str, c: &str, d: &str, e: &str) -> (r: String)
    ensures
        r@ == a@ + b@ + c@ + d@ + e@,
{
    let mut s = cat4(a, b, c, d);
    s.append(e);
    s
}

/// Six texts in a row.
pub fn cat6(a: &str, b: &str, c: &str, d: &str, e: &str, f: &str) -> (r: String)
    ensures
        r@ == a@ + b@ + c@ + d@ + e@ + f@,
{
    let mut s = cat5(a, b, c, d, e);
    s.append(f);
    s
}

/// Seven texts in a row.
pub fn cat7(a: &str, b: &str, c: &str, d: &str, e: &str, f: &str, g: &str) -> (r: String)
    ensures
        r@ == a@ + b@ + c@ + d@ + e@ + f@ + g@,
{
    let mut s = cat6(a, b, c, d, e, f);
    s.append(g);
    s
}

/// A text that is built up piece by piece.
#[derive(Debug)]
pub struct Text {
    built: String,
}

impl View for Text {
    type V = Seq<char>;

    closed spec fn view(&self) -> Seq<char> {
        self.built@
    }
}

impl Text {
    /// A text that begins with a piece.
    pub fn new(s: &str) -> (r: Self)
        ensures
            r@ == s@,
    {
        Text { built: own(s) }
    }

    /// The text with one more piece.
    pub fn add(self, s: &str) -> (r: Self)
        ensures
            r@ == self@ + s@,
    {
        let mut built = self.built;
        built.append(s);
        Text { built }
    }

    /// The text as it stands.
    pub fn done(self) -> (r: String)
        ensures
            r@ == self@,
    {
        self.built
    }
}

/// Whether two texts are the same.
pub fn same(a: &str, b: &str) -> (r: bool)
    ensures
        r == (a@ == b@),
{
    own(a) == own(b)
}

/// Whether a text is among the given ones.
pub open spec fn is_one_of(s: Seq<char>, list: Seq<&str>) -> bool {
    exists|i: int| 0 <= i < list.len() && (#[trigger] list[i])@ == s
}

/// Whether a text is among the given ones.
pub fn one_of(s: &str, list: &[&str]) -> (r: bool)
    ensures
        r == is_one_of(s@, list@),
{
    let mut i: usize = 0;
    while i < list.len()
        invariant
            i <= list@.len(),
            forall|k: int| 0 <= k < i ==> (#[trigger] list@[k])@ != s@,
        decreases list@.len() - i,
    {
        if same(list[i], s) {
            return true;
        }
        i = i + 1;
    }
    false
}

/// `part` stands in `s` at position `i`.
pub open spec fn occurs_at<T>(s: Seq<T>, i: int, part: Seq<T>) -> bool {
    0 <= i && i + part.len() <= s.len() && s.subrange(i, i + part.len()) == part
}

/// `part` stands somewhere in `s`.
pub open spec fn occurs<T>(s: Seq<T>, part: Seq<T>) -> bool {
    exists|i: int| #[trigger] occurs_at(s, i, part)
}

/// The first position at or after `from` where `part` stands in `s`.
pub open spec fn next_at<T>(s: Seq<T>, from: int, part: Seq<T>) -> Option<int>
    decreases s.len() + 1 - from,
{
    if from < 0 || from + part.len() > s.len() {
        None
    } else if occurs_at(s, from, part) {
        Some(from)
    } else {
        next_at(s, from + 1, part)
    }
}

/// `next_at` is the least position: `part` stands there, and nowhere between
/// `from` and it; and it is missing only where `part` stands nowhere after `from`.
pub proof fn next_at_is_first<T>(s: Seq<T>, from: int, part: Seq<T>)
    requires
        0 <= from,
    ensures
        next_at(s, from, part) matches Some(i) ==> from <= i && occurs_at(s, i, part),
        next_at(s, from, part) matches Some(i) ==> forall|j: int|
            from <= j < i ==> !#[trigger] occurs_at(s, j, part),
        next_at(s, from, part) is None ==> forall|j: int|
            from <= j ==> !#[trigger] occurs_at(s, j, part),
    decreases s.len() + 1 - from,
{
    if from + part.len() <= s.len() && !occurs_at(s, from, part) {
        next_at_is_first(s, from + 1, part);
    }
}

fn matches_at(s: &[char], i: usize, part: &[char]) -> (r: bool)
    requires
        i + part@.len() <= s@.len(),
    ensures
        r == occurs_at(s@, i as int, part@),
{
    let n: usize = s.len();
    let mut k: usize = 0;
    while k < part.len()
        invariant
            k <= part@.len(),
            i + part@.len() <= s@.len(),
            s@.len() == n,
            forall|m: int| 0 <= m < k ==> s@[i + m] == #[trigger] part@[m],
        decreases part@.len() - k,
    {
        if s[i + k] != part[k] {
            assert(s@.subrange(i as int, i + part@.len())[k as int] != part@[k as int]);
            return false;
        }
        k = k + 1;
    }
    assert(s@.subrange(i as int, i + part@.len()) =~= part@);
    true
}

/// The first position at or after `from` where `part` stands in `s`.
pub fn find(s: &[char], from: usize, part: &[char]) -> (r: Option<usize>)
    requires
        from <= s@.len(),
    ensures
        r matches Some(i) ==> next_at(s@, from as int, part@) == Some(i as int),
        r is None ==> next_at(s@, from as int, part@) is None,
{
    let mut i: usize = from;
    while i <= s.len() && part.len() <= s.len() - i
        invariant
            from <= i,
            i <= s@.len() + 1,
            next_at(s@, from as int, part@) == next_at(s@, i as int, part@),
        decreases s@.len() + 1 - i,
    {
        if matches_at(s, i, part) {
            return Some(i);
        }
        if i == s.len() {
            assert(s@.subrange(i as int, i as int) =~= part@);
            return None;
        }
        i = i + 1;
    }
    None
}

/// Whether `part` stands somewhere in `s`.
pub fn contains(s: &str, part: &str) -> (r: bool)
    ensures
        r == occurs(s@, part@),
{
    let a = chars(s);
    let b = chars(part);
    proof {
        next_at_is_first(s@, 0, part@);
    }
    find(a.as_slice(), 0, b.as_slice()).is_some()
}

/// `s` begins with `part`.
pub open spec fn begins<T>(s: Seq<T>, part: Seq<T>) -> bool {
    occurs_at(s, 0, part)
}

/// Whether `s` begins with `part`.
pub fn starts_with(s: &str, part: &str) -> (r: bool)
    ensures
        r == begins(s@, part@),
{
    let a = chars(s);
    let b = chars(part);
    if b.len() > a.len() {
        false
    } else {
        matches_at(a.as_slice(), 0, b.as_slice())
    }
}

/// The first `n` characters of a text, or all of it.
pub open spec fn first_chars(s: Seq<char>, n: int) -> Seq<char> {
    if s.len() <= n {
        s
    } else {
        s.take(n)
    }
}

/// The first `n` characters of a text, or all of it.
pub fn take_chars(s: &str, n: usize) -> (r: String)
    ensures
        r@ == first_chars(s@, n as int),
{
    if s.unicode_len() <= n {
        s.to_owned()
    } else {
        let t = s.substring_char(0, n).to_owned();
        assert(t@ =~= s@.take(n as int));
        t
    }
}

/// The views of a list of texts.
pub open spec fn views(v: Seq<String>) -> Seq<Seq<char>> {
    Seq::new(v.len(), |i: int| v[i]@)
}

/// The views of a list of borrowed texts.
pub open spec fn str_views(v: Seq<&str>) -> Seq<Seq<char>> {
    Seq::new(v.len(), |i: int| v[i]@)
}

/// Adding a text to a list adds its view to the list's views.
pub broadcast proof fn views_push(v: Seq<String>, t: String)
    ensures
        #[trigger] views(v.push(t)) == views(v).push(t@),
{
    assert(views(v.push(t)) =~= views(v).push(t@));
}

/// A copy of a list of texts.
pub fn own_all(v: &Vec<String>) -> (r: Vec<String>)
    ensures
        views(r@) == views(v@),
{
    let mut out: Vec<String> = Vec::new();
    let mut i: usize = 0;
    while i < v.len()
        invariant
            i <= v@.len(),
            views(out@) == views(v@).take(i as int),
        decreases v@.len() - i,
    {
        broadcast use views_push;

        out.push(own(&v[i]));
        i = i + 1;
        assert(views(v@).take(i as int) =~= views(v@).take(i - 1).push(v@[i - 1]@));
    }
    assert(views(v@).take(i as int) =~= views(v@));
    out
}

/// A copy of a text that may be missing.
pub fn own_opt(s: &Option<String>) -> (r: Option<String>)
    ensures
        opt_view(r) == opt_view(*s),
{
    match s {
        Some(t) => Some(own(t)),
        None => None,
    }
}

/// The view of a text that may be missing.
pub open spec fn opt_view(s: Option<String>) -> Option<Seq<char>> {
    match s {
        Some(t) => Some(t@),
        None => None,
    }
}

/// Texts in a row, with a separator between each two.
pub open spec fn joined(parts: Seq<Seq<char>>, sep: Seq<char>) -> Seq<char>
    decreases parts.len(),
{
    if parts.len() == 0 {
        Seq::empty()
    } else if parts.len() == 1 {
        parts[0]
    } else {
        joined(parts.drop_last(), sep) + sep + parts.last()
    }
}

/// Texts in a row, with a separator between each two.
pub fn join(parts: &Vec<String>, sep: &str) -> (r: String)
    ensures
        r@ == joined(views(parts@), sep@),
{
    let mut out = String::new();
    let mut i: usize = 0;
    while i < parts.len()
        invariant
            i <= parts@.len(),
            out@ == joined(views(parts@).take(i as int), sep@),
        decreases parts@.len() - i,
    {
        if i > 0 {
            out.append(sep);
        }
        out.append(&parts[i]);
        i = i + 1;
        assert(views(parts@).take(i as int).drop_last() =~= views(parts@).take(i - 1));
        assert(views(parts@).take(i as int).last() == parts@[i - 1]@);
        assert(Seq::<char>::empty() + parts@[i - 1]@ =~= parts@[i - 1]@);
    }
    assert(views(parts@).take(i as int) =~= views(parts@));
    out
}

/// The pieces of a text between the places where `sep` stands: one more than
/// there are such places.
pub open spec fn split_at_char(s: Seq<char>, sep: char) -> Seq<Seq<char>>
    decreases s.len(),
{
    if s.len() == 0 {
        seq![Seq::empty()]
    } else {
        let before = split_at_char(s.drop_last(), sep);
        if s.last() == sep {
            before.push(Seq::empty())
        } else {
            before.drop_last().push(before.last().push(s.last()))
        }
    }
}

/// There is always at least one piece.
pub proof fn split_has_a_piece(s: Seq<char>, sep: char)
    ensures
        split_at_char(s, sep).len() >= 1,
    decreases s.len(),
{
    if s.len() > 0 {
        split_has_a_piece(s.drop_last(), sep);
    }
}

/// The pieces of a text between the places where `sep` stands.
pub fn split_char(s: &str, sep: char) -> (r: Vec<String>)
    ensures
        views(r@) == split_at_char(s@, sep),
        r@.len() >= 1,
{
    broadcast use views_push;

    let cs = chars(s);
    let mut done: Vec<String> = Vec::new();
    let mut cur = String::new();
    let mut i: usize = 0;
    assert(views(done@).push(cur@) =~= split_at_char(s@.take(0), sep));
    while i < cs.len()
        invariant
            i <= cs@.len(),
            cs@ == s@,
            views(done@).push(cur@) == split_at_char(s@.take(i as int), sep),
        decreases cs@.len() - i,
    {
        broadcast use views_push;

        let c = cs[i];
        assert(s@.take(i + 1).drop_last() =~= s@.take(i as int));
        assert(s@.take(i + 1).last() == c);
        let ghost before = views(done@).push(cur@);
        if c == sep {
            done.push(cur);
            cur = String::new();
            assert(views(done@).push(cur@) =~= before.push(Seq::empty()));
        } else {
            cur.push(c);
            assert(views(done@).push(cur@) =~= before.drop_last().push(before.last().push(c)));
        }
        i = i + 1;
    }
    assert(s@.take(i as int) =~= s@);
    done.push(cur);
    done
}

// ----- white space and case -------------------------------------------------

/// A text without the white space at its start.
pub open spec fn trimmed_start(s: Seq<char>) -> Seq<char>
    decreases s.len(),
{
    if s.len() > 0 && white_space(s[0]) {
        trimmed_start(s.skip(1))
    } else {
        s
    }
}

/// A text without the white space at its end.
pub open spec fn trimmed_end(s: Seq<char>) -> Seq<char>
    decreases s.len(),
{
    if s.len() > 0 && white_space(s.last()) {
        trimmed_end(s.drop_last())
    } else {
        s
    }
}

/// A text without the white space at both of its ends.
pub open spec fn trimmed(s: Seq<char>) -> Seq<char> {
    trimmed_end(trimmed_start(s))
}

/// A text without the white space at both of its ends.
pub fn trim(s: &str) -> (r: String)
    ensures
        r@ == trimmed(s@),
{
    let cs = chars(s);
    let mut from: usize = 0;
    assert(s@.skip(0) =~= s@);
    while from < cs.len() && is_white_space(cs[from])
        invariant
            from <= cs@.len(),
            cs@ == s@,
            trimmed_start(s@) == trimmed_start(s@.skip(from as int)),
        decreases cs@.len() - from,
    {
        assert(s@.skip(from as int).skip(1) =~= s@.skip(from + 1));
        from = from + 1;
    }
    assert(trimmed_start(s@) == s@.skip(from as int));
    let mut to: usize = cs.len();
    assert(s@.subrange(from as int, to as int) =~= s@.skip(from as int));
    while to > from && is_white_space(cs[to - 1])
        invariant
            from <= to <= cs@.len(),
            cs@ == s@,
            trimmed(s@) == trimmed_end(s@.subrange(from as int, to as int)),
        decreases to,
    {
        assert(s@.subrange(from as int, to as int).drop_last() =~= s@.subrange(from as int, to - 1));
        to = to - 1;
    }
    text_of(cs.as_slice(), from, to)
}

/// What `trim` leaves has no white space at either end.
pub proof fn trimmed_ends_are_not_white(s: Seq<char>)
    ensures
        trimmed(s).len() > 0 ==> !white_space(trimmed(s)[0]) && !white_space(trimmed(s).last()),
{
    trimmed_start_begins(s);
    trimmed_end_keeps_start(trimmed_start(s));
}

proof fn trimmed_start_begins(s: Seq<char>)
    ensures
        trimmed_start(s).len() > 0 ==> !white_space(trimmed_start(s)[0]),
    decreases s.len(),
{
    if s.len() > 0 && white_space(s[0]) {
        trimmed_start_begins(s.skip(1));
    }
}

proof fn trimmed_end_keeps_start(s: Seq<char>)
    ensures
        trimmed_end(s).len() <= s.len(),
        trimmed_end(s).len() > 0 ==> trimmed_end(s)[0] == s[0] && !white_space(trimmed_end(s).last()),
    decreases s.len(),
{
    if s.len() > 0 && white_space(s.last()) {
        trimmed_end_keeps_start(s.drop_last());
    }
}

/// A text with each of its ASCII letters in lower case.
pub fn to_ascii_lower(s: &str) -> (r: String)
    ensures
        r@ == ascii_lower_text(s@),
{
    let mut out = String::new();
    let cs = chars(s);
    let mut i: usize = 0;
    while i < cs.len()
        invariant
            i <= cs@.len(),
            cs@ == s@,
            out@ == ascii_lower_text(s@).take(i as int),
        decreases cs@.len() - i,
    {
        out.push(lower_char(cs[i]));
        i = i + 1;
        assert(ascii_lower_text(s@).take(i as int) =~= ascii_lower_text(s@).take(i - 1).push(
            ascii_lower_char(s@[i - 1]),
        ));
    }
    assert(ascii_lower_text(s@).take(i as int) =~= ascii_lower_text(s@));
    out
}

/// Whether two texts are the same but for the case of their ASCII letters.
pub open spec fn same_but_case(a: Seq<char>, b: Seq<char>) -> bool {
    ascii_lower_text(a) == ascii_lower_text(b)
}

/// Whether two texts are the same but for the case of their ASCII letters.
pub fn eq_ignore_case(a: &str, b: &str) -> (r: bool)
    ensures
        r == same_but_case(a@, b@),
{
    to_ascii_lower(a) == to_ascii_lower(b)
}

// ----- numbers ------------------------------------------------------------

/// The character of a decimal digit.
pub open spec fn digit_char(d: int) -> char {
    (48 + d) as u8 as char
}

/// A natural number in decimal, without leading zeros.
pub open spec fn dec_nat(n: nat) -> Seq<char>
    decreases n,
{
    if n < 10 {
        seq![digit_char(n as int)]
    } else {
        dec_nat(n / 10).push(digit_char((n % 10) as int))
    }
}

/// A whole number in decimal, with a minus sign where it is negative.
pub open spec fn dec(n: int) -> Seq<char> {
    if n < 0 {
        seq!['-'] + dec_nat((-n) as nat)
    } else {
        dec_nat(n as nat)
    }
}

fn digit(d: u64) -> (c: char)
    requires
        d < 10,
    ensures
        c == digit_char(d as int),
{
    (48 + d) as u8 as char
}

/// A number in decimal.
pub fn dec_u64(n: u64) -> (r: String)
    ensures
        r@ == dec(n as int),
    decreases n,
{
    if n < 10 {
        let mut s = String::new();
        s.push(digit(n));
        s
    } else {
        let mut s = dec_u64(n / 10);
        s.push(digit(n % 10));
        s
    }
}

/// A number in decimal.
pub fn dec_usize(n: usize) -> (r: String)
    ensures
        r@ == dec(n as int),
{
    dec_u64(n as u64)
}

/// A number in decimal.
pub fn dec_u32(n: u32) -> (r: String)
    ensures
        r@ == dec(n as int),
{
    dec_u64(n as u64)
}

/// A number in decimal.
pub fn dec_i64(n: i64) -> (r: String)
    ensures
        r@ == dec(n as int),
{
    if n >= 0 {
        dec_u64(n as u64)
    } else if n == i64::MIN {
        let s = dec_u64(0x8000_0000_0000_0000);
        cat2_minus(&s)
    } else {
        let s = dec_u64((-n) as u64);
        cat2_minus(&s)
    }
}

fn cat2_minus(s: &str) -> (r: String)
    ensures
        r@ == seq!['-'] + s@,
{
    let mut m = String::new();
    m.push('-');
    assert(m@ =~= seq!['-']);
    cat2(&m, s)
}

/// A number in decimal.
pub fn dec_i32(n: i32) -> (r: String)
    ensures
        r@ == dec(n as int),
{
    dec_i64(n as i64)
}

/// Every character is a decimal digit.
pub open spec fn all_digits(s: Seq<char>) -> bool {
    forall|i: int| 0 <= i < s.len() ==> ascii_digit(#[trigger] s[i])
}

/// The number that decimal digits write.
pub open spec fn digits_value(s: Seq<char>) -> nat
    decreases s.len(),
{
    if s.len() == 0 {
        0
    } else {
        digits_value(s.drop_last()) * 10 + (s.last() as nat - 48) as nat
    }
}

/// The whole number that a text writes: at least one digit, after at most one
/// sign.
pub open spec fn int_value(s: Seq<char>) -> Option<int> {
    if s.len() > 1 && s[0] == '-' && all_digits(s.skip(1)) {
        Some(-(digits_value(s.skip(1)) as int))
    } else if s.len() > 1 && s[0] == '+' && all_digits(s.skip(1)) {
        Some(digits_value(s.skip(1)) as int)
    } else if s.len() > 0 && all_digits(s) {
        Some(digits_value(s) as int)
    } else {
        None
    }
}

/// The number that a text writes without a minus sign.
pub open spec fn nat_value(s: Seq<char>) -> Option<int> {
    if s.len() > 0 && s[0] == '-' {
        None
    } else {
        int_value(s)
    }
}

/// A number, where it lies between two bounds.
pub open spec fn within(n: Option<int>, low: int, high: int) -> Option<int> {
    match n {
        Some(v) => if low <= v <= high {
            Some(v)
        } else {
            None
        },
        None => None,
    }
}

proof fn digits_value_grows(s: Seq<char>, n: int)
    requires
        0 <= n <= s.len(),
        all_digits(s),
    ensures
        digits_value(s.take(n)) <= digits_value(s),
    decreases s.len() - n,
{
    if n < s.len() {
        digits_value_grows(s, n + 1);
        assert(s.take(n + 1).drop_last() =~= s.take(n));
    } else {
        assert(s.take(n) =~= s);
    }
}

/// The digits from `from` on, where there is nothing else and their number is
/// at most `u64::MAX`.
fn parse_digits(cs: &Vec<char>, from: usize) -> (r: Option<u64>)
    requires
        from <= cs@.len(),
    ensures
        r matches Some(v) ==> all_digits(cs@.skip(from as int)) && v == digits_value(
            cs@.skip(from as int),
        ),
        r is None ==> !all_digits(cs@.skip(from as int)) || digits_value(cs@.skip(from as int))
            > u64::MAX,
{
    let ghost ds = cs@.skip(from as int);
    let mut v: u64 = 0;
    let mut i: usize = from;
    while i < cs.len()
        invariant
            from <= i <= cs@.len(),
            ds == cs@.skip(from as int),
            all_digits(ds.take(i - from)),
            v == digits_value(ds.take(i - from)),
        decreases cs@.len() - i,
    {
        let c = cs[i];
        assert(ds[i - from] == c);
        assert(ds.take(i - from + 1).drop_last() =~= ds.take(i - from));
        assert(ds.take(i - from + 1).last() == c);
        if !('0' <= c && c <= '9') {
            return None;
        }
        let d: u64 = c as u64 - 48;
        assert(digits_value(ds.take(i - from + 1)) == v * 10 + d);
        if v > (u64::MAX - d) / 10 {
            proof {
                if all_digits(ds) {
                    digits_value_grows(ds, i - from + 1);
                }
            }
            return None;
        }
        v = v * 10 + d;
        i = i + 1;
        assert(ds.take(i - from) =~= ds.take(i - from - 1).push(c));
    }
    assert(ds.take(i - from) =~= ds);
    Some(v)
}

/// The unsigned number that a text writes.
pub fn parse_u64(s: &str) -> (r: Option<u64>)
    ensures
        match r {
            Some(v) => within(nat_value(s@), 0, u64::MAX as int) == Some(v as int),
            None => within(nat_value(s@), 0, u64::MAX as int) is None,
        },
{
    let cs = chars(s);
    if cs.len() == 0 {
        return None;
    }
    if cs[0] == '+' {
        assert(!ascii_digit(s@[0]));
        if cs.len() == 1 {
            return None;
        }
        return parse_digits(&cs, 1);
    }
    assert(cs@.skip(0) =~= s@);
    parse_digits(&cs, 0)
}

/// The signed number that a text writes.
pub fn parse_i64(s: &str) -> (r: Option<i64>)
    ensures
        match r {
            Some(v) => within(int_value(s@), i64::MIN as int, i64::MAX as int) == Some(v as int),
            None => within(int_value(s@), i64::MIN as int, i64::MAX as int) is None,
        },
{
    let cs = chars(s);
    if cs.len() == 0 {
        return None;
    }
    if cs[0] == '-' {
        assert(!ascii_digit(s@[0]));
        if cs.len() == 1 {
            return None;
        }
        return match parse_digits(&cs, 1) {
            Some(v) => if v < 0x8000_0000_0000_0000 {
                Some(-(v as i64))
            } else if v == 0x8000_0000_0000_0000 {
                Some(i64::MIN)
            } else {
                None
            },
            None => None,
        };
    }
    match parse_u64(s) {
        Some(v) => if v <= 0x7fff_ffff_ffff_ffff {
            Some(v as i64)
        } else {
            None
        },
        None => None,
    }
}

/// The signed number that a text writes.
pub fn parse_i32(s: &str) -> (r: Option<i32>)
    ensures
        match r {
            Some(v) => within(int_value(s@), i32::MIN as int, i32::MAX as int) == Some(v as int),
            None => within(int_value(s@), i32::MIN as int, i32::MAX as int) is None,
        },
{
    match parse_i64(s) {
        Some(v) => if -0x8000_0000 <= v && v <= 0x7fff_ffff {
            Some(v as i32)
        } else {
            None
        },
        None => None,
    }
}

/// The unsigned number that a text writes.
pub fn parse_usize(s: &str) -> (r: Option<usize>)
    ensures
        match r {
            Some(v) => within(nat_value(s@), 0, usize::MAX as int) == Some(v as int),
            None => within(nat_value(s@), 0, usize::MAX as int) is None,
        },
{
    match parse_u64(s) {
        Some(v) => if v <= usize::MAX as u64 {
            Some(v as usize)
        } else {
            None
        },
        None => None,
    }
}

// ----- what writing and reading keep -------------------------------------------------

proof fn dec_nat_reads_back(n: nat)
    ensures
        dec_nat(n).len() > 0,
        all_digits(dec_nat(n)),
        digits_value(dec_nat(n)) == n,
    decreases n,
{
    if n < 10 {
        let c = digit_char(n as int);
        assert(dec_nat(n) == seq![c]);
        assert(dec_nat(n).drop_last() =~= Seq::<char>::empty());
        assert(dec_nat(n).last() == c);
        assert(digits_value(Seq::<char>::empty()) == 0);
    } else {
        dec_nat_reads_back(n / 10);
        let c = digit_char((n % 10) as int);
        let before = dec_nat(n / 10);
        assert(dec_nat(n) == before.push(c));
        assert(dec_nat(n).drop_last() =~= before);
        assert forall|i: int| 0 <= i < dec_nat(n).len() implies ascii_digit(
            #[trigger] dec_nat(n)[i],
        ) by {
            if i < before.len() {
                assert(dec_nat(n)[i] == before[i]);
            }
        }
    }
}

/// A number that was written is read back.
pub proof fn numbers_read_back(n: int)
    ensures
        int_value(dec(n)) == Some(n),
        dec(n).len() > 0,
{
    if n < 0 {
        dec_nat_reads_back((-n) as nat);
        assert(dec(n).skip(1) =~= dec_nat((-n) as nat));
    } else {
        dec_nat_reads_back(n as nat);
        assert(ascii_digit(dec(n)[0]));
    }
}

/// A character does not stand in a text.
pub open spec fn lacks(s: Seq<char>, c: char) -> bool {
    forall|i: int| 0 <= i < s.len() ==> #[trigger] s[i] != c
}

/// A written number holds digits and perhaps a minus sign, and nothing else.
pub proof fn numbers_lack(n: int, c: char)
    requires
        c != '-',
        !ascii_digit(c),
    ensures
        lacks(dec(n), c),
{
    if n < 0 {
        dec_nat_reads_back((-n) as nat);
        let d = dec_nat((-n) as nat);
        assert forall|i: int| 0 <= i < dec(n).len() implies #[trigger] dec(n)[i] != c by {
            if i > 0 {
                assert(ascii_digit(d[i - 1]));
            }
        }
    } else {
        dec_nat_reads_back(n as nat);
    }
}

/// A text without the separator is one piece.
pub proof fn split_whole(s: Seq<char>, sep: char)
    requires
        lacks(s, sep),
    ensures
        split_at_char(s, sep) == seq![s],
    decreases s.len(),
{
    if s.len() > 0 {
        split_whole(s.drop_last(), sep);
        assert(s.last() == s[s.len() - 1]);
        assert(split_at_char(s, sep) =~= seq![s.drop_last().push(s.last())]);
        assert(s.drop_last().push(s.last()) =~= s);
    } else {
        assert(s =~= Seq::<char>::empty());
    }
}

/// A text without the separator that is put behind a separator is one more piece.
pub proof fn split_behind(a: Seq<char>, b: Seq<char>, sep: char)
    requires
        lacks(b, sep),
    ensures
        split_at_char(a.push(sep) + b, sep) == split_at_char(a, sep).push(b),
    decreases b.len(),
{
    let s = a.push(sep) + b;
    split_has_a_piece(a, sep);
    if b.len() == 0 {
        assert(s =~= a.push(sep));
        assert(a.push(sep).drop_last() =~= a);
        assert(b =~= Seq::<char>::empty());
    } else {
        split_behind(a, b.drop_last(), sep);
        assert(s.drop_last() =~= a.push(sep) + b.drop_last());
        assert(s.last() == b[b.len() - 1]);
        let before = split_at_char(a, sep).push(b.drop_last());
        assert(split_at_char(s, sep) == before.drop_last().push(before.last().push(s.last())));
        assert(before.drop_last() =~= split_at_char(a, sep));
        assert(before.last().push(s.last()) =~= b);
    }
}

// ----- what the texts are for --------------------------------------------------------------

proof fn trimmed_start_drops_white(s: Seq<char>)
    ensures
        trimmed_start(s).len() <= s.len(),
        trimmed_start(s) == s.skip(s.len() - trimmed_start(s).len()),
        forall|i: int| 0 <= i < s.len() - trimmed_start(s).len() ==> white_space(#[trigger] s[i]),
    decreases s.len(),
{
    if s.len() > 0 && white_space(s[0]) {
        trimmed_start_drops_white(s.skip(1));
        let t = trimmed_start(s);
        assert(t =~= s.skip(s.len() - t.len()));
        assert forall|i: int| 0 <= i < s.len() - t.len() implies white_space(#[trigger] s[i]) by {
            if i > 0 {
                assert(s.skip(1)[i - 1] == s[i]);
            }
        }
    } else {
        assert(s.skip(0) =~= s);
    }
}

proof fn trimmed_end_drops_white(s: Seq<char>)
    ensures
        trimmed_end(s).len() <= s.len(),
        trimmed_end(s) == s.take(trimmed_end(s).len() as int),
        forall|i: int| trimmed_end(s).len() <= i < s.len() ==> white_space(#[trigger] s[i]),
    decreases s.len(),
{
    if s.len() > 0 && white_space(s.last()) {
        trimmed_end_drops_white(s.drop_last());
        let t = trimmed_end(s);
        assert(t =~= s.take(t.len() as int));
        assert forall|i: int| t.len() <= i < s.len() implies white_space(#[trigger] s[i]) by {
            if i < s.len() - 1 {
                assert(s.drop_last()[i] == s[i]);
            }
        }
    } else {
        assert(s.take(s.len() as int) =~= s);
    }
}

/// Trimming takes white space off the two ends of a text and nothing else: what is left
/// is one piece of the text, and only white space stands before and behind it.
pub proof fn trimming_drops_white_space_only(s: Seq<char>) -> (from: int)
    ensures
        0 <= from,
        from + trimmed(s).len() <= s.len(),
        trimmed(s) == s.subrange(from, from + trimmed(s).len()),
        forall|i: int| 0 <= i < from ==> white_space(#[trigger] s[i]),
        forall|i: int| from + trimmed(s).len() <= i < s.len() ==> white_space(#[trigger] s[i]),
        trimmed(s).len() > 0 ==> !white_space(trimmed(s)[0]) && !white_space(trimmed(s).last()),
{
    let a = trimmed_start(s);
    trimmed_start_drops_white(s);
    trimmed_end_drops_white(a);
    trimmed_ends_are_not_white(s);
    let from = s.len() - a.len();
    let t = trimmed(s);
    assert(t =~= s.subrange(from, from + t.len()));
    assert forall|i: int| from + t.len() <= i < s.len() implies white_space(#[trigger] s[i]) by {
        assert(a[i - from] == s[i]);
    }
    from
}

/// The first characters of a text are a beginning of it: all of it where it is no
/// longer, else as many as were asked for.
pub proof fn first_chars_are_a_beginning(s: Seq<char>, n: int)
    requires
        0 <= n,
    ensures
        first_chars(s, n).is_prefix_of(s),
        s.len() <= n ==> first_chars(s, n) == s,
        s.len() > n ==> first_chars(s, n).len() == n,
{
    assert(first_chars(s, n) =~= s.subrange(0, first_chars(s, n).len() as int));
}

/// One more piece comes behind the others, with the separator before it; the first
/// piece stands alone.
pub proof fn joining_adds_one_piece(parts: Seq<Seq<char>>, piece: Seq<char>, sep: Seq<char>)
    ensures
        joined(Seq::empty(), sep) == Seq::<char>::empty(),
        joined(seq![piece], sep) == piece,
        parts.len() > 0 ==> joined(parts.push(piece), sep) == joined(parts, sep) + sep + piece,
{
    assert(parts.push(piece).drop_last() =~= parts);
}

/// Joining the pieces of a text again gives the text, and no piece holds the separator.
pub proof fn splitting_is_undone_by_joining(s: Seq<char>, sep: char)
    ensures
        joined(split_at_char(s, sep), seq![sep]) == s,
        forall|k: int|
            0 <= k < split_at_char(s, sep).len() ==> !(#[trigger] split_at_char(s, sep)[k]).contains(
                sep,
            ),
    decreases s.len(),
{
    split_has_a_piece(s, sep);
    if s.len() > 0 {
        let short = s.drop_last();
        splitting_is_undone_by_joining(short, sep);
        split_has_a_piece(short, sep);
        let before = split_at_char(short, sep);
        let parts = split_at_char(s, sep);
        assert(s =~= short.push(s.last()));
        if s.last() == sep {
            assert(parts.drop_last() =~= before);
            assert(joined(parts, seq![sep]) =~= short.push(sep));
        } else {
            assert(parts.drop_last() =~= before.drop_last());
            if before.len() > 1 {
                assert(joined(parts, seq![sep]) =~= joined(before, seq![sep]).push(s.last()));
            }
        }
        assert forall|k: int| 0 <= k < parts.len() implies !(#[trigger] parts[k]).contains(sep) by {
            if k < before.len() - 1 {
                assert(parts[k] == before[k]);
            } else if s.last() == sep {
                if k < before.len() {
                    assert(parts[k] == before[k]);
                }
            } else {
                assert(parts[k] == before.last().push(s.last()));
                assert(!before[before.len() - 1].contains(sep));
                if parts[k].contains(sep) {
                    let j = choose|j: int| 0 <= j < parts[k].len() && parts[k][j] == sep;
                    assert(before.last()[j] == sep);
                }
            }
        }
    } else {
        assert(s =~= Seq::empty());
        assert(joined(split_at_char(s, sep), seq![sep]) =~= s);
    }
}

/// What stands between two texts occurs in what they make together.
pub proof fn parts_occur<T>(before: Seq<T>, part: Seq<T>, after: Seq<T>)
    ensures
        occurs(before + part + after, part),
{
    assert((before + part + after).subrange(before.len() as int, (before.len() + part.len()) as int)
        =~= part);
    assert(occurs_at(before + part + after, before.len() as int, part));
}

/// A number is read digit by digit: each digit behind the others makes it ten times as
/// large and adds its own value; a minus sign in front makes it negative, a plus sign
/// changes nothing, and a text with another character is no number.
pub proof fn digits_make_numbers(s: Seq<char>, d: int, c: char)
    requires
        0 <= d <= 9,
        all_digits(s),
    ensures
        int_value(Seq::empty()) is None,
        int_value(seq![digit_char(d)]) == Some(d),
        s.len() > 0 ==> int_value(s) is Some && int_value(s.push(digit_char(d))) == Some(
            int_value(s)->0 * 10 + d,
        ),
        s.len() > 0 ==> int_value(seq!['-'] + s) == Some(-int_value(s)->0),
        s.len() > 0 ==> int_value(seq!['+'] + s) == int_value(s),
        !('0' <= c <= '9') ==> int_value(s.push(c)) is None,
        s.len() > 0 ==> nat_value(s) == int_value(s) && nat_value(seq!['-'] + s) is None,
{
    let t = s.push(digit_char(d));
    assert(t.drop_last() =~= s);
    assert(all_digits(t)) by {
        assert forall|i: int| 0 <= i < t.len() implies ascii_digit(#[trigger] t[i]) by {
            if i < s.len() {
                assert(t[i] == s[i]);
            }
        }
    }
    assert(ascii_digit(t[0]));
    let one = seq![digit_char(d)];
    assert(one.drop_last() =~= Seq::empty());
    assert(digits_value(one.drop_last()) == 0);
    assert(all_digits(one));
    if s.len() > 0 {
        assert(ascii_digit(s[0]));
        assert((seq!['-'] + s).skip(1) =~= s);
        assert((seq!['+'] + s).skip(1) =~= s);
    }
    if !('0' <= c <= '9') {
        let bad = s.push(c);
        assert(!ascii_digit(bad[bad.len() - 1]));
        assert(!all_digits(bad));
        if s.len() > 0 {
            assert(ascii_digit(s[0]));
            assert(bad[0] == s[0]);
        }
    }
}

/// A text that is there is shown by its characters, and one that is not stays away.
pub proof fn texts_are_shown_where_they_are(s: String)
    ensures
        opt_view(Some(s)) == Some(s@),
        opt_view(None) is None,
{
}

} // verus!
