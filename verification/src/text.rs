//! Small verified text helpers shared by the rest of the library: building
//! strings, decimal and hexadecimal renderings, and decimal parsing in the
//! way that `str::parse` reads unsigned integers.

use vstd::prelude::*;
use vstd::utf8::*;

verus! {

/// Appends one character to a string (std's `String::push`).
#[verifier::external_body]
pub(crate) fn push_char(s: &mut String, c: char)
    ensures
        final(s)@ == old(s)@.push(c),
{
    s.push(c);
}

/// Appends a string slice (std's `String::push_str`).
#[verifier::external_body]
pub(crate) fn push_str(s: &mut String, t: &str)
    ensures
        final(s)@ == old(s)@ + t@,
{
    s.push_str(t);
}

/// The message of std's `FromUtf8Error` for bytes that are not valid UTF-8.
pub uninterp spec fn std_utf8_error_message(bytes: Seq<u8>) -> Seq<char>;

/// `String::from_utf8`. Claims: it succeeds exactly on valid UTF-8 and then
/// holds the decoded characters; otherwise it gives the named error message.
#[verifier::external_body]
pub(crate) fn string_from_utf8(bytes: Vec<u8>) -> (r: Result<String, String>)
    ensures
        r is Ok <==> valid_utf8(bytes@),
        r matches Ok(s) ==> s@ == decode_utf8(bytes@),
        r matches Err(m) ==> m@ == std_utf8_error_message(bytes@),
{
    String::from_utf8(bytes).map_err(|e| e.to_string())
}

/// An owned copy of a string slice.
pub fn owned(s: &str) -> (r: String)
    ensures
        r@ == s@,
{
    s.to_owned()
}

/// The concatenation of two string slices.
pub fn concat2(a: &str, b: &str) -> (r: String)
    ensures
        r@ == a@ + b@,
{
    let mut r = a.to_owned();
    push_str(&mut r, b);
    r
}

/// The concatenation of three string slices.
pub fn concat3(a: &str, b: &str, c: &str) -> (r: String)
    ensures
        r@ == a@ + b@ + c@,
{
    let mut r = a.to_owned();
    push_str(&mut r, b);
    push_str(&mut r, c);
    r
}

/// The characters of a string slice, in order.
pub fn chars_of(s: &str) -> (v: Vec<char>)
    ensures
        v@ == s@,
{
    let n = s.unicode_len();
    let mut v: Vec<char> = Vec::new();
    let mut i: usize = 0;
    while i < n
        invariant
            n == s@.len(),
            i <= n,
            v@ == s@.subrange(0, i as int),
        decreases n - i,
    {
        let c = s.get_char(i);
        v.push(c);
        i = i + 1;
        assert(v@ =~= s@.subrange(0, i as int));
    }
    assert(v@ =~= s@);
    v
}

/// A string made of the given characters.
pub fn string_of_chars(v: &Vec<char>) -> (s: String)
    ensures
        s@ == v@,
{
    let mut s = String::new();
    let mut i: usize = 0;
    while i < v.len()
        invariant
            i <= v.len(),
            s@ == v@.subrange(0, i as int),
        decreases v.len() - i,
    {
        push_char(&mut s, v[i]);
        i = i + 1;
        assert(s@ =~= v@.subrange(0, i as int));
    }
    assert(s@ =~= v@);
    s
}

/// Whether `c` is one of the ASCII digits `0`..`9`.
pub open spec fn is_dec_digit(c: char) -> bool {
    '0' <= c && c <= '9'
}

/// The value of an ASCII digit.
pub open spec fn digit_value(c: char) -> int {
    (c as int) - ('0' as int)
}

/// The digit character for a value below ten.
pub open spec fn digit_char(d: int) -> char {
    (d + ('0' as int)) as char
}

/// Every character of `s` is an ASCII digit.
pub open spec fn all_dec_digits(s: Seq<char>) -> bool {
    forall|i: int| 0 <= i < s.len() ==> #[trigger] is_dec_digit(s[i])
}

/// The number that a sequence of decimal digits denotes (most significant first).
pub open spec fn digits_value(s: Seq<char>) -> nat
    decreases s.len(),
{
    if s.len() == 0 {
        0
    } else {
        (digits_value(s.drop_last()) * 10 + digit_value(s.last())) as nat
    }
}

/// The digits part of an unsigned integer literal: the text after an optional `+`.
pub open spec fn unsigned_body(s: Seq<char>) -> Seq<char> {
    if s.len() > 0 && s[0] == '+' {
        s.drop_first()
    } else {
        s
    }
}

/// Why reading an unsigned integer failed, as std's `IntErrorKind` tells it.
#[derive(Debug, Clone, Copy, PartialEq, Eq, Structural)]
pub enum IntErrorKind {
    /// The text is empty.
    Empty,
    /// The text holds something other than an optional `+` and digits.
    InvalidDigit,
    /// The number is larger than the target type holds.
    PosOverflow,
}

/// Reads the digits of `body` from position `i` on, with `v` the value read so
/// far: at each position the value would first be multiplied by ten (which
/// may overflow), then the digit checked, then added (which may overflow).
pub open spec fn scan_digits(body: Seq<char>, max: nat, i: int, v: nat) -> Result<
    nat,
    IntErrorKind,
>
    decreases body.len() - i,
{
    if i < 0 || i >= body.len() {
        Ok(v)
    } else if v * 10 > max {
        Err(IntErrorKind::PosOverflow)
    } else if !is_dec_digit(body[i]) {
        Err(IntErrorKind::InvalidDigit)
    } else if v * 10 + digit_value(body[i]) > max {
        Err(IntErrorKind::PosOverflow)
    } else {
        scan_digits(body, max, i + 1, (v * 10 + digit_value(body[i])) as nat)
    }
}

/// What `str::parse` gives for an unsigned integer type whose largest value
/// is `max`: an optional `+` followed by at least one ASCII digit.
pub open spec fn spec_parse_uint(s: Seq<char>, max: nat) -> Result<nat, IntErrorKind> {
    if s.len() == 0 {
        Err(IntErrorKind::Empty)
    } else if unsigned_body(s).len() == 0 {
        Err(IntErrorKind::InvalidDigit)
    } else {
        scan_digits(unsigned_body(s), max, 0, 0)
    }
}

/// The message std's `ParseIntError` shows for each kind.
pub open spec fn int_error_message(k: IntErrorKind) -> Seq<char> {
    match k {
        IntErrorKind::Empty => "cannot parse integer from empty string"@,
        IntErrorKind::InvalidDigit => "invalid digit found in string"@,
        IntErrorKind::PosOverflow => "number too large to fit in target type"@,
    }
}

impl IntErrorKind {
    /// The message std's `ParseIntError` shows for this kind.
    pub fn message(&self) -> (r: String)
        ensures
            r@ == int_error_message(*self),
    {
        match self {
            IntErrorKind::Empty => owned("cannot parse integer from empty string"),
            IntErrorKind::InvalidDigit => owned("invalid digit found in string"),
            IntErrorKind::PosOverflow => owned("number too large to fit in target type"),
        }
    }
}

proof fn lemma_digits_value_push(s: Seq<char>, c: char)
    requires
        is_dec_digit(c),
    ensures
        digits_value(s.push(c)) == digits_value(s) * 10 + digit_value(c),
{
    assert(s.push(c).drop_last() =~= s);
}

/// Parses an unsigned decimal integer no larger than `max`, as `str::parse`
/// does for the unsigned integer types.
pub fn parse_unsigned(s: &str, max: u64) -> (r: Result<u64, IntErrorKind>)
    requires
        max >= 9,
    ensures
        match spec_parse_uint(s@, max as nat) {
            Ok(v) => r == Ok::<u64, IntErrorKind>(v as u64),
            Err(k) => r == Err::<u64, IntErrorKind>(k),
        },
        r matches Ok(x) ==> x <= max,
        spec_parse_uint(s@, max as nat) matches Ok(v) ==> v <= max,
{
    proof {
        if s@.len() > 0 && unsigned_body(s@).len() > 0 {
            lemma_scan_bound(unsigned_body(s@), max as nat, 0, 0);
        }
    }
    let chars = chars_of(s);
    let n = chars.len();
    if n == 0 {
        return Err(IntErrorKind::Empty);
    }
    let start: usize = if chars[0] == '+' { 1 } else { 0 };
    let ghost body = unsigned_body(s@);
    assert(body =~= s@.subrange(start as int, n as int));
    if start == n {
        return Err(IntErrorKind::InvalidDigit);
    }
    let mut value: u64 = 0;
    let mut i: usize = start;
    while i < n
        invariant
            chars@ == s@,
            n == chars.len(),
            start <= i <= n,
            body == s@.subrange(start as int, n as int),
            body == unsigned_body(s@),
            body.len() > 0,
            s@.len() > 0,
            value <= max,
            max >= 9,
            spec_parse_uint(s@, max as nat) == scan_digits(body, max as nat, i - start, value as nat),
        decreases n - i,
    {
        let c = chars[i];
        assert(body[i - start] == c);
        if value > max / 10 {
            assert(value * 10 > max) by (nonlinear_arith)
                requires
                    value > max / 10,
            ;
            return Err(IntErrorKind::PosOverflow);
        }
        assert(value * 10 <= max) by (nonlinear_arith)
            requires
                value <= max / 10,
        ;
        if !('0' <= c && c <= '9') {
            return Err(IntErrorKind::InvalidDigit);
        }
        let d: u64 = (c as u64) - ('0' as u64);
        assert(d == digit_value(c));
        if value * 10 > max - d {
            return Err(IntErrorKind::PosOverflow);
        }
        value = value * 10 + d;
        i = i + 1;
    }
    Ok(value)
}

/// A successful read never exceeds the bound.
pub proof fn lemma_scan_bound(body: Seq<char>, max: nat, i: int, v: nat)
    requires
        v <= max,
    ensures
        scan_digits(body, max, i, v) matches Ok(x) ==> x <= max,
    decreases body.len() - i,
{
    if 0 <= i < body.len() && v * 10 <= max && is_dec_digit(body[i]) && v * 10 + digit_value(
        body[i],
    ) <= max {
        lemma_scan_bound(body, max, i + 1, (v * 10 + digit_value(body[i])) as nat);
    }
}

/// Reading a digit string from a prefix whose value is already known gives
/// the value of the whole string, when that value fits.
proof fn lemma_scan_all_digits(body: Seq<char>, max: nat, i: int)
    requires
        0 <= i <= body.len(),
        all_dec_digits(body),
        digits_value(body) <= max,
    ensures
        scan_digits(body, max, i, digits_value(body.subrange(0, i))) == Ok::<nat, IntErrorKind>(
            digits_value(body),
        ),
    decreases body.len() - i,
{
    if i == body.len() {
        assert(body.subrange(0, i) =~= body);
    } else {
        let p = body.subrange(0, i);
        let q = body.subrange(0, i + 1);
        assert(q =~= p.push(body[i]));
        assert(is_dec_digit(body[i]));
        lemma_digits_value_push(p, body[i]);
        lemma_prefix_value_grows(body, i + 1);
        assert(digit_value(body[i]) >= 0);
        lemma_scan_all_digits(body, max, i + 1);
    }
}

/// The value of a digit string is at least the value of any of its prefixes.
proof fn lemma_prefix_value_grows(s: Seq<char>, k: int)
    requires
        0 <= k <= s.len(),
        all_dec_digits(s),
    ensures
        digits_value(s.subrange(0, k)) <= digits_value(s),
    decreases s.len() - k,
{
    if k < s.len() {
        lemma_prefix_value_grows(s, k + 1);
        let p = s.subrange(0, k);
        let q = s.subrange(0, k + 1);
        assert(q.drop_last() =~= p);
        assert(is_dec_digit(s[k]));
        assert(digits_value(p) <= digits_value(q)) by (nonlinear_arith)
            requires
                digits_value(q) == digits_value(p) * 10 + digit_value(q.last()),
                digit_value(q.last()) >= 0,
        ;
    } else {
        assert(s.subrange(0, k) =~= s);
    }
}

/// The decimal rendering of a natural number, without leading zeros.
pub open spec fn dec_string(n: nat) -> Seq<char>
    decreases n,
{
    if n < 10 {
        seq![digit_char(n as int)]
    } else {
        dec_string(n / 10).push(digit_char((n % 10) as int))
    }
}

/// The decimal rendering is a non-empty digit string that denotes `n`.
pub proof fn lemma_dec_string(n: nat)
    ensures
        dec_string(n).len() > 0,
        all_dec_digits(dec_string(n)),
        digits_value(dec_string(n)) == n,
    decreases n,
{
    if n < 10 {
        let s = dec_string(n);
        assert(s.drop_last() =~= Seq::<char>::empty());
        assert(digit_value(digit_char(n as int)) == n);
        assert(s.last() == digit_char(n as int));
        assert(digits_value(s.drop_last()) == 0);
    } else {
        lemma_dec_string(n / 10);
        let p = dec_string(n / 10);
        let c = digit_char((n % 10) as int);
        lemma_digits_value_push(p, c);
        assert forall|i: int| 0 <= i < p.push(c).len() implies #[trigger] is_dec_digit(
            p.push(c)[i],
        ) by {
            if i < p.len() {
                assert(is_dec_digit(p[i]));
            }
        }
    }
}

/// Renders `n` in decimal, as `{}` formatting does for unsigned integers.
pub fn u64_to_decimal(n: u64) -> (s: String)
    ensures
        s@ == dec_string(n as nat),
{
    let mut rev: Vec<char> = Vec::new();
    let mut m: u64 = n;
    let ghost mut done: Seq<char> = Seq::empty();
    // Collect digits from the least significant one.
    loop
        invariant_except_break
            m <= n,
            dec_string(n as nat) == dec_string(m as nat) + rev@.reverse(),
        ensures
            dec_string(n as nat) == rev@.reverse(),
        decreases m,
    {
        let d: u64 = m % 10;
        let c: char = char_of_digit(d);
        proof {
            if m >= 10 {
                assert(dec_string(m as nat) == dec_string((m / 10) as nat).push(c));
            }
        }
        rev.push(c);
        proof {
            assert(rev@.reverse() =~= seq![c] + rev@.drop_last().reverse());
        }
        if m < 10 {
            proof {
                assert(dec_string(m as nat) =~= seq![c]);
                assert(dec_string(n as nat) =~= rev@.reverse());
            }
            break;
        }
        proof {
            assert(dec_string(m as nat) + rev@.drop_last().reverse() =~= dec_string(
                (m / 10) as nat,
            ) + rev@.reverse());
        }
        m = m / 10;
    }
    let mut out: Vec<char> = Vec::new();
    let mut i: usize = rev.len();
    while i > 0
        invariant
            i <= rev.len(),
            out@ == rev@.reverse().subrange(0, (rev.len() - i) as int),
        decreases i,
    {
        i = i - 1;
        out.push(rev[i]);
        assert(out@ =~= rev@.reverse().subrange(0, (rev.len() - i) as int));
    }
    assert(out@ =~= rev@.reverse());
    string_of_chars(&out)
}

/// The digit character of a value below ten.
fn char_of_digit(d: u64) -> (c: char)
    requires
        d < 10,
    ensures
        c == digit_char(d as int),
{
    if d == 0 {
        '0'
    } else if d == 1 {
        '1'
    } else if d == 2 {
        '2'
    } else if d == 3 {
        '3'
    } else if d == 4 {
        '4'
    } else if d == 5 {
        '5'
    } else if d == 6 {
        '6'
    } else if d == 7 {
        '7'
    } else if d == 8 {
        '8'
    } else {
        '9'
    }
}

/// Parsing the decimal rendering of a number gives the number back.
pub proof fn lemma_parse_dec_string(n: nat, max: nat)
    requires
        n <= max,
    ensures
        spec_parse_uint(dec_string(n), max) == Ok::<nat, IntErrorKind>(n),
{
    lemma_dec_string(n);
    let s = dec_string(n);
    assert(is_dec_digit(s[0]));
    assert(unsigned_body(s) == s);
    assert(s.subrange(0, 0) =~= Seq::<char>::empty());
    lemma_scan_all_digits(s, max, 0);
}

/// The lowercase hexadecimal digit of a value below sixteen.
pub open spec fn hex_digit(d: int) -> char {
    if d < 10 {
        (d + ('0' as int)) as char
    } else {
        (d - 10 + ('a' as int)) as char
    }
}

/// Lowercase hexadecimal rendering of bytes, two digits per byte, high nibble first.
pub open spec fn hex_lower(b: Seq<u8>) -> Seq<char>
    decreases b.len(),
{
    if b.len() == 0 {
        Seq::empty()
    } else {
        hex_lower(b.drop_last()) + seq![
            hex_digit((b.last() / 16) as int),
            hex_digit((b.last() % 16) as int),
        ]
    }
}

/// Lowercase hexadecimal encoding of bytes (`hex::encode`).
#[verifier::external_body]
pub(crate) fn hex_encode(bytes: &[u8]) -> (s: String)
    ensures
        s@ == hex_lower(bytes@),
{
    hex::encode(bytes)
}

/// Whether `s` begins with `prefix`.
pub open spec fn has_prefix(s: Seq<char>, prefix: Seq<char>) -> bool {
    prefix.len() <= s.len() && s.subrange(0, prefix.len() as int) == prefix
}

/// Whether the string begins with the given prefix (`str::starts_with`).
pub fn starts_with(s: &str, prefix: &str) -> (r: bool)
    ensures
        r == has_prefix(s@, prefix@),
{
    let a = chars_of(s);
    let b = chars_of(prefix);
    if b.len() > a.len() {
        return false;
    }
    let mut i: usize = 0;
    while i < b.len()
        invariant
            a@ == s@,
            b@ == prefix@,
            b.len() <= a.len(),
            i <= b.len(),
            forall|j: int| 0 <= j < i ==> a@[j] == b@[j],
        decreases b.len() - i,
    {
        if a[i] != b[i] {
            assert(s@.subrange(0, prefix@.len() as int)[i as int] != prefix@[i as int]);
            return false;
        }
        i = i + 1;
    }
    assert(s@.subrange(0, prefix@.len() as int) =~= prefix@);
    true
}

/// Whether the character occurs in the string (`str::contains` with a `char`).
pub fn contains_char(s: &str, c: char) -> (r: bool)
    ensures
        r == s@.contains(c),
{
    let a = chars_of(s);
    let mut i: usize = 0;
    while i < a.len()
        invariant
            a@ == s@,
            i <= a.len(),
            forall|j: int| 0 <= j < i ==> a@[j] != c,
        decreases a.len() - i,
    {
        if a[i] == c {
            assert(s@[i as int] == c);
            return true;
        }
        i = i + 1;
    }
    false
}

/// Whether `t` occurs in `s` as a run of consecutive characters.
pub open spec fn has_infix(s: Seq<char>, t: Seq<char>) -> bool {
    exists|i: int| 0 <= i && i + t.len() <= s.len() && #[trigger] s.subrange(i, i + t.len()) == t
}

/// Whether `t` occurs in `s` (`str::contains` with a string).
pub fn contains_text(s: &str, t: &str) -> (r: bool)
    ensures
        r == has_infix(s@, t@),
{
    let a = chars_of(s);
    let b = chars_of(t);
    if b.len() > a.len() {
        return false;
    }
    if b.len() == 0 {
        assert(s@.subrange(0int, 0int + t@.len()) =~= t@);
        return true;
    }
    let last = a.len() - b.len();
    let mut i: usize = 0;
    while i <= last
        invariant
            a@ == s@,
            b@ == t@,
            b@.len() > 0,
            a@.len() <= usize::MAX,
            last + b@.len() == a@.len(),
            i <= last + 1,
            forall|k: int| 0 <= k < i ==> #[trigger] s@.subrange(k, k + t@.len()) != t@,
        decreases last + 1 - i,
    {
        let mut j: usize = 0;
        let mut same = true;
        while j < b.len()
            invariant
                a@ == s@,
                b@ == t@,
                a@.len() <= usize::MAX,
                i <= last,
                last + b@.len() == a@.len(),
                j <= b@.len(),
                same == (forall|m: int| 0 <= m < j ==> a@[i + m] == b@[m]),
            decreases b@.len() - j,
        {
            if a[i + j] != b[j] {
                same = false;
            }
            j = j + 1;
        }
        if same {
            assert(s@.subrange(i as int, i + t@.len()) =~= t@);
            return true;
        }
        assert(s@.subrange(i as int, i + t@.len()) != t@) by {
            let m = choose|m: int| 0 <= m < b@.len() && a@[i + m] != b@[m];
            assert(s@.subrange(i as int, i + t@.len())[m] != t@[m]);
        }
        i = i + 1;
    }
    false
}

/// Whether two strings hold the same characters.
pub fn str_eq(a: &str, b: &str) -> (r: bool)
    ensures
        r == (a@ == b@),
{
    let x = chars_of(a);
    let y = chars_of(b);
    if x.len() != y.len() {
        return false;
    }
    let mut i: usize = 0;
    while i < x.len()
        invariant
            x@ == a@,
            y@ == b@,
            x.len() == y.len(),
            i <= x.len(),
            forall|j: int| 0 <= j < i ==> x@[j] == y@[j],
        decreases x.len() - i,
    {
        if x[i] != y[i] {
            return false;
        }
        i = i + 1;
    }
    assert(a@ =~= b@);
    true
}

} // verus!
