//! Character classes, string building, and integer reading and writing.
//!
//! The grammar and the value model both work on sequences of characters.
//! This module holds the character predicates the grammar uses, verified
//! decimal and hexadecimal formatting, verified integer parsing with the
//! same error taxonomy as the standard library's integer parser, and the
//! few trusted bridges to `String`.

use vstd::prelude::*;

verus! {

broadcast use vstd::seq_lib::group_seq_properties;

// ---------------------------------------------------------------------------
// Character classes.
// ---------------------------------------------------------------------------

/// Whitespace tolerated by the grammar: the ASCII whitespace characters.
pub open spec fn spec_is_ws(c: char) -> bool {
    c == ' ' || c == '\t' || c == '\n' || c == '\r' || c == '\u{b}' || c == '\u{c}'
}

/// Decimal digits.
pub open spec fn spec_is_digit(c: char) -> bool {
    '0' <= c && c <= '9'
}

/// Letters: the first character of an identifier or a function name.
pub open spec fn spec_is_alpha(c: char) -> bool {
    ('a' <= c && c <= 'z') || ('A' <= c && c <= 'Z')
}

/// Characters allowed inside a field identifier.
pub open spec fn spec_is_ident_char(c: char) -> bool {
    spec_is_alpha(c) || spec_is_digit(c) || c == '_'
}

/// Characters allowed inside a function name; `:` makes namespaced names.
pub open spec fn spec_is_fname_char(c: char) -> bool {
    spec_is_alpha(c) || spec_is_digit(c) || c == '_' || c == ':'
}

/// Characters the scanner accepts inside a numeric literal span.
pub open spec fn spec_is_number_char(c: char) -> bool {
    spec_is_digit(c) || c == '-'
}

pub fn is_ws(c: char) -> (r: bool)
    ensures
        r == spec_is_ws(c),
{
    c == ' ' || c == '\t' || c == '\n' || c == '\r' || c == '\u{b}' || c == '\u{c}'
}

pub fn is_digit(c: char) -> (r: bool)
    ensures
        r == spec_is_digit(c),
{
    '0' <= c && c <= '9'
}

pub fn is_alpha(c: char) -> (r: bool)
    ensures
        r == spec_is_alpha(c),
{
    ('a' <= c && c <= 'z') || ('A' <= c && c <= 'Z')
}

pub fn is_ident_char(c: char) -> (r: bool)
    ensures
        r == spec_is_ident_char(c),
{
    is_alpha(c) || is_digit(c) || c == '_'
}

pub fn is_fname_char(c: char) -> (r: bool)
    ensures
        r == spec_is_fname_char(c),
{
    is_alpha(c) || is_digit(c) || c == '_' || c == ':'
}

pub fn is_number_char(c: char) -> (r: bool)
    ensures
        r == spec_is_number_char(c),
{
    is_digit(c) || c == '-'
}

// ---------------------------------------------------------------------------
// Scanning: the length of the longest prefix satisfying a predicate.
// ---------------------------------------------------------------------------

/// How many leading characters of `s` satisfy `p`.
pub open spec fn spec_scan(s: Seq<char>, p: spec_fn(char) -> bool) -> int
    decreases s.len(),
{
    if s.len() > 0 && p(s[0]) {
        1 + spec_scan(s.skip(1), p)
    } else {
        0
    }
}

/// A scan takes a prefix: every scanned character satisfies `p` and the
/// first unscanned one, if any, does not.
pub proof fn lemma_scan_bounds(s: Seq<char>, p: spec_fn(char) -> bool)
    ensures
        0 <= spec_scan(s, p) <= s.len(),
        forall|i: int| 0 <= i < spec_scan(s, p) ==> p(s[i]),
        spec_scan(s, p) < s.len() ==> !p(s[spec_scan(s, p)]),
    decreases s.len(),
{
    if s.len() > 0 && p(s[0]) {
        lemma_scan_bounds(s.skip(1), p);
        assert forall|i: int| 0 <= i < spec_scan(s, p) implies p(s[i]) by {
            if i > 0 {
                assert(s.skip(1)[i - 1] == s[i]);
            }
        }
        if spec_scan(s, p) < s.len() {
            assert(s.skip(1)[spec_scan(s, p) - 1] == s[spec_scan(s, p)]);
        }
    }
}

/// The scan length is determined by the prefix property.
pub proof fn lemma_scan_from_prefix(s: Seq<char>, p: spec_fn(char) -> bool, n: int)
    requires
        0 <= n <= s.len(),
        forall|i: int| 0 <= i < n ==> p(s[i]),
        n < s.len() ==> !p(s[n]),
    ensures
        spec_scan(s, p) == n,
    decreases s.len(),
{
    if s.len() > 0 && p(s[0]) {
        assert forall|i: int| 0 <= i < n - 1 implies p(s.skip(1)[i]) by {
            assert(s.skip(1)[i] == s[i + 1]);
        }
        if n - 1 < s.skip(1).len() {
            assert(s.skip(1)[n - 1] == s[n]);
        }
        lemma_scan_from_prefix(s.skip(1), p, n - 1);
    }
}

// ---------------------------------------------------------------------------
// Character-class predicates as named values, so that every use is one term.
// ---------------------------------------------------------------------------

pub open spec fn ws_pred() -> spec_fn(char) -> bool {
    |c: char| spec_is_ws(c)
}

pub open spec fn digit_pred() -> spec_fn(char) -> bool {
    |c: char| spec_is_digit(c)
}

pub open spec fn ident_pred() -> spec_fn(char) -> bool {
    |c: char| spec_is_ident_char(c)
}

pub open spec fn fname_pred() -> spec_fn(char) -> bool {
    |c: char| spec_is_fname_char(c)
}

pub open spec fn number_pred() -> spec_fn(char) -> bool {
    |c: char| spec_is_number_char(c)
}

pub open spec fn not_open_pred() -> spec_fn(char) -> bool {
    |c: char| c != '{'
}

/// The input with its leading whitespace dropped.
pub open spec fn spec_skip_ws(s: Seq<char>) -> Seq<char> {
    s.skip(spec_scan(s, ws_pred()))
}

pub proof fn lemma_skip_ws_le(s: Seq<char>)
    ensures
        spec_skip_ws(s).len() <= s.len(),
{
    lemma_scan_bounds(s, ws_pred());
}

/// Whether `s` begins with `prefix`.
pub open spec fn spec_starts_with(s: Seq<char>, prefix: Seq<char>) -> bool {
    s.len() >= prefix.len() && s.subrange(0, prefix.len() as int) == prefix
}

// ---------------------------------------------------------------------------
// Trusted bridges to `String`.
// ---------------------------------------------------------------------------

pub assume_specification[ std::string::String::push ](s: &mut String, c: char)
    ensures
        final(s)@ == old(s)@.push(c),
;

pub assume_specification[ std::string::String::push_str ](s: &mut String, piece: &str)
    ensures
        final(s)@ == old(s)@ + piece@,
;

/// A `String` holding exactly the given characters.
pub fn chars_to_string(v: &Vec<char>) -> (s: String)
    ensures
        s@ == v@,
{
    let mut s = String::new();
    let mut i: usize = 0;
    while i < v.len()
        invariant
            0 <= i <= v@.len(),
            s@ == v@.subrange(0, i as int),
        decreases v@.len() - i,
    {
        s.push(v[i]);
        i = i + 1;
        proof {
            assert(v@.subrange(0, i as int) == v@.subrange(0, i - 1).push(v@[i - 1]));
        }
    }
    proof {
        assert(v@.subrange(0, v@.len() as int) == v@);
    }
    s
}

/// The characters of a string, in order.
pub fn string_to_chars(s: &str) -> (v: Vec<char>)
    ensures
        v@ == s@,
{
    let len = s.unicode_len();
    let mut v: Vec<char> = Vec::new();
    let mut i: usize = 0;
    while i < len
        invariant
            len == s@.len(),
            0 <= i <= len,
            v@ == s@.subrange(0, i as int),
        decreases len - i,
    {
        v.push(s.get_char(i));
        i = i + 1;
        proof {
            assert(s@.subrange(0, i as int) == s@.subrange(0, i - 1).push(s@[i - 1]));
        }
    }
    proof {
        assert(s@.subrange(0, s@.len() as int) == s@);
    }
    v
}

/// The text the standard library's UTF-8 decoder reports for invalid input.
pub uninterp spec fn utf8_error_text(bytes: Seq<u8>) -> Seq<char>;

/// Relies on `String::from_utf8`: it decodes valid UTF-8 and rejects
/// anything else; the rejection's text depends on the bytes alone.
#[verifier::external_body]
pub fn string_from_utf8(v: Vec<u8>) -> (r: Result<String, String>)
    ensures
        match r {
            Ok(s) => vstd::utf8::valid_utf8(v@) && s@ == vstd::utf8::decode_utf8(v@),
            Err(m) => !vstd::utf8::valid_utf8(v@) && m@ == utf8_error_text(v@),
        },
{
    match String::from_utf8(v) {
        Ok(s) => Ok(s),
        Err(e) => Err(format!("{}", e)),
    }
}


/// Whether two strings hold the same characters.
pub fn str_eq(a: &str, b: &str) -> (r: bool)
    ensures
        r == (a@ == b@),
{
    let alen = a.unicode_len();
    let blen = b.unicode_len();
    if alen != blen {
        return false;
    }
    let mut i: usize = 0;
    while i < alen
        invariant
            alen == a@.len(),
            blen == b@.len(),
            alen == blen,
            0 <= i <= alen,
            forall|j: int| 0 <= j < i ==> a@[j] == b@[j],
        decreases alen - i,
    {
        if a.get_char(i) != b.get_char(i) {
            return false;
        }
        i = i + 1;
    }
    proof {
        assert(a@ =~= b@);
    }
    true
}


/// How many trailing characters of `s` satisfy `p`.
pub open spec fn spec_scan_end(s: Seq<char>, p: spec_fn(char) -> bool) -> int
    decreases s.len(),
{
    if s.len() > 0 && p(s.last()) {
        1 + spec_scan_end(s.drop_last(), p)
    } else {
        0
    }
}

/// The end scan takes a suffix: every scanned character satisfies `p` and
/// the first unscanned one before them, if any, does not.
pub proof fn lemma_scan_end_from_suffix(s: Seq<char>, p: spec_fn(char) -> bool, n: int)
    requires
        0 <= n <= s.len(),
        forall|j: int| s.len() - n <= j < s.len() ==> p(s[j]),
        n < s.len() ==> !p(s[s.len() - n - 1]),
    ensures
        spec_scan_end(s, p) == n,
    decreases s.len(),
{
    if s.len() > 0 && p(s.last()) {
        assert forall|j: int| s.drop_last().len() - (n - 1) <= j < s.drop_last().len() implies p(
            s.drop_last()[j],
        ) by {
            assert(s.drop_last()[j] == s[j]);
        }
        if n - 1 < s.drop_last().len() {
            assert(s.drop_last()[s.drop_last().len() - (n - 1) - 1] == s[s.len() - n - 1]);
        }
        lemma_scan_end_from_suffix(s.drop_last(), p, n - 1);
    }
}

/// The input without its leading whitespace.
pub open spec fn spec_trim_start(s: Seq<char>) -> Seq<char> {
    s.skip(spec_scan(s, ws_pred()))
}

/// The input without its trailing whitespace.
pub open spec fn spec_trim_end(s: Seq<char>) -> Seq<char> {
    s.take(s.len() - spec_scan_end(s, ws_pred()))
}

/// The input without its leading and trailing whitespace.
pub open spec fn spec_trim(s: Seq<char>) -> Seq<char> {
    spec_trim_end(spec_trim_start(s))
}

/// A copy of the string without its leading whitespace.
pub fn trim_start_string(s: &String) -> (r: String)
    ensures
        r@ == spec_trim_start(s@),
{
    let chars = string_to_chars(s.as_str());
    let start = scan_ws(&chars, 0);
    proof {
        assert(chars@.skip(0) =~= chars@);
        assert(chars@.subrange(start as int, chars@.len() as int) =~= chars@.skip(start as int));
    }
    string_of_range(&chars, start, chars.len())
}

/// A copy of the string without its trailing whitespace.
pub fn trim_end_string(s: &String) -> (r: String)
    ensures
        r@ == spec_trim_end(s@),
{
    let chars = string_to_chars(s.as_str());
    let mut e: usize = chars.len();
    while e > 0 && is_ws(chars[e - 1])
        invariant
            0 <= e <= chars@.len(),
            forall|j: int| e <= j < chars@.len() ==> ws_pred()(chars@[j]),
        decreases e,
    {
        e = e - 1;
    }
    proof {
        lemma_scan_end_from_suffix(chars@, ws_pred(), chars@.len() - e);
    }
    string_of_range(&chars, 0, e)
}

/// A copy of the string without its leading and trailing whitespace.
pub fn trim_string(s: &String) -> (r: String)
    ensures
        r@ == spec_trim(s@),
{
    let headless = trim_start_string(s);
    trim_end_string(&headless)
}


/// An unsigned value reduced to the machine's index width.
pub open spec fn spec_usize_truncate(n: u128) -> nat {
    (n as nat) % (usize::MAX as nat + 1)
}

/// Reduces an unsigned value to the machine's index width, as an `as`
/// cast would.
pub fn usize_truncate(n: u128) -> (r: usize)
    ensures
        r as nat == spec_usize_truncate(n),
{
    (n % (usize::MAX as u128 + 1)) as usize
}

// ---------------------------------------------------------------------------
// Decimal and hexadecimal formatting.
// ---------------------------------------------------------------------------

/// The character for one decimal or hexadecimal digit, lower case.
pub open spec fn spec_digit_char(d: nat) -> char {
    if d == 0 { '0' }
    else if d == 1 { '1' }
    else if d == 2 { '2' }
    else if d == 3 { '3' }
    else if d == 4 { '4' }
    else if d == 5 { '5' }
    else if d == 6 { '6' }
    else if d == 7 { '7' }
    else if d == 8 { '8' }
    else if d == 9 { '9' }
    else if d == 10 { 'a' }
    else if d == 11 { 'b' }
    else if d == 12 { 'c' }
    else if d == 13 { 'd' }
    else if d == 14 { 'e' }
    else { 'f' }
}

/// The decimal digits of `n`, most significant first, no leading zeros.
pub open spec fn spec_udec(n: nat) -> Seq<char>
    decreases n,
{
    if n < 10 {
        seq![spec_digit_char(n)]
    } else {
        spec_udec(n / 10).push(spec_digit_char(n % 10))
    }
}

/// The decimal digits of `v`, with a leading `-` when negative.
pub open spec fn spec_idec(v: int) -> Seq<char> {
    if v < 0 {
        seq!['-'] + spec_udec((-v) as nat)
    } else {
        spec_udec(v as nat)
    }
}

/// The hexadecimal digits of `n`, lower case, no leading zeros.
pub open spec fn spec_uhex(n: nat) -> Seq<char>
    decreases n,
{
    if n < 16 {
        seq![spec_digit_char(n)]
    } else {
        spec_uhex(n / 16).push(spec_digit_char(n % 16))
    }
}

fn digit_char(d: u128) -> (c: char)
    requires
        d < 16,
    ensures
        c == spec_digit_char(d as nat),
{
    if d == 0 { '0' }
    else if d == 1 { '1' }
    else if d == 2 { '2' }
    else if d == 3 { '3' }
    else if d == 4 { '4' }
    else if d == 5 { '5' }
    else if d == 6 { '6' }
    else if d == 7 { '7' }
    else if d == 8 { '8' }
    else if d == 9 { '9' }
    else if d == 10 { 'a' }
    else if d == 11 { 'b' }
    else if d == 12 { 'c' }
    else if d == 13 { 'd' }
    else if d == 14 { 'e' }
    else { 'f' }
}

fn push_udec(out: &mut Vec<char>, n: u128)
    ensures
        final(out)@ == old(out)@ + spec_udec(n as nat),
    decreases n,
{
    if n < 10 {
        out.push(digit_char(n));
    } else {
        push_udec(out, n / 10);
        out.push(digit_char(n % 10));
    }
}

fn push_uhex(out: &mut Vec<char>, n: u128)
    ensures
        final(out)@ == old(out)@ + spec_uhex(n as nat),
    decreases n,
{
    if n < 16 {
        out.push(digit_char(n));
    } else {
        push_uhex(out, n / 16);
        out.push(digit_char(n % 16));
    }
}

/// Decimal text of an unsigned value.
pub fn u128_to_dec(n: u128) -> (s: String)
    ensures
        s@ == spec_udec(n as nat),
{
    let mut out: Vec<char> = Vec::new();
    push_udec(&mut out, n);
    chars_to_string(&out)
}

/// The absolute value of a signed value, as an unsigned value.
pub fn i128_abs(v: i128) -> (r: u128)
    ensures
        r == if v < 0 { (-(v as int)) as u128 } else { v as u128 },
{
    if v == i128::MIN {
        170141183460469231731687303715884105728u128
    } else if v < 0 {
        (-v) as u128
    } else {
        v as u128
    }
}

/// Decimal text of a signed value, with a `-` sign when negative.
pub fn i128_to_dec(v: i128) -> (s: String)
    ensures
        s@ == spec_idec(v as int),
{
    let mut out: Vec<char> = Vec::new();
    if v < 0 {
        out.push('-');
    }
    push_udec(&mut out, i128_abs(v));
    chars_to_string(&out)
}

/// Lower-case hexadecimal text of an unsigned value, no leading zeros.
pub fn u128_to_hex(n: u128) -> (s: String)
    ensures
        s@ == spec_uhex(n as nat),
{
    let mut out: Vec<char> = Vec::new();
    push_uhex(&mut out, n);
    chars_to_string(&out)
}

/// The two's-complement bit pattern of a signed value.
pub open spec fn spec_twos_complement(v: i128) -> nat {
    if v < 0 {
        (v + 0x100000000000000000000000000000000) as nat
    } else {
        v as nat
    }
}

/// Reinterprets a signed value's bits as unsigned.
pub fn i128_twos_complement(v: i128) -> (r: u128)
    ensures
        r as nat == spec_twos_complement(v),
{
    if v < 0 {
        let pos = i128_abs(v);
        u128::MAX - pos + 1
    } else {
        v as u128
    }
}

// ---------------------------------------------------------------------------
// Integer parsing, with the standard error taxonomy.
// ---------------------------------------------------------------------------

/// Why a numeric literal failed to parse, as the standard integer parser
/// distinguishes the cases.
#[derive(Debug, Clone, Copy, PartialEq, Eq, Structural)]
pub enum IntParseError {
    /// The literal has no characters at all.
    Empty,
    /// A character is not a digit of the expected shape.
    InvalidDigit,
    /// The value is too large for the target type.
    PosOverflow,
    /// The value is too small for the target type.
    NegOverflow,
}

/// Folds decimal digits into an unsigned value no larger than `max`,
/// stopping at the first bad character or at the first overflow,
/// in that order per character.
pub open spec fn spec_fold_digits(s: Seq<char>, acc: nat, max: nat) -> Result<nat, IntParseError>
    decreases s.len(),
{
    if s.len() == 0 {
        Ok(acc)
    } else if !spec_is_digit(s[0]) {
        Err(IntParseError::InvalidDigit)
    } else if acc * 10 + (s[0] as nat - '0' as nat) > max {
        Err(IntParseError::PosOverflow)
    } else {
        spec_fold_digits(s.skip(1), (acc * 10 + (s[0] as nat - '0' as nat)) as nat, max)
    }
}

/// Folds decimal digits into a negative value no smaller than `min`,
/// mirroring how the standard parser accumulates a negative number.
pub open spec fn spec_fold_digits_neg(s: Seq<char>, acc: int, min: int) -> Result<int, IntParseError>
    decreases s.len(),
{
    if s.len() == 0 {
        Ok(acc)
    } else if !spec_is_digit(s[0]) {
        Err(IntParseError::InvalidDigit)
    } else if acc * 10 - (s[0] as int - '0' as int) < min {
        Err(IntParseError::NegOverflow)
    } else {
        spec_fold_digits_neg(s.skip(1), acc * 10 - (s[0] as int - '0' as int), min)
    }
}

/// An unsigned decimal literal: digits only, value at most `max`.
pub open spec fn spec_parse_unsigned(s: Seq<char>, max: nat) -> Result<nat, IntParseError> {
    if s.len() == 0 {
        Err(IntParseError::Empty)
    } else {
        spec_fold_digits(s, 0, max)
    }
}

/// A signed decimal literal: an optional `-` sign, then digits.
pub open spec fn spec_parse_signed(s: Seq<char>) -> Result<int, IntParseError> {
    if s.len() == 0 {
        Err(IntParseError::Empty)
    } else if s[0] == '-' {
        if s.len() == 1 {
            Err(IntParseError::InvalidDigit)
        } else {
            spec_fold_digits_neg(s.skip(1), 0, i128::MIN as int)
        }
    } else {
        match spec_fold_digits(s, 0, i128::MAX as nat) {
            Ok(n) => Ok(n as int),
            Err(e) => Err(e),
        }
    }
}

/// Reads `v[start..end]` as an unsigned 128-bit decimal literal.
pub fn parse_u128(v: &Vec<char>, start: usize, end: usize) -> (r: Result<u128, IntParseError>)
    requires
        start <= end <= v@.len(),
    ensures
        match r {
            Ok(n) => spec_parse_unsigned(v@.subrange(start as int, end as int), u128::MAX as nat)
                == Ok::<nat, IntParseError>(n as nat),
            Err(e) => spec_parse_unsigned(v@.subrange(start as int, end as int), u128::MAX as nat)
                == Err::<nat, IntParseError>(e),
        },
{
    let ghost s = v@.subrange(start as int, end as int);
    if start == end {
        return Err(IntParseError::Empty);
    }
    let mut acc: u128 = 0;
    let mut i: usize = start;
    while i < end
        invariant
            start <= i <= end <= v@.len(),
            s == v@.subrange(start as int, end as int),
            spec_fold_digits(s, 0, u128::MAX as nat) == spec_fold_digits(
                s.skip(i - start),
                acc as nat,
                u128::MAX as nat,
            ),
        decreases end - i,
    {
        let c = v[i];
        proof {
            assert(s.skip(i - start)[0] == s[i - start]);
            assert(s[i - start] == v@[i as int]);
        }
        if !is_digit(c) {
            return Err(IntParseError::InvalidDigit);
        }
        let d: u128 = (c as u32 - '0' as u32) as u128;
        let stepped = match acc.checked_mul(10) {
            Some(m) => m.checked_add(d),
            None => None,
        };
        match stepped {
            Some(next) => {
                proof {
                    assert(s.skip(i - start).skip(1) == s.skip(i + 1 - start));
                }
                acc = next;
                i = i + 1;
            },
            None => {
                return Err(IntParseError::PosOverflow);
            },
        }
    }
    proof {
        assert(s.skip(end - start) == Seq::<char>::empty());
    }
    Ok(acc)
}

/// Reads `v[start..end]` as an index: an unsigned decimal literal that
/// fits in `usize`.
pub fn parse_usize(v: &Vec<char>, start: usize, end: usize) -> (r: Result<usize, IntParseError>)
    requires
        start <= end <= v@.len(),
    ensures
        match r {
            Ok(n) => spec_parse_unsigned(v@.subrange(start as int, end as int), usize::MAX as nat)
                == Ok::<nat, IntParseError>(n as nat),
            Err(e) => spec_parse_unsigned(v@.subrange(start as int, end as int), usize::MAX as nat)
                == Err::<nat, IntParseError>(e),
        },
{
    let ghost s = v@.subrange(start as int, end as int);
    if start == end {
        return Err(IntParseError::Empty);
    }
    let mut acc: usize = 0;
    let mut i: usize = start;
    while i < end
        invariant
            start <= i <= end <= v@.len(),
            s == v@.subrange(start as int, end as int),
            spec_fold_digits(s, 0, usize::MAX as nat) == spec_fold_digits(
                s.skip(i - start),
                acc as nat,
                usize::MAX as nat,
            ),
        decreases end - i,
    {
        let c = v[i];
        proof {
            assert(s.skip(i - start)[0] == s[i - start]);
            assert(s[i - start] == v@[i as int]);
        }
        if !is_digit(c) {
            return Err(IntParseError::InvalidDigit);
        }
        let d: usize = (c as u32 - '0' as u32) as usize;
        let stepped = match acc.checked_mul(10) {
            Some(m) => m.checked_add(d),
            None => None,
        };
        match stepped {
            Some(next) => {
                proof {
                    assert(s.skip(i - start).skip(1) == s.skip(i + 1 - start));
                }
                acc = next;
                i = i + 1;
            },
            None => {
                return Err(IntParseError::PosOverflow);
            },
        }
    }
    proof {
        assert(s.skip(end - start) == Seq::<char>::empty());
    }
    Ok(acc)
}

/// Reads `v[start..end]` as a signed 128-bit decimal literal.
pub fn parse_i128(v: &Vec<char>, start: usize, end: usize) -> (r: Result<i128, IntParseError>)
    requires
        start <= end <= v@.len(),
    ensures
        match r {
            Ok(n) => spec_parse_signed(v@.subrange(start as int, end as int))
                == Ok::<int, IntParseError>(n as int),
            Err(e) => spec_parse_signed(v@.subrange(start as int, end as int))
                == Err::<int, IntParseError>(e),
        },
{
    let ghost s = v@.subrange(start as int, end as int);
    if start == end {
        return Err(IntParseError::Empty);
    }
    if v[start] == '-' {
        if start + 1 == end {
            return Err(IntParseError::InvalidDigit);
        }
        let mut acc: i128 = 0;
        let mut i: usize = start + 1;
        proof {
            assert(s.skip(1) == v@.subrange(start + 1, end as int));
        }
        let ghost t = s.skip(1);
        while i < end
            invariant
                start + 1 <= i <= end <= v@.len(),
                s == v@.subrange(start as int, end as int),
                s.len() > 1 && s[0] == '-',
                t == s.skip(1),
                t == v@.subrange(start + 1, end as int),
                acc <= 0,
                spec_fold_digits_neg(t, 0, i128::MIN as int) == spec_fold_digits_neg(
                    t.skip(i - start - 1),
                    acc as int,
                    i128::MIN as int,
                ),
            decreases end - i,
        {
            let c = v[i];
            proof {
                assert(t.skip(i - start - 1)[0] == t[i - start - 1]);
                assert(t[i - start - 1] == v@[i as int]);
            }
            if !is_digit(c) {
                return Err(IntParseError::InvalidDigit);
            }
            let d: i128 = (c as u32 - '0' as u32) as i128;
            let stepped = match acc.checked_mul(10) {
                Some(m) => m.checked_sub(d),
                None => None,
            };
            match stepped {
                Some(next) => {
                    proof {
                        assert(t.skip(i - start - 1).skip(1) == t.skip(i - start));
                    }
                    acc = next;
                    i = i + 1;
                },
                None => {
                    return Err(IntParseError::NegOverflow);
                },
            }
        }
        proof {
            assert(t.skip(end - start - 1) == Seq::<char>::empty());
        }
        proof {
            assert(s[0] == v@[start as int]);
        }
        Ok(acc)
    } else {
        let mut acc: i128 = 0;
        let mut i: usize = start;
        while i < end
            invariant
                start <= i <= end <= v@.len(),
                s == v@.subrange(start as int, end as int),
                s.len() > 0 && s[0] != '-',
                0 <= acc,
                spec_fold_digits(s, 0, i128::MAX as nat) == spec_fold_digits(
                    s.skip(i - start),
                    acc as nat,
                    i128::MAX as nat,
                ),
            decreases end - i,
        {
            let c = v[i];
            proof {
                assert(s.skip(i - start)[0] == s[i - start]);
                assert(s[i - start] == v@[i as int]);
            }
            if !is_digit(c) {
                return Err(IntParseError::InvalidDigit);
            }
            let d: i128 = (c as u32 - '0' as u32) as i128;
            let stepped = match acc.checked_mul(10) {
                Some(m) => m.checked_add(d),
                None => None,
            };
            match stepped {
                Some(next) => {
                    proof {
                        assert(s.skip(i - start).skip(1) == s.skip(i + 1 - start));
                    }
                    acc = next;
                    i = i + 1;
                },
                None => {
                    return Err(IntParseError::PosOverflow);
                },
            }
        }
        proof {
            assert(s.skip(end - start) == Seq::<char>::empty());
        }
        Ok(acc)
    }
}


// ---------------------------------------------------------------------------
// Position arithmetic over a shared character buffer.
// ---------------------------------------------------------------------------

/// Skipping twice is skipping once by the sum.
pub broadcast proof fn lemma_skip_skip(s: Seq<char>, a: int, b: int)
    requires
        0 <= a,
        0 <= b,
        a + b <= s.len(),
    ensures
        #[trigger] s.skip(a).skip(b) == s.skip(a + b),
{
    assert(s.skip(a).skip(b) =~= s.skip(a + b));
}

/// A window of a suffix is a window of the whole.
pub broadcast proof fn lemma_skip_subrange(s: Seq<char>, a: int, n: int)
    requires
        0 <= a,
        0 <= n,
        a + n <= s.len(),
    ensures
        #[trigger] s.skip(a).subrange(0, n) == s.subrange(a, a + n),
{
    assert(s.skip(a).subrange(0, n) =~= s.subrange(a, a + n));
}

/// A copy of `v[start..end]`.
pub fn subvec(v: &Vec<char>, start: usize, end: usize) -> (r: Vec<char>)
    requires
        start <= end <= v@.len(),
    ensures
        r@ == v@.subrange(start as int, end as int),
{
    let mut r: Vec<char> = Vec::new();
    let mut i: usize = start;
    while i < end
        invariant
            start <= i <= end <= v@.len(),
            r@ == v@.subrange(start as int, i as int),
        decreases end - i,
    {
        r.push(v[i]);
        i = i + 1;
        proof {
            assert(v@.subrange(start as int, i as int)
                == v@.subrange(start as int, i - 1).push(v@[i - 1]));
        }
    }
    r
}

/// A `String` holding exactly `v[start..end]`.
pub fn string_of_range(v: &Vec<char>, start: usize, end: usize) -> (s: String)
    requires
        start <= end <= v@.len(),
    ensures
        s@ == v@.subrange(start as int, end as int),
{
    let r = subvec(v, start, end);
    chars_to_string(&r)
}

/// A `String` of one character.
pub fn char_to_string(c: char) -> (s: String)
    ensures
        s@ == seq![c],
{
    let mut s = String::new();
    s.push(c);
    proof {
        assert(s@ =~= seq![c]);
    }
    s
}

/// The end of the whitespace run beginning at `pos`.
pub fn scan_ws(v: &Vec<char>, pos: usize) -> (end: usize)
    requires
        pos <= v@.len(),
    ensures
        pos <= end <= v@.len(),
        end - pos == spec_scan(v@.skip(pos as int), ws_pred()),
{
    let mut i: usize = pos;
    while i < v.len() && is_ws(v[i])
        invariant
            pos <= i <= v@.len(),
            forall|j: int| pos <= j < i ==> ws_pred()(v@[j]),
        decreases v@.len() - i,
    {
        i = i + 1;
    }
    proof {
        let s = v@.skip(pos as int);
        assert forall|j: int| 0 <= j < i - pos implies ws_pred()(s[j]) by {
            assert(s[j] == v@[pos + j]);
        }
        if i - pos < s.len() {
            assert(s[i - pos] == v@[i as int]);
        }
        lemma_scan_from_prefix(s, ws_pred(), i - pos);
    }
    i
}

/// The end of the identifier-character run beginning at `pos`.
pub fn scan_ident(v: &Vec<char>, pos: usize) -> (end: usize)
    requires
        pos <= v@.len(),
    ensures
        pos <= end <= v@.len(),
        end - pos == spec_scan(v@.skip(pos as int), ident_pred()),
{
    let mut i: usize = pos;
    while i < v.len() && is_ident_char(v[i])
        invariant
            pos <= i <= v@.len(),
            forall|j: int| pos <= j < i ==> ident_pred()(v@[j]),
        decreases v@.len() - i,
    {
        i = i + 1;
    }
    proof {
        let s = v@.skip(pos as int);
        assert forall|j: int| 0 <= j < i - pos implies ident_pred()(s[j]) by {
            assert(s[j] == v@[pos + j]);
        }
        if i - pos < s.len() {
            assert(s[i - pos] == v@[i as int]);
        }
        lemma_scan_from_prefix(s, ident_pred(), i - pos);
    }
    i
}

/// The end of the function-name-character run beginning at `pos`.
pub fn scan_fname(v: &Vec<char>, pos: usize) -> (end: usize)
    requires
        pos <= v@.len(),
    ensures
        pos <= end <= v@.len(),
        end - pos == spec_scan(v@.skip(pos as int), fname_pred()),
{
    let mut i: usize = pos;
    while i < v.len() && is_fname_char(v[i])
        invariant
            pos <= i <= v@.len(),
            forall|j: int| pos <= j < i ==> fname_pred()(v@[j]),
        decreases v@.len() - i,
    {
        i = i + 1;
    }
    proof {
        let s = v@.skip(pos as int);
        assert forall|j: int| 0 <= j < i - pos implies fname_pred()(s[j]) by {
            assert(s[j] == v@[pos + j]);
        }
        if i - pos < s.len() {
            assert(s[i - pos] == v@[i as int]);
        }
        lemma_scan_from_prefix(s, fname_pred(), i - pos);
    }
    i
}

/// The end of the digit run beginning at `pos`.
pub fn scan_digits(v: &Vec<char>, pos: usize) -> (end: usize)
    requires
        pos <= v@.len(),
    ensures
        pos <= end <= v@.len(),
        end - pos == spec_scan(v@.skip(pos as int), digit_pred()),
{
    let mut i: usize = pos;
    while i < v.len() && is_digit(v[i])
        invariant
            pos <= i <= v@.len(),
            forall|j: int| pos <= j < i ==> digit_pred()(v@[j]),
        decreases v@.len() - i,
    {
        i = i + 1;
    }
    proof {
        let s = v@.skip(pos as int);
        assert forall|j: int| 0 <= j < i - pos implies digit_pred()(s[j]) by {
            assert(s[j] == v@[pos + j]);
        }
        if i - pos < s.len() {
            assert(s[i - pos] == v@[i as int]);
        }
        lemma_scan_from_prefix(s, digit_pred(), i - pos);
    }
    i
}

/// The end of the numeric-literal run beginning at `pos`.
pub fn scan_number(v: &Vec<char>, pos: usize) -> (end: usize)
    requires
        pos <= v@.len(),
    ensures
        pos <= end <= v@.len(),
        end - pos == spec_scan(v@.skip(pos as int), number_pred()),
{
    let mut i: usize = pos;
    while i < v.len() && is_number_char(v[i])
        invariant
            pos <= i <= v@.len(),
            forall|j: int| pos <= j < i ==> number_pred()(v@[j]),
        decreases v@.len() - i,
    {
        i = i + 1;
    }
    proof {
        let s = v@.skip(pos as int);
        assert forall|j: int| 0 <= j < i - pos implies number_pred()(s[j]) by {
            assert(s[j] == v@[pos + j]);
        }
        if i - pos < s.len() {
            assert(s[i - pos] == v@[i as int]);
        }
        lemma_scan_from_prefix(s, number_pred(), i - pos);
    }
    i
}

/// The position of the first `{` at or after `pos`, or the input's end.
pub fn scan_to_open(v: &Vec<char>, pos: usize) -> (end: usize)
    requires
        pos <= v@.len(),
    ensures
        pos <= end <= v@.len(),
        end - pos == spec_scan(v@.skip(pos as int), not_open_pred()),
{
    let mut i: usize = pos;
    while i < v.len() && v[i] != '{'
        invariant
            pos <= i <= v@.len(),
            forall|j: int| pos <= j < i ==> not_open_pred()(v@[j]),
        decreases v@.len() - i,
    {
        i = i + 1;
    }
    proof {
        let s = v@.skip(pos as int);
        assert forall|j: int| 0 <= j < i - pos implies not_open_pred()(s[j]) by {
            assert(s[j] == v@[pos + j]);
        }
        if i - pos < s.len() {
            assert(s[i - pos] == v@[i as int]);
        }
        lemma_scan_from_prefix(s, not_open_pred(), i - pos);
    }
    i
}

} // verus!

