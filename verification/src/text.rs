//! Verified text helpers: character search, splitting and line breaking.

use vstd::prelude::*;
use vstd::string::StrSliceExecFns;
use vstd::string::StringSliceAdditionalSpecFns;
use vstd::utf8::{decode_utf8, valid_utf8};

verus! {

/// `i` is the first position of `c` in `s`.
pub open spec fn is_first_index(s: Seq<char>, c: char, i: int) -> bool {
    &&& 0 <= i < s.len()
    &&& s[i] == c
    &&& forall|j: int| 0 <= j < i ==> s[j] != c
}

/// `s` holds the character `c`.
pub open spec fn has_char(s: Seq<char>, c: char) -> bool {
    exists|i: int| 0 <= i < s.len() && s[i] == c
}

/// The first position of `c` in `s`, when there is one.
pub open spec fn first_index(s: Seq<char>, c: char) -> int
    recommends
        has_char(s, c),
{
    choose|i: int| is_first_index(s, c, i)
}

/// Splitting `s` at the first `c`: the part before it and the part after it.
pub open spec fn split_once_spec(s: Seq<char>, c: char) -> Option<(Seq<char>, Seq<char>)> {
    if has_char(s, c) {
        let i = first_index(s, c);
        Some((s.take(i), s.skip(i + 1)))
    } else {
        None
    }
}

/// A first position exists exactly when the character occurs, and it is unique.
pub proof fn lemma_first_index(s: Seq<char>, c: char)
    ensures
        has_char(s, c) ==> is_first_index(s, c, first_index(s, c)),
        forall|i: int, j: int| is_first_index(s, c, i) && is_first_index(s, c, j) ==> i == j,
    decreases s.len(),
{
    if has_char(s, c) {
        let k = choose|k: int| 0 <= k < s.len() && s[k] == c;
        lemma_min_index(s, c, k);
    }
}

/// Below a known occurrence there is a first one.
proof fn lemma_min_index(s: Seq<char>, c: char, k: int)
    requires
        0 <= k < s.len(),
        s[k] == c,
    ensures
        exists|i: int| is_first_index(s, c, i),
    decreases k,
{
    if forall|j: int| 0 <= j < k ==> s[j] != c {
        assert(is_first_index(s, c, k));
    } else {
        let j = choose|j: int| 0 <= j < k && s[j] == c;
        lemma_min_index(s, c, j);
    }
}

/// Splits `s` at the first occurrence of `c`, as `str::split_once` does with a `char`.
pub fn split_once_char(s: &str, c: char) -> (res: Option<(String, String)>)
    ensures
        match res {
            Some((a, b)) => split_once_spec(s@, c) == Some((a@, b@)),
            None => split_once_spec(s@, c).is_none(),
        },
{
    proof {
        lemma_first_index(s@, c);
    }
    let n = s.unicode_len();
    let mut i: usize = 0;
    while i < n
        invariant
            n == s@.len(),
            i <= n,
            forall|j: int| 0 <= j < i ==> s@[j] != c,
        decreases n - i,
    {
        if s.get_char(i) == c {
            assert(is_first_index(s@, c, i as int));
            let a = s.substring_char(0, i).to_owned();
            let b = s.substring_char(i + 1, n).to_owned();
            return Some((a, b));
        }
        i = i + 1;
    }
    None
}

/// A line without the carriage return that ended it.
pub open spec fn strip_cr(line: Seq<char>) -> Seq<char> {
    if line.len() > 0 && line.last() == '\r' {
        line.drop_last()
    } else {
        line
    }
}

/// The lines of `s`, as `str::lines` gives them: split at `\n`, a `\r` just before a
/// `\n` dropped, and no empty last line for a final line ending.
pub open spec fn lines_spec(s: Seq<char>) -> Seq<Seq<char>>
    decreases s.len(),
{
    if has_char(s, '\n') {
        let i = first_index(s, '\n');
        if 0 <= i < s.len() {
            seq![strip_cr(s.take(i))] + lines_spec(s.skip(i + 1))
        } else {
            seq![]
        }
    } else if s.len() == 0 {
        seq![]
    } else {
        seq![s]
    }
}

/// Removes one trailing carriage return.
fn strip_cr_exec(line: &str) -> (res: String)
    ensures
        res@ == strip_cr(line@),
{
    let n = line.unicode_len();
    if n > 0 && line.get_char(n - 1) == '\r' {
        line.substring_char(0, n - 1).to_owned()
    } else {
        line.to_owned()
    }
}

/// Breaks `s` into lines, as `str::lines` does.
pub fn lines(s: &str) -> (res: Vec<String>)
    ensures
        res@.map_values(|l: String| l@) == lines_spec(s@),
{
    let n = s.unicode_len();
    let mut out: Vec<String> = Vec::new();
    let mut start: usize = 0;
    let mut i: usize = 0;
    proof {
        assert(s@.skip(0) =~= s@);
        assert(out@.map_values(|l: String| l@) + lines_spec(s@) =~= lines_spec(s@));
    }
    while i < n
        invariant
            n == s@.len(),
            start <= i <= n,
            forall|j: int| start <= j < i ==> s@[j] != '\n',
            lines_spec(s@) == out@.map_values(|l: String| l@) + lines_spec(s@.skip(start as int)),
        decreases n - i,
    {
        if s.get_char(i) == '\n' {
            let ghost rest = s@.skip(start as int);
            let ghost k = (i - start) as int;
            proof {
                lemma_first_index(rest, '\n');
                assert(is_first_index(rest, '\n', k));
                assert(rest.take(k) =~= s@.subrange(start as int, i as int));
                assert(rest.skip(k + 1) =~= s@.skip(i + 1));
            }
            let line = strip_cr_exec(s.substring_char(start, i));
            let ghost before = out@;
            out.push(line);
            proof {
                assert(out@.map_values(|l: String| l@) =~= before.map_values(|l: String| l@).push(
                    strip_cr(rest.take(k)),
                ));
                assert(lines_spec(rest) == seq![strip_cr(rest.take(k))] + lines_spec(
                    rest.skip(k + 1),
                ));
            }
            start = i + 1;
        }
        i = i + 1;
    }
    let ghost rest = s@.skip(start as int);
    proof {
        assert(!has_char(rest, '\n')) by {
            if has_char(rest, '\n') {
                let j = choose|j: int| 0 <= j < rest.len() && rest[j] == '\n';
                assert(s@[start + j] == '\n');
            }
        }
    }
    if start < n {
        let last = s.substring_char(start, n).to_owned();
        let ghost before = out@;
        out.push(last);
        proof {
            assert(rest =~= s@.subrange(start as int, n as int));
            assert(out@.map_values(|l: String| l@) =~= before.map_values(|l: String| l@).push(
                rest,
            ));
            assert(lines_spec(rest) == seq![rest]);
        }
    } else {
        proof {
            assert(rest.len() == 0);
            assert(out@.map_values(|l: String| l@) + lines_spec(rest) =~= out@.map_values(
                |l: String| l@,
            ));
        }
    }
    out
}


/// A byte that may stand in a header value read as text: visible ASCII or a tab.
pub open spec fn is_visible_ascii(b: u8) -> bool {
    (32 <= b && b < 127) || b == 9
}

/// Every byte is visible ASCII or a tab.
pub open spec fn visible_ascii(bytes: Seq<u8>) -> bool {
    forall|i: int| 0 <= i < bytes.len() ==> is_visible_ascii(#[trigger] bytes[i])
}

/// The characters of ASCII bytes, one per byte.
pub open spec fn ascii_chars(bytes: Seq<u8>) -> Seq<char> {
    bytes.map_values(|b: u8| b as char)
}

/// ASCII bytes are valid UTF-8 and decode to one character per byte.
pub proof fn lemma_ascii_utf8(bytes: Seq<u8>)
    requires
        forall|i: int| 0 <= i < bytes.len() ==> #[trigger] bytes[i] < 128,
    ensures
        valid_utf8(bytes),
        decode_utf8(bytes) == ascii_chars(bytes),
    decreases bytes.len(),
{
    if bytes.len() > 0 {
        let b0 = bytes[0];
        assert(b0 & 0x7f == b0) by (bit_vector)
            requires
                b0 < 128,
        ;
        let rest = bytes.subrange(1, bytes.len() as int);
        assert forall|i: int| 0 <= i < rest.len() implies #[trigger] rest[i] < 128 by {
            assert(rest[i] == bytes[i + 1]);
        }
        lemma_ascii_utf8(rest);
        assert(ascii_chars(bytes) =~= seq![b0 as char] + ascii_chars(rest));
    } else {
        assert(ascii_chars(bytes) =~= Seq::<char>::empty());
    }
}

/// Reads bytes as UTF-8 text.
///
/// Calls `String::from_utf8`, which by its documentation returns the text when the
/// bytes are valid UTF-8 and fails otherwise.
#[verifier::external_body]
pub(crate) fn utf8_text(bytes: Vec<u8>) -> (res: Option<String>)
    ensures
        res is Some <==> valid_utf8(bytes@),
        res is Some ==> res->Some_0@ == decode_utf8(bytes@),
{
    String::from_utf8(bytes).ok()
}

/// Reads a header value as text: it must hold only visible ASCII and tabs.
pub fn header_text(bytes: &[u8]) -> (res: Option<String>)
    ensures
        res is Some <==> visible_ascii(bytes@),
        res is Some ==> res->Some_0@ == ascii_chars(bytes@),
{
    let mut i: usize = 0;
    while i < bytes.len()
        invariant
            i <= bytes@.len(),
            forall|j: int| 0 <= j < i ==> is_visible_ascii(#[trigger] bytes@[j]),
        decreases bytes@.len() - i,
    {
        let b = bytes[i];
        if !((32 <= b && b < 127) || b == 9) {
            return None;
        }
        i = i + 1;
    }
    proof {
        assert forall|j: int| 0 <= j < bytes@.len() implies #[trigger] bytes@[j] < 128 by {
            assert(is_visible_ascii(bytes@[j]));
        }
        lemma_ascii_utf8(bytes@);
    }
    utf8_text(vstd::slice::slice_to_vec(bytes))
}


/// The character is an ASCII decimal digit.
pub open spec fn is_digit(c: char) -> bool {
    '0' <= c && c <= '9'
}

/// The value of a string of decimal digits.
pub open spec fn digits_value(d: Seq<char>) -> nat
    decreases d.len(),
{
    if d.len() == 0 {
        0
    } else {
        (digits_value(d.drop_last()) * 10 + (d.last() as nat - '0' as nat)) as nat
    }
}

/// The digits of an unsigned decimal number: the text after an optional leading `+`.
pub open spec fn unsigned_digits(s: Seq<char>) -> Seq<char> {
    if s.len() > 0 && s[0] == '+' {
        s.skip(1)
    } else {
        s
    }
}

/// What parsing `s` as a `u64` gives: an optional `+` and then one or more decimal
/// digits whose value fits in 64 bits.
pub open spec fn parse_u64_spec(s: Seq<char>) -> Option<u64> {
    let d = unsigned_digits(s);
    if d.len() > 0 && (forall|i: int| 0 <= i < d.len() ==> is_digit(#[trigger] d[i]))
        && digits_value(d) <= u64::MAX {
        Some(digits_value(d) as u64)
    } else {
        None
    }
}

/// Parses a `u64` as `str::parse` does: an optional `+`, then decimal digits, and no
/// overflow.
pub fn parse_u64(s: &str) -> (res: Option<u64>)
    ensures
        res == parse_u64_spec(s@),
{
    let n = s.unicode_len();
    let mut i: usize = 0;
    if n > 0 && s.get_char(0) == '+' {
        i = 1;
    }
    let start = i;
    let ghost d = unsigned_digits(s@);
    proof {
        assert(d =~= s@.skip(start as int));
    }
    if start == n {
        return None;
    }
    let mut value: u64 = 0;
    let mut overflow = false;
    while i < n
        invariant
            start <= i <= n,
            n == s@.len(),
            d == s@.skip(start as int),
            d == unsigned_digits(s@),
            d.len() > 0,
            forall|j: int| 0 <= j < i - start ==> is_digit(#[trigger] d[j]),
            !overflow ==> value == digits_value(d.take(i - start)),
            overflow ==> digits_value(d.take(i - start)) > u64::MAX,
        decreases n - i,
    {
        let c = s.get_char(i);
        proof {
            assert(d[i - start] == c);
        }
        if !('0' <= c && c <= '9') {
            proof {
                assert(!is_digit(d[i - start]));
            }
            return None;
        }
        let digit = (c as u32 - '0' as u32) as u64;
        proof {
            assert(d.take(i - start + 1).drop_last() =~= d.take(i - start));
            assert(d.take(i - start + 1).last() == c);
        }
        if !overflow {
            if value > (u64::MAX - digit) / 10 {
                overflow = true;
                proof {
                    assert(value * 10 + digit > u64::MAX) by (nonlinear_arith)
                        requires
                            value > (u64::MAX - digit) / 10,
                            digit <= 9,
                    ;
                }
            } else {
                proof {
                    assert(value * 10 + digit <= u64::MAX) by (nonlinear_arith)
                        requires
                            value <= (u64::MAX - digit) / 10,
                            digit <= 9,
                    ;
                }
                value = value * 10 + digit;
            }
        } else {
            proof {
                assert(digits_value(d.take(i - start + 1)) >= digits_value(d.take(i - start)) * 10)
                    by (nonlinear_arith)
                    requires
                        digits_value(d.take(i - start + 1)) == digits_value(d.take(i - start)) * 10
                            + (c as nat - '0' as nat),
                        '0' <= c,
                ;
            }
        }
        i = i + 1;
    }
    proof {
        assert(d.take(n - start) =~= d);
    }
    if overflow {
        None
    } else {
        Some(value)
    }
}

/// Joining a relative path to a base path as Unix `PathBuf::push` does: an absolute
/// path replaces the base, and otherwise a `/` goes between them when the base is not
/// empty and does not end in one.
pub open spec fn join_path(base: Seq<char>, path: Seq<char>) -> Seq<char> {
    if path.len() > 0 && path[0] == '/' {
        path
    } else if base.len() == 0 || base.last() == '/' {
        base + path
    } else {
        base + seq!['/'] + path
    }
}

/// Joins `path` to `base` (see [`join_path`]).
pub fn join(base: &str, path: &str) -> (res: String)
    ensures
        res@ == join_path(base@, path@),
{
    let pn = path.unicode_len();
    let bn = base.unicode_len();
    if pn > 0 && path.get_char(0) == '/' {
        path.to_owned()
    } else if bn == 0 || base.get_char(bn - 1) == '/' {
        base.to_owned().concat(path)
    } else {
        let sep = "/";
        proof {
            reveal_strlit("/");
        }
        base.to_owned().concat(sep).concat(path)
    }
}

/// `s` with one leading `/` taken off, when it has one.
pub open spec fn strip_leading_slash(s: Seq<char>) -> Seq<char> {
    if s.len() > 0 && s[0] == '/' {
        s.skip(1)
    } else {
        s
    }
}

/// Takes one leading `/` off `s`.
pub fn strip_slash(s: &str) -> (res: &str)
    ensures
        res@ == strip_leading_slash(s@),
{
    let n = s.unicode_len();
    if n > 0 && s.get_char(0) == '/' {
        s.substring_char(1, n)
    } else {
        s
    }
}


/// A byte that a header value may hold: anything but control bytes and DEL, or a tab.
pub open spec fn is_header_value_byte(b: u8) -> bool {
    (32 <= b && b != 127) || b == 9
}

/// The UTF-8 bytes of `s` can all stand in a header value.
pub open spec fn header_value_ok(s: &str) -> bool {
    forall|i: int| 0 <= i < s.spec_bytes().len() ==> is_header_value_byte(#[trigger] s.spec_bytes()[i])
}

/// Checks that text can be a header value (see [`header_value_ok`]).
pub fn is_header_value(s: &str) -> (res: bool)
    ensures
        res == header_value_ok(s),
{
    let bytes = s.as_bytes();
    let mut i: usize = 0;
    while i < bytes.len()
        invariant
            i <= bytes@.len(),
            bytes@ == s.spec_bytes(),
            forall|j: int| 0 <= j < i ==> is_header_value_byte(#[trigger] bytes@[j]),
        decreases bytes@.len() - i,
    {
        let b = bytes[i];
        if !((32 <= b && b != 127) || b == 9) {
            proof {
                assert(!is_header_value_byte(bytes@[i as int]));
            }
            return false;
        }
        i = i + 1;
    }
    true
}


/// Splitting `before`, then `c`, then `after` at the first `c` gives `before` and
/// `after` back, when `before` holds no `c`.
pub proof fn lemma_split_once_at_separator(before: Seq<char>, c: char, after: Seq<char>)
    requires
        !has_char(before, c),
    ensures
        split_once_spec(before + seq![c] + after, c) == Some((before, after)),
{
    let s = before + seq![c] + after;
    let n = before.len() as int;
    assert(s[n] == c);
    assert forall|j: int| 0 <= j < n implies s[j] != c by {
        assert(s[j] == before[j]);
    }
    assert(is_first_index(s, c, n));
    assert(has_char(s, c));
    lemma_first_index(s, c);
    assert(first_index(s, c) == n);
    assert(s.take(n) =~= before);
    assert(s.skip(n + 1) =~= after);
}

/// A numeral, a non-empty string of decimal digits, holds neither `c` when `c` is not
/// a digit, and parses to its value when that value fits in 64 bits.
pub proof fn lemma_numeral(d: Seq<char>, c: char)
    requires
        d.len() > 0,
        forall|i: int| 0 <= i < d.len() ==> is_digit(#[trigger] d[i]),
        !is_digit(c),
        digits_value(d) <= u64::MAX,
    ensures
        !has_char(d, c),
        parse_u64_spec(d) == Some(digits_value(d) as u64),
{
    assert(!has_char(d, c)) by {
        if has_char(d, c) {
            let i = choose|i: int| 0 <= i < d.len() && d[i] == c;
            assert(is_digit(d[i]));
        }
    }
    assert(d[0] != '+') by {
        assert(is_digit(d[0]));
    }
    assert(unsigned_digits(d) == d);
}

} // verus!
