//! Character-level text operations shared by the rest of the library,
//! each with the mathematical definition it is proved against.
use vstd::prelude::*;
use vstd::utf8::{decode_utf8, valid_utf8};

verus! {

// ---------------------------------------------------------------------------
// Definitions
// ---------------------------------------------------------------------------

/// `c` is an ASCII upper-case letter.
pub open spec fn is_ascii_upper(c: char) -> bool {
    'A' <= c && c <= 'Z'
}

/// The ASCII lower-case form of `c`; every other character is unchanged.
pub open spec fn ascii_lower(c: char) -> char {
    if is_ascii_upper(c) {
        ((c as u32) + 32) as char
    } else {
        c
    }
}

/// Every character of `s` mapped through `ascii_lower`.
pub open spec fn ascii_lowercase(s: Seq<char>) -> Seq<char> {
    s.map_values(|c: char| ascii_lower(c))
}

/// The characters that carry the Unicode `White_Space` property.
pub open spec fn is_unicode_whitespace(c: char) -> bool {
    ||| ('\u{9}' <= c && c <= '\u{d}')
    ||| c == ' '
    ||| c == '\u{85}'
    ||| c == '\u{a0}'
    ||| c == '\u{1680}'
    ||| ('\u{2000}' <= c && c <= '\u{200a}')
    ||| c == '\u{2028}'
    ||| c == '\u{2029}'
    ||| c == '\u{202f}'
    ||| c == '\u{205f}'
    ||| c == '\u{3000}'
}

/// `s` without its leading whitespace.
pub open spec fn trim_start(s: Seq<char>) -> Seq<char>
    decreases s.len(),
{
    if s.len() > 0 && is_unicode_whitespace(s[0]) {
        trim_start(s.drop_first())
    } else {
        s
    }
}

/// `s` without its trailing whitespace.
pub open spec fn trim_end(s: Seq<char>) -> Seq<char>
    decreases s.len(),
{
    if s.len() > 0 && is_unicode_whitespace(s.last()) {
        trim_end(s.drop_last())
    } else {
        s
    }
}

/// `s` without leading or trailing whitespace.
pub open spec fn trim(s: Seq<char>) -> Seq<char> {
    trim_end(trim_start(s))
}

/// The items of `items`, in order, with `sep` between each two neighbours.
pub open spec fn join(items: Seq<Seq<char>>, sep: Seq<char>) -> Seq<char>
    decreases items.len(),
{
    if items.len() == 0 {
        Seq::empty()
    } else if items.len() == 1 {
        items[0]
    } else {
        join(items.drop_last(), sep) + sep + items.last()
    }
}

/// The decimal digit character for `d` (`d < 10`).
pub open spec fn digit_char(d: nat) -> char {
    ((d + 48) as u32) as char
}

/// The decimal representation of `n`, without leading zeros.
pub open spec fn decimal(n: nat) -> Seq<char>
    decreases n,
{
    if n < 10 {
        seq![digit_char(n)]
    } else {
        decimal(n / 10).push(digit_char(n % 10))
    }
}

/// `"true"` or `"false"`.
pub open spec fn bool_text(b: bool) -> Seq<char> {
    if b {
        seq!['t', 'r', 'u', 'e']
    } else {
        seq!['f', 'a', 'l', 's', 'e']
    }
}

/// What `{:?}` writes for a string: the text in double quotes, with
/// quotes, backslashes and unprintable characters escaped.
pub uninterp spec fn debug_quoted(s: Seq<char>) -> Seq<char>;

/// What `String::from_utf8_lossy` makes of `bytes`.
pub uninterp spec fn utf8_lossy(bytes: Seq<u8>) -> Seq<char>;

// ---------------------------------------------------------------------------
// Calls into std that vstd gives no specification
// ---------------------------------------------------------------------------

/// Appends one character with `String::push`: the string gains exactly `c`
/// at its end.
#[verifier::external_body]
pub(crate) fn push_char(s: &mut String, c: char)
    ensures
        final(s)@ == old(s)@.push(c),
{
    s.push(c);
}

/// Formats `s` with `{:?}` (the `Debug` impl of `str`).  The result is named
/// `debug_quoted`; its escaping rules are left unstated.
#[verifier::external_body]
pub(crate) fn debug_quote(s: &str) -> (r: String)
    ensures
        r@ == debug_quoted(s@),
{
    format!("{s:?}")
}

/// Decodes `bytes` with `String::from_utf8_lossy`.  The result is named
/// `utf8_lossy`; the documentation promises that valid UTF-8 is returned
/// unchanged, which is stated.  What replaces invalid sequences is not.
#[verifier::external_body]
pub(crate) fn lossy_text(bytes: &[u8]) -> (r: String)
    ensures
        r@ == utf8_lossy(bytes@),
        valid_utf8(bytes@) ==> r@ == decode_utf8(bytes@),
{
    String::from_utf8_lossy(bytes).into_owned()
}

/// Decodes `bytes` with `std::str::from_utf8`: `Some` exactly when the bytes
/// are valid UTF-8, holding the characters they encode.
#[verifier::external_body]
pub(crate) fn strict_text(bytes: &[u8]) -> (r: Option<String>)
    ensures
        r is Some <==> valid_utf8(bytes@),
        r matches Some(t) ==> t@ == decode_utf8(bytes@),
{
    match std::str::from_utf8(bytes) {
        Ok(t) => Some(t.to_owned()),
        Err(_) => None,
    }
}

// ---------------------------------------------------------------------------
// Verified operations
// ---------------------------------------------------------------------------

/// A copy of `s` as an owned `String`.
pub fn owned(s: &str) -> (r: String)
    ensures
        r@ == s@,
{
    s.to_owned()
}

/// Whether two strings hold the same characters.
pub fn same_text(a: &str, b: &str) -> (r: bool)
    ensures
        r == (a@ == b@),
{
    let n = a.unicode_len();
    if n != b.unicode_len() {
        return false;
    }
    let mut i: usize = 0;
    while i < n
        invariant
            n == a@.len(),
            n == b@.len(),
            i <= n,
            forall|k: int| 0 <= k < i ==> a@[k] == b@[k],
        decreases n - i,
    {
        if a.get_char(i) != b.get_char(i) {
            return false;
        }
        i += 1;
    }
    assert(a@ =~= b@);
    true
}

/// The ASCII lower-case form of one character.
pub fn char_to_ascii_lower(c: char) -> (r: char)
    ensures
        r == ascii_lower(c),
{
    if 'A' <= c && c <= 'Z' {
        let b = (c as u32) + 32;
        let byte = b as u8;
        byte as char
    } else {
        c
    }
}

/// `s` with its ASCII letters in lower case (as `str::to_ascii_lowercase`).
pub fn to_ascii_lowercase(s: &str) -> (r: String)
    ensures
        r@ == ascii_lowercase(s@),
{
    let n = s.unicode_len();
    let mut out = String::new();
    let mut i: usize = 0;
    while i < n
        invariant
            n == s@.len(),
            i <= n,
            out@ == ascii_lowercase(s@.subrange(0, i as int)),
        decreases n - i,
    {
        let c = s.get_char(i);
        push_char(&mut out, char_to_ascii_lower(c));
        assert(s@.subrange(0, i + 1) =~= s@.subrange(0, i as int).push(c));
        assert(ascii_lowercase(s@.subrange(0, i + 1)) =~= ascii_lowercase(
            s@.subrange(0, i as int),
        ).push(ascii_lower(c)));
        i += 1;
    }
    assert(s@.subrange(0, n as int) =~= s@);
    out
}


/// Whether `c` carries the Unicode `White_Space` property (as `char::is_whitespace`).
pub fn is_whitespace(c: char) -> (r: bool)
    ensures
        r == is_unicode_whitespace(c),
{
    ('\u{9}' <= c && c <= '\u{d}') || c == ' ' || c == '\u{85}' || c == '\u{a0}' || c
        == '\u{1680}' || ('\u{2000}' <= c && c <= '\u{200a}') || c == '\u{2028}' || c
        == '\u{2029}' || c == '\u{202f}' || c == '\u{205f}' || c == '\u{3000}'
}

/// Copies the characters `from..to` of `s` into a new string.
pub fn copy_range(s: &str, from: usize, to: usize) -> (r: String)
    requires
        from <= to <= s@.len(),
    ensures
        r@ == s@.subrange(from as int, to as int),
{
    let mut out = String::new();
    let mut i = from;
    while i < to
        invariant
            from <= i <= to <= s@.len(),
            out@ == s@.subrange(from as int, i as int),
        decreases to - i,
    {
        let c = s.get_char(i);
        push_char(&mut out, c);
        assert(s@.subrange(from as int, i + 1) =~= s@.subrange(from as int, i as int).push(c));
        i += 1;
    }
    out
}

/// `s` without leading or trailing whitespace (as `str::trim`).
pub fn trimmed(s: &str) -> (r: String)
    ensures
        r@ == trim(s@),
{
    let n = s.unicode_len();
    let mut i: usize = 0;
    assert(s@.subrange(0, n as int) =~= s@);
    while i < n && is_whitespace(s.get_char(i))
        invariant
            n == s@.len(),
            i <= n,
            trim_start(s@) == trim_start(s@.subrange(i as int, n as int)),
        decreases n - i,
    {
        assert(s@.subrange(i as int, n as int).drop_first() =~= s@.subrange(i + 1, n as int));
        i += 1;
    }
    assert(trim_start(s@.subrange(i as int, n as int)) == s@.subrange(i as int, n as int));
    let mut j = n;
    while j > i && is_whitespace(s.get_char(j - 1))
        invariant
            n == s@.len(),
            i <= j <= n,
            trim_end(s@.subrange(i as int, n as int)) == trim_end(s@.subrange(i as int, j as int)),
        decreases j,
    {
        assert(s@.subrange(i as int, j as int).drop_last() =~= s@.subrange(i as int, j - 1));
        j -= 1;
    }
    assert(trim_end(s@.subrange(i as int, j as int)) == s@.subrange(i as int, j as int));
    copy_range(s, i, j)
}

/// Appends the decimal representation of `n` to `s`.
pub fn push_decimal(s: &mut String, n: u32)
    ensures
        final(s)@ == old(s)@ + decimal(n as nat),
    decreases n,
{
    if n >= 10 {
        push_decimal(s, n / 10);
    }
    let d = n % 10;
    let c = if d == 0 {
        '0'
    } else if d == 1 {
        '1'
    } else if d == 2 {
        '2'
    } else if d == 3 {
        '3'
    } else if d == 4 {
        '4'
    } else if d == 5 {
        '5'
    } else if d == 6 {
        '6'
    } else if d == 7 {
        '7'
    } else if d == 8 {
        '8'
    } else {
        '9'
    };
    push_char(s, c);
    if n >= 10 {
        assert(old(s)@ + decimal(n as nat) =~= (old(s)@ + decimal((n / 10) as nat)).push(c));
    } else {
        assert(old(s)@ + decimal(n as nat) =~= old(s)@.push(c));
    }
}

/// The items of `items`, in order, with `sep` between each two neighbours
/// (as `slice::join`).
pub fn join_strings(items: &Vec<String>, sep: &str) -> (r: String)
    ensures
        r@ == join(items@.map_values(|t: String| t@), sep@),
{
    let ghost views = items@.map_values(|t: String| t@);
    let mut out = String::new();
    let mut i: usize = 0;
    while i < items.len()
        invariant
            views == items@.map_values(|t: String| t@),
            i <= items.len(),
            out@ == join(views.subrange(0, i as int), sep@),
        decreases items.len() - i,
    {
        if i > 0 {
            out.append(sep);
        }
        out.append(items[i].as_str());
        assert(views.subrange(0, i + 1).drop_last() =~= views.subrange(0, i as int));
        i += 1;
    }
    assert(views.subrange(0, items.len() as int) =~= views);
    out
}

/// The number a string of decimal digits stands for.
pub open spec fn decimal_value(s: Seq<char>) -> nat
    decreases s.len(),
{
    if s.len() == 0 {
        0
    } else {
        decimal_value(s.drop_last()) * 10 + ((s.last() as u32) - 48) as nat
    }
}

/// Reading the decimal representation of `n` gives `n` back, so different
/// numbers have different representations.
pub proof fn lemma_decimal_round_trip(n: nat)
    ensures
        decimal_value(decimal(n)) == n,
    decreases n,
{
    let d = n % 10;
    assert(((d + 48) as u32) as char as u32 == d + 48) by {
        assert(d < 10);
    }
    let s = decimal(n);
    if n < 10 {
        assert(s.drop_last() =~= Seq::<char>::empty());
        assert(decimal_value(s.drop_last()) == 0);
        assert(s.last() == digit_char(d));
    } else {
        lemma_decimal_round_trip(n / 10);
        assert(s.drop_last() =~= decimal(n / 10));
        assert(s.last() == digit_char(d));
        assert((n / 10) * 10 + n % 10 == n) by (nonlinear_arith);
    }
    assert(((s.last() as u32) - 48) as nat == d);
}

/// Trimming keeps a contiguous part of the text: what it removes in front
/// and behind is whitespace only, and what it keeps neither starts nor ends
/// with whitespace.
pub proof fn lemma_trim_removes_only_outer_whitespace(s: Seq<char>)
    ensures
        exists|i: int, j: int|
            0 <= i <= j <= s.len() && #[trigger] s.subrange(i, j) == trim(s) && (forall|k: int|
                0 <= k < i ==> is_unicode_whitespace(s[k])) && (forall|k: int|
                j <= k < s.len() ==> is_unicode_whitespace(s[k])),
        trim(s).len() > 0 ==> !is_unicode_whitespace(trim(s)[0]),
        trim(s).len() > 0 ==> !is_unicode_whitespace(trim(s).last()),
{
    lemma_trim_start_shape(s);
    let i = choose|i: int|
        0 <= i <= s.len() && #[trigger] s.subrange(i, s.len() as int) == trim_start(s) && (forall|
            k: int,
        | 0 <= k < i ==> is_unicode_whitespace(s[k]));
    let t = trim_start(s);
    lemma_trim_end_shape(t);
    let j = choose|j: int|
        0 <= j <= t.len() && #[trigger] t.subrange(0, j) == trim_end(t) && (forall|k: int|
            j <= k < t.len() ==> is_unicode_whitespace(t[k]));
    assert(s.subrange(i, i + j) =~= trim(s));
    assert forall|k: int| i + j <= k < s.len() implies is_unicode_whitespace(s[k]) by {
        assert(s[k] == t[k - i]);
    }
    assert(s.subrange(i, i + j) == trim(s));
}

/// `trim_start` drops a whitespace prefix and keeps the rest, which does not
/// start with whitespace.
pub proof fn lemma_trim_start_shape(s: Seq<char>)
    ensures
        exists|i: int|
            0 <= i <= s.len() && #[trigger] s.subrange(i, s.len() as int) == trim_start(s) && (forall|
                k: int,
            | 0 <= k < i ==> is_unicode_whitespace(s[k])),
        trim_start(s).len() > 0 ==> !is_unicode_whitespace(trim_start(s)[0]),
        trim(s).len() > 0 ==> !is_unicode_whitespace(trim(s)[0]),
    decreases s.len(),
{
    if s.len() > 0 && is_unicode_whitespace(s[0]) {
        lemma_trim_start_shape(s.drop_first());
        let i = choose|i: int|
            0 <= i <= s.drop_first().len() && #[trigger] s.drop_first().subrange(
                i,
                s.drop_first().len() as int,
            ) == trim_start(s.drop_first()) && (forall|k: int|
                0 <= k < i ==> is_unicode_whitespace(s.drop_first()[k]));
        assert(s.subrange(i + 1, s.len() as int) =~= s.drop_first().subrange(
            i,
            s.drop_first().len() as int,
        ));
        assert forall|k: int| 0 <= k < i + 1 implies is_unicode_whitespace(s[k]) by {
            if k > 0 {
                assert(s[k] == s.drop_first()[k - 1]);
            }
        }
    } else {
        assert(s.subrange(0, s.len() as int) =~= s);
    }
    lemma_trim_end_keeps_front(trim_start(s));
}

/// `trim_end` drops a whitespace suffix and keeps the rest, which does not
/// end with whitespace.
pub proof fn lemma_trim_end_shape(s: Seq<char>)
    ensures
        exists|j: int|
            0 <= j <= s.len() && #[trigger] s.subrange(0, j) == trim_end(s) && (forall|k: int|
                j <= k < s.len() ==> is_unicode_whitespace(s[k])),
        trim_end(s).len() > 0 ==> !is_unicode_whitespace(trim_end(s).last()),
    decreases s.len(),
{
    if s.len() > 0 && is_unicode_whitespace(s.last()) {
        lemma_trim_end_shape(s.drop_last());
        let j = choose|j: int|
            0 <= j <= s.drop_last().len() && #[trigger] s.drop_last().subrange(0, j) == trim_end(
                s.drop_last(),
            ) && (forall|k: int| j <= k < s.drop_last().len() ==> is_unicode_whitespace(s.drop_last()[k]));
        assert(s.subrange(0, j) =~= s.drop_last().subrange(0, j));
        assert forall|k: int| j <= k < s.len() implies is_unicode_whitespace(s[k]) by {
            if k < s.len() - 1 {
                assert(s[k] == s.drop_last()[k]);
            }
        }
    } else {
        assert(s.subrange(0, s.len() as int) =~= s);
    }
}

/// Trimming the end of a text that does not start with whitespace keeps a
/// front that does not start with whitespace.
pub proof fn lemma_trim_end_keeps_front(s: Seq<char>)
    requires
        s.len() > 0 ==> !is_unicode_whitespace(s[0]),
    ensures
        trim_end(s).len() > 0 ==> !is_unicode_whitespace(trim_end(s)[0]),
        trim_end(s).len() > 0 ==> trim_end(s)[0] == s[0],
    decreases s.len(),
{
    if s.len() > 0 && is_unicode_whitespace(s.last()) {
        if s.drop_last().len() > 0 {
            assert(s.drop_last()[0] == s[0]);
        }
        lemma_trim_end_keeps_front(s.drop_last());
    }
}

/// Lower-casing keeps the length, turns every ASCII capital into its small
/// letter and leaves every other character as it is.
pub proof fn lemma_lowercase_per_character(s: Seq<char>)
    ensures
        ascii_lowercase(s).len() == s.len(),
        forall|k: int|
            0 <= k < s.len() ==> {
                &&& ('A' <= s[k] && s[k] <= 'Z') ==> #[trigger] ascii_lowercase(s)[k] as u32 == (s[k] as u32) + 32
                &&& !('A' <= s[k] && s[k] <= 'Z') ==> ascii_lowercase(s)[k] == s[k]
            },
{
    assert forall|k: int| 0 <= k < s.len() implies {
        &&& ('A' <= s[k] && s[k] <= 'Z') ==> #[trigger] ascii_lowercase(s)[k] as u32 == (s[k] as u32) + 32
        &&& !('A' <= s[k] && s[k] <= 'Z') ==> ascii_lowercase(s)[k] == s[k]
    } by {
        let c = s[k];
        if 'A' <= c && c <= 'Z' {
            let u = (c as u32) + 32;
            vstd::utf8::char_u32_cast(ascii_lower(c), ascii_lower(c) as u32);
            assert((u as char) as u32 == u);
        }
    }
}

/// The decimal representation consists of digits only.
pub proof fn lemma_decimal_digits(n: nat)
    ensures
        decimal(n).len() > 0,
        forall|k: int| 0 <= k < decimal(n).len() ==> '0' <= #[trigger] decimal(n)[k] && decimal(n)[k] <= '9',
    decreases n,
{
    let d = n % 10;
    assert(((d + 48) as u32) as char as u32 == d + 48);
    vstd::utf8::char_u32_cast(digit_char(d), (d + 48) as u32);
    if n >= 10 {
        lemma_decimal_digits(n / 10);
        assert forall|k: int| 0 <= k < decimal(n).len() implies '0' <= #[trigger] decimal(n)[k] && decimal(n)[k] <= '9' by {
            if k < decimal(n / 10).len() {
                assert(decimal(n)[k] == decimal(n / 10)[k]);
            }
        }
    }
}

} // verus!
