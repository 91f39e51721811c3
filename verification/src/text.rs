//! Character-level text handling shared by the settings file and the hotkey
//! syntax: whitespace trimming, ASCII case folding, splitting on a separator,
//! and decimal numbers as `str::parse` and `Display` treat them.

use vstd::prelude::*;
use vstd::string::*;

verus! {

// ---------------------------------------------------------------------------
// Characters
// ---------------------------------------------------------------------------

/// The Unicode `White_Space` characters: the set that `char::is_whitespace`
/// (and therefore `str::trim`) recognises.
pub open spec fn is_space(c: char) -> bool {
    ||| '\t' <= c <= '\r'
    ||| c == ' '
    ||| c == '\u{85}'
    ||| c == '\u{A0}'
    ||| c == '\u{1680}'
    ||| '\u{2000}' <= c <= '\u{200A}'
    ||| c == '\u{2028}'
    ||| c == '\u{2029}'
    ||| c == '\u{202F}'
    ||| c == '\u{205F}'
    ||| c == '\u{3000}'
}

pub fn is_space_char(c: char) -> (r: bool)
    ensures
        r == is_space(c),
{
    ('\t' <= c && c <= '\r') || c == ' ' || c == '\u{85}' || c == '\u{A0}' || c == '\u{1680}'
        || ('\u{2000}' <= c && c <= '\u{200A}') || c == '\u{2028}' || c == '\u{2029}'
        || c == '\u{202F}' || c == '\u{205F}' || c == '\u{3000}'
}

/// `char::to_ascii_lowercase`.
pub open spec fn lower_char(c: char) -> char {
    if 'A' <= c <= 'Z' {
        ((c as u32) + 32) as char
    } else {
        c
    }
}

/// `char::to_ascii_uppercase`.
pub open spec fn upper_char(c: char) -> char {
    if 'a' <= c <= 'z' {
        ((c as u32) - 32) as char
    } else {
        c
    }
}

pub fn to_lower_char(c: char) -> (r: char)
    ensures
        r == lower_char(c),
{
    if 'A' <= c && c <= 'Z' {
        let b: u8 = (c as u32 + 32) as u8;
        b as char
    } else {
        c
    }
}

pub fn to_upper_char(c: char) -> (r: char)
    ensures
        r == upper_char(c),
{
    if 'a' <= c && c <= 'z' {
        let b: u8 = (c as u32 - 32) as u8;
        b as char
    } else {
        c
    }
}

// ---------------------------------------------------------------------------
// Sequences of characters
// ---------------------------------------------------------------------------

/// Leading white space removed.
pub open spec fn trim_start(s: Seq<char>) -> Seq<char>
    decreases s.len(),
{
    if s.len() > 0 && is_space(s[0]) {
        trim_start(s.drop_first())
    } else {
        s
    }
}

/// Trailing white space removed.
pub open spec fn trim_end(s: Seq<char>) -> Seq<char>
    decreases s.len(),
{
    if s.len() > 0 && is_space(s.last()) {
        trim_end(s.drop_last())
    } else {
        s
    }
}

/// `str::trim`: white space removed at both ends.
pub open spec fn trim(s: Seq<char>) -> Seq<char> {
    trim_end(trim_start(s))
}

/// `str::to_ascii_lowercase`.
pub open spec fn ascii_lower(s: Seq<char>) -> Seq<char> {
    s.map_values(|c: char| lower_char(c))
}

/// `str::to_ascii_uppercase`.
pub open spec fn ascii_upper(s: Seq<char>) -> Seq<char> {
    s.map_values(|c: char| upper_char(c))
}

/// `str::split(sep)`: the pieces between the separators, empty ones
/// included; a text without separator is one piece.
pub open spec fn split_on(s: Seq<char>, sep: char) -> Seq<Seq<char>>
    decreases s.len(),
{
    if s.len() == 0 {
        seq![Seq::<char>::empty()]
    } else {
        let parts = split_on(s.drop_last(), sep);
        if s.last() == sep {
            parts.push(Seq::<char>::empty())
        } else {
            parts.drop_last().push(parts.last().push(s.last()))
        }
    }
}

/// `str::split_once(sep)`: the text before the first separator and the
/// text after it, or `None` when the separator does not occur.
pub open spec fn split_once(s: Seq<char>, sep: char) -> Option<(Seq<char>, Seq<char>)>
    decreases s.len(),
{
    if s.len() == 0 {
        None
    } else if s[0] == sep {
        Some((Seq::<char>::empty(), s.drop_first()))
    } else {
        match split_once(s.drop_first(), sep) {
            Some(halves) => Some((seq![s[0]] + halves.0, halves.1)),
            None => None,
        }
    }
}

/// Left fold of `f` over `parts`, starting from `init`.
pub open spec fn fold_parts<S>(parts: Seq<Seq<char>>, init: S, f: spec_fn(S, Seq<char>) -> S) -> S
    decreases parts.len(),
{
    if parts.len() == 0 {
        init
    } else {
        f(fold_parts(parts.drop_last(), init, f), parts.last())
    }
}

// ---------------------------------------------------------------------------
// Decimal numbers
// ---------------------------------------------------------------------------

pub open spec fn is_digit(c: char) -> bool {
    '0' <= c <= '9'
}

pub open spec fn all_digits(s: Seq<char>) -> bool {
    forall|i: int| 0 <= i < s.len() ==> is_digit(#[trigger] s[i])
}

pub open spec fn digit_value(c: char) -> nat {
    ((c as u32) - ('0' as u32)) as nat
}

/// The number that a string of decimal digits denotes.
pub open spec fn digits_value(s: Seq<char>) -> nat
    decreases s.len(),
{
    if s.len() == 0 {
        0
    } else {
        digits_value(s.drop_last()) * 10 + digit_value(s.last())
    }
}

/// The digits of `s` after an optional leading `+`, if they are one or
/// more decimal digits.
pub open spec fn unsigned_digits(s: Seq<char>) -> Option<Seq<char>> {
    let d = if s.len() > 0 && s[0] == '+' {
        s.drop_first()
    } else {
        s
    };
    if d.len() > 0 && all_digits(d) {
        Some(d)
    } else {
        None
    }
}

/// `str::parse::<u8>`: an optional `+`, then decimal digits whose value
/// fits in a `u8`.
pub open spec fn parse_u8_text(s: Seq<char>) -> Option<u8> {
    match unsigned_digits(s) {
        Some(d) => if digits_value(d) <= 255 {
            Some(digits_value(d) as u8)
        } else {
            None
        },
        None => None,
    }
}

/// `str::parse::<i32>`: an optional sign, then decimal digits whose value,
/// with the sign, fits in an `i32`.
pub open spec fn parse_i32_text(s: Seq<char>) -> Option<i32> {
    if s.len() > 0 && s[0] == '-' {
        let d = s.drop_first();
        if d.len() > 0 && all_digits(d) && digits_value(d) <= 0x8000_0000 {
            Some((0 - digits_value(d)) as i32)
        } else {
            None
        }
    } else {
        match unsigned_digits(s) {
            Some(d) => if digits_value(d) <= 0x7fff_ffff {
                Some(digits_value(d) as i32)
            } else {
                None
            },
            None => None,
        }
    }
}

pub open spec fn digit_char(n: nat) -> char {
    (('0' as u32) + n) as char
}

/// The decimal representation of `n`, as `Display` writes it.
pub open spec fn decimal(n: nat) -> Seq<char>
    decreases n,
{
    if n < 10 {
        seq![digit_char(n)]
    } else {
        decimal(n / 10).push(digit_char(n % 10))
    }
}

/// The decimal representation of a signed number, as `Display` writes it.
pub open spec fn signed_decimal(i: int) -> Seq<char> {
    if i < 0 {
        seq!['-'] + decimal((0 - i) as nat)
    } else {
        decimal(i as nat)
    }
}

// ---------------------------------------------------------------------------
// Lemmas
// ---------------------------------------------------------------------------

/// ASCII case mapping on one character: a capital letter is lowered to the
/// letter 32 code points above it, a small letter raised to the one 32 below
/// it, and every other character, ASCII or not, is left as it is. Lowering
/// leaves no capital and raising no small letter.
pub proof fn lemma_ascii_case_char(c: char)
    ensures
        'A' <= c <= 'Z' ==> lower_char(c) as u32 == c as u32 + 32 && 'a' <= lower_char(c) <= 'z',
        'a' <= c <= 'z' ==> upper_char(c) as u32 == c as u32 - 32 && 'A' <= upper_char(c) <= 'Z',
        !('A' <= c <= 'Z') ==> lower_char(c) == c,
        !('a' <= c <= 'z') ==> upper_char(c) == c,
        !('A' <= lower_char(c) <= 'Z'),
        !('a' <= upper_char(c) <= 'z'),
        'a' <= c <= 'z' ==> lower_char(upper_char(c)) == c,
        'A' <= c <= 'Z' ==> upper_char(lower_char(c)) == c,
{
}

/// ASCII case mapping on a text keeps its length and maps each character on
/// its own: a capital at a place becomes the small letter 32 code points above
/// it (and a small letter the capital 32 below it, when raising); every other
/// character stays.
pub proof fn lemma_ascii_case_text(s: Seq<char>)
    ensures
        ascii_lower(s).len() == s.len(),
        ascii_upper(s).len() == s.len(),
        forall|i: int|
            0 <= i < s.len() ==> {
                &&& ('A' <= s[i] <= 'Z' ==> #[trigger] ascii_lower(s)[i] as u32 == s[i] as u32 + 32)
                &&& (!('A' <= s[i] <= 'Z') ==> ascii_lower(s)[i] == s[i])
            },
        forall|i: int|
            0 <= i < s.len() ==> {
                &&& ('a' <= s[i] <= 'z' ==> #[trigger] ascii_upper(s)[i] as u32 == s[i] as u32 - 32)
                &&& (!('a' <= s[i] <= 'z') ==> ascii_upper(s)[i] == s[i])
            },
{
    assert forall|i: int| 0 <= i < s.len() implies {
        &&& ('A' <= s[i] <= 'Z' ==> #[trigger] ascii_lower(s)[i] as u32 == s[i] as u32 + 32)
        &&& (!('A' <= s[i] <= 'Z') ==> ascii_lower(s)[i] == s[i])
    } by {
        lemma_ascii_case_char(s[i]);
    }
    assert forall|i: int| 0 <= i < s.len() implies {
        &&& ('a' <= s[i] <= 'z' ==> #[trigger] ascii_upper(s)[i] as u32 == s[i] as u32 - 32)
        &&& (!('a' <= s[i] <= 'z') ==> ascii_upper(s)[i] == s[i])
    } by {
        lemma_ascii_case_char(s[i]);
    }
}

pub proof fn lemma_split_nonempty(s: Seq<char>, sep: char)
    ensures
        split_on(s, sep).len() >= 1,
    decreases s.len(),
{
    if s.len() > 0 {
        lemma_split_nonempty(s.drop_last(), sep);
    }
}

/// Appending text without a separator extends the last piece.
pub proof fn lemma_split_append_plain(s: Seq<char>, t: Seq<char>, sep: char)
    requires
        !t.contains(sep),
    ensures
        split_on(s + t, sep) == split_on(s, sep).drop_last().push(split_on(s, sep).last() + t),
    decreases t.len(),
{
    let p = split_on(s, sep);
    lemma_split_nonempty(s, sep);
    if t.len() == 0 {
        assert(s + t =~= s);
        assert(p.last() + t =~= p.last());
        assert(p.drop_last().push(p.last()) =~= p);
    } else {
        let t0 = t.drop_last();
        let c = t.last();
        assert(!t0.contains(sep)) by {
            if t0.contains(sep) {
                let k = choose|k: int| 0 <= k < t0.len() && t0[k] == sep;
                assert(t[k] == sep);
            }
        }
        assert(c != sep) by {
            assert(t[t.len() - 1] == c);
        }
        lemma_split_append_plain(s, t0, sep);
        assert((s + t).drop_last() =~= s + t0);
        assert((s + t).last() == c);
        let q = split_on(s + t0, sep);
        assert(q.drop_last() =~= p.drop_last());
        assert(q.last() == p.last() + t0);
        assert(q.last().push(c) =~= p.last() + t);
    }
}

/// A separator at the end opens a new, empty piece.
pub proof fn lemma_split_push_sep(s: Seq<char>, sep: char)
    ensures
        split_on(s.push(sep), sep) == split_on(s, sep).push(Seq::<char>::empty()),
{
    assert(s.push(sep).drop_last() =~= s);
}

/// Folding over the pieces of `s + w + sep`, where the pieces of `s` end with
/// an empty one, adds one step for `w`, provided that an empty piece changes
/// nothing.
pub proof fn lemma_fold_piece_then_sep<S>(
    s: Seq<char>,
    w: Seq<char>,
    sep: char,
    init: S,
    f: spec_fn(S, Seq<char>) -> S,
)
    requires
        !w.contains(sep),
        split_on(s, sep).last() == Seq::<char>::empty(),
        forall|st: S| #[trigger] f(st, Seq::<char>::empty()) == st,
    ensures
        fold_parts(split_on(s + w + seq![sep], sep), init, f) == f(
            fold_parts(split_on(s, sep), init, f),
            w,
        ),
        split_on(s + w + seq![sep], sep).last() == Seq::<char>::empty(),
{
    let p = split_on(s, sep);
    lemma_split_nonempty(s, sep);
    lemma_split_append_plain(s, w, sep);
    let x = p.drop_last();
    assert(Seq::<char>::empty() + w =~= w);
    assert(split_on(s + w, sep) == x.push(w));
    assert(s + w + seq![sep] =~= (s + w).push(sep));
    lemma_split_push_sep(s + w, sep);
    let q = x.push(w).push(Seq::<char>::empty());
    assert(split_on(s + w + seq![sep], sep) == q);
    assert(q.drop_last() =~= x.push(w));
    assert(x.push(w).drop_last() =~= x);
    assert(fold_parts(x.push(w), init, f) == f(fold_parts(x, init, f), w));
    assert(fold_parts(q, init, f) == f(fold_parts(x.push(w), init, f), Seq::<char>::empty()));
    assert(p.drop_last() =~= x);
    assert(fold_parts(p, init, f) == f(fold_parts(x, init, f), Seq::<char>::empty()));
}

/// Folding over the pieces of `s + w`, where the pieces of `s` end with an
/// empty one, adds one step for `w`.
pub proof fn lemma_fold_last_piece<S>(
    s: Seq<char>,
    w: Seq<char>,
    sep: char,
    init: S,
    f: spec_fn(S, Seq<char>) -> S,
)
    requires
        !w.contains(sep),
        split_on(s, sep).last() == Seq::<char>::empty(),
        forall|st: S| #[trigger] f(st, Seq::<char>::empty()) == st,
    ensures
        fold_parts(split_on(s + w, sep), init, f) == f(fold_parts(split_on(s, sep), init, f), w),
{
    let p = split_on(s, sep);
    lemma_split_nonempty(s, sep);
    lemma_split_append_plain(s, w, sep);
    let x = p.drop_last();
    assert(Seq::<char>::empty() + w =~= w);
    let q = x.push(w);
    assert(split_on(s + w, sep) == q);
    assert(q.drop_last() =~= x);
    assert(p.drop_last() =~= x);
    assert(fold_parts(p, init, f) == f(fold_parts(x, init, f), Seq::<char>::empty()));
}

/// The first separator of `a + sep + b` is the one after `a`.
pub proof fn lemma_split_once_at(a: Seq<char>, b: Seq<char>, sep: char)
    requires
        !a.contains(sep),
    ensures
        split_once(a + seq![sep] + b, sep) == Some((a, b)),
    decreases a.len(),
{
    let s = a + seq![sep] + b;
    if a.len() == 0 {
        assert(s =~= seq![sep] + b);
        assert(s.drop_first() =~= b);
    } else {
        let a1 = a.drop_first();
        assert(!a1.contains(sep)) by {
            if a1.contains(sep) {
                let k = choose|k: int| 0 <= k < a1.len() && a1[k] == sep;
                assert(a[k + 1] == sep);
            }
        }
        assert(a[0] != sep);
        lemma_split_once_at(a1, b, sep);
        assert(s.drop_first() =~= a1 + seq![sep] + b);
        assert(seq![a[0]] + a1 =~= a);
    }
}

/// Without a separator there is no split.
pub proof fn lemma_split_once_none(s: Seq<char>, sep: char)
    requires
        !s.contains(sep),
    ensures
        split_once(s, sep) is None,
    decreases s.len(),
{
    if s.len() > 0 {
        assert(s[0] != sep);
        assert(!s.drop_first().contains(sep)) by {
            if s.drop_first().contains(sep) {
                let k = choose|k: int| 0 <= k < s.drop_first().len() && s.drop_first()[k] == sep;
                assert(s[k + 1] == sep);
            }
        }
        lemma_split_once_none(s.drop_first(), sep);
    }
}

pub proof fn lemma_trim_start_skip(s: Seq<char>, i: int)
    requires
        0 <= i <= s.len(),
        forall|j: int| 0 <= j < i ==> is_space(#[trigger] s[j]),
    ensures
        trim_start(s) == trim_start(s.subrange(i, s.len() as int)),
    decreases i,
{
    if i > 0 {
        lemma_trim_start_skip(s, i - 1);
        let t = s.subrange(i - 1, s.len() as int);
        assert(t[0] == s[i - 1]);
        assert(t.drop_first() =~= s.subrange(i, s.len() as int));
    } else {
        assert(s.subrange(0, s.len() as int) =~= s);
    }
}

pub proof fn lemma_trim_end_cut(s: Seq<char>, j: int)
    requires
        0 <= j <= s.len(),
        forall|k: int| j <= k < s.len() ==> is_space(#[trigger] s[k]),
    ensures
        trim_end(s) == trim_end(s.subrange(0, j)),
    decreases s.len() - j,
{
    if j < s.len() {
        lemma_trim_end_cut(s, j + 1);
        let t = s.subrange(0, j + 1);
        assert(t.last() == s[j]);
        assert(t.drop_last() =~= s.subrange(0, j));
    } else {
        assert(s.subrange(0, s.len() as int) =~= s);
    }
}

/// A text that begins and ends with a non-space character is its own trim.
pub proof fn lemma_trim_fixed(s: Seq<char>)
    requires
        s.len() > 0,
        !is_space(s[0]),
        !is_space(s.last()),
    ensures
        trim(s) == s,
{
}

/// What is left after removing leading white space is empty or starts with
/// a non-space character.
pub proof fn lemma_trim_start_front(s: Seq<char>)
    ensures
        trim_start(s).len() == 0 || !is_space(trim_start(s)[0]),
    decreases s.len(),
{
    if s.len() > 0 && is_space(s[0]) {
        lemma_trim_start_front(s.drop_first());
    }
}

/// Removing trailing white space leaves a prefix that is empty or ends with
/// a non-space character.
pub proof fn lemma_trim_end_prefix(s: Seq<char>)
    ensures
        trim_end(s).len() <= s.len(),
        trim_end(s) == s.take(trim_end(s).len() as int),
        trim_end(s).len() == 0 || !is_space(trim_end(s).last()),
    decreases s.len(),
{
    if s.len() > 0 && is_space(s.last()) {
        lemma_trim_end_prefix(s.drop_last());
        let t = trim_end(s.drop_last());
        assert(s.drop_last().take(t.len() as int) =~= s.take(t.len() as int));
    } else {
        assert(s.take(s.len() as int) =~= s);
    }
}

/// A trimmed text is empty or has no white space at its ends.
pub proof fn lemma_trim_ends(s: Seq<char>)
    ensures
        trim(s).len() == 0 || (!is_space(trim(s)[0]) && !is_space(trim(s).last())),
{
    lemma_trim_start_front(s);
    lemma_trim_end_prefix(trim_start(s));
    let t = trim(s);
    if t.len() > 0 {
        assert(t[0] == trim_start(s)[0]);
    }
}

/// Lower-casing and trimming once more changes nothing.
pub proof fn lemma_lower_trim_idempotent(v: Seq<char>)
    ensures
        ascii_lower(trim(ascii_lower(trim(v)))) == ascii_lower(trim(v)),
{
    let t = trim(v);
    let l = ascii_lower(t);
    lemma_trim_ends(v);
    if l.len() > 0 {
        assert(l[0] == lower_char(t[0]));
        assert(l.last() == lower_char(t.last()));
        lemma_trim_fixed(l);
    } else {
        assert(trim(l) =~= l);
    }
    assert(ascii_lower(l) =~= l);
}

/// Each prefix of a digit string denotes at most what the whole does.
pub proof fn lemma_digits_value_prefix(s: Seq<char>, k: int)
    requires
        0 <= k <= s.len(),
    ensures
        digits_value(s.take(k)) <= digits_value(s),
    decreases s.len() - k,
{
    if k < s.len() {
        lemma_digits_value_prefix(s, k + 1);
        assert(s.take(k + 1).drop_last() =~= s.take(k));
    } else {
        assert(s.take(k) =~= s);
    }
}

pub proof fn lemma_decimal_digits(n: nat)
    ensures
        decimal(n).len() > 0,
        all_digits(decimal(n)),
        digits_value(decimal(n)) == n,
        decimal(n)[0] != '+' && decimal(n)[0] != '-',
    decreases n,
{
    if n >= 10 {
        lemma_decimal_digits(n / 10);
        let d = decimal(n / 10);
        assert(decimal(n).drop_last() =~= d);
        assert(decimal(n)[0] == d[0]);
        let k = (n % 10) as nat;
        assert(digit_value(digit_char(k)) == k);
        assert(n == (n / 10) * 10 + k);
        assert(decimal(n).last() == digit_char(k));
        assert(digits_value(decimal(n)) == digits_value(d) * 10 + k);
        assert forall|i: int| 0 <= i < decimal(n).len() implies is_digit(#[trigger] decimal(n)[i]) by {
            if i < d.len() {
                assert(decimal(n)[i] == d[i]);
            }
        }
    } else {
        assert(decimal(n).drop_last() =~= Seq::<char>::empty());
        assert(digit_value(digit_char(n)) == n);
        assert(digits_value(decimal(n)) == digits_value(Seq::<char>::empty()) * 10 + n);
    }
}

/// Reading back what `Display` writes for a `u8`.
pub proof fn lemma_parse_u8_decimal(n: u8)
    ensures
        parse_u8_text(decimal(n as nat)) == Some(n),
{
    lemma_decimal_digits(n as nat);
}

/// Reading back what `Display` writes for an `i32`.
pub proof fn lemma_parse_i32_decimal(n: i32)
    ensures
        parse_i32_text(signed_decimal(n as int)) == Some(n),
{
    if n < 0 {
        let m = (0 - n) as nat;
        lemma_decimal_digits(m);
        let s = signed_decimal(n as int);
        assert(s.drop_first() =~= decimal(m));
    } else {
        lemma_decimal_digits(n as nat);
    }
}

// ---------------------------------------------------------------------------
// Executable helpers
// ---------------------------------------------------------------------------

/// The characters of `s`.
pub fn str_chars(s: &str) -> (v: Vec<char>)
    ensures
        v@ == s@,
{
    let mut v: Vec<char> = Vec::new();
    for c in it: s.chars()
        invariant
            v@ == it.seq().take(it.index() as int),
    {
        v.push(c);
    }
    v
}

/// Whether two character vectors are equal.
pub fn chars_eq(a: &Vec<char>, b: &Vec<char>) -> (r: bool)
    ensures
        r == (a@ == b@),
{
    if a.len() != b.len() {
        return false;
    }
    let mut i: usize = 0;
    while i < a.len()
        invariant
            a@.len() == b@.len(),
            i <= a@.len(),
            forall|j: int| 0 <= j < i ==> a@[j] == b@[j],
        decreases a.len() - i,
    {
        if a[i] != b[i] {
            return false;
        }
        i = i + 1;
    }
    assert(a@ =~= b@);
    true
}

/// Whether `a` holds exactly the characters of `s`.
pub fn chars_eq_str(a: &Vec<char>, s: &str) -> (r: bool)
    ensures
        r == (a@ == s@),
{
    let n = s.unicode_len();
    if a.len() != n {
        return false;
    }
    let mut i: usize = 0;
    while i < n
        invariant
            n == s@.len(),
            a@.len() == n,
            i <= n,
            forall|j: int| 0 <= j < i ==> a@[j] == s@[j],
        decreases n - i,
    {
        if a[i] != s.get_char(i) {
            return false;
        }
        i = i + 1;
    }
    assert(a@ =~= s@);
    true
}

/// `str::trim` on characters.
pub fn trim_chars(s: &Vec<char>) -> (r: Vec<char>)
    ensures
        r@ == trim(s@),
{
    let n = s.len();
    let mut i: usize = 0;
    while i < n && is_space_char(s[i])
        invariant
            n == s@.len(),
            i <= n,
            forall|j: int| 0 <= j < i ==> is_space(#[trigger] s@[j]),
        decreases n - i,
    {
        i = i + 1;
    }
    proof {
        lemma_trim_start_skip(s@, i as int);
    }
    let ghost rest = s@.subrange(i as int, n as int);
    assert(trim_start(rest) == rest);
    let mut j: usize = n;
    while j > i && is_space_char(s[j - 1])
        invariant
            n == s@.len(),
            i <= j <= n,
            rest == s@.subrange(i as int, n as int),
            forall|k: int| j <= k < n ==> is_space(#[trigger] s@[k]),
        decreases j,
    {
        j = j - 1;
    }
    proof {
        let jr = j - i;
        assert forall|k: int| jr <= k < rest.len() implies is_space(#[trigger] rest[k]) by {
            assert(rest[k] == s@[k + i]);
        }
        lemma_trim_end_cut(rest, jr);
        let cut = rest.subrange(0, jr);
        if cut.len() > 0 {
            assert(cut.last() == s@[j - 1]);
        }
        assert(trim_end(cut) == cut);
        assert(cut =~= s@.subrange(i as int, j as int));
    }
    let mut r: Vec<char> = Vec::new();
    let mut k: usize = i;
    while k < j
        invariant
            n == s@.len(),
            i <= k <= j <= n,
            r@ =~= s@.subrange(i as int, k as int),
        decreases j - k,
    {
        r.push(s[k]);
        k = k + 1;
    }
    r
}

/// `str::to_ascii_lowercase` on characters.
pub fn lower_chars(s: &Vec<char>) -> (r: Vec<char>)
    ensures
        r@ == ascii_lower(s@),
{
    let mut r: Vec<char> = Vec::new();
    let mut i: usize = 0;
    while i < s.len()
        invariant
            i <= s@.len(),
            r@ =~= ascii_lower(s@.take(i as int)),
        decreases s.len() - i,
    {
        r.push(to_lower_char(s[i]));
        i = i + 1;
    }
    assert(s@.take(s@.len() as int) =~= s@);
    r
}

/// `str::to_ascii_uppercase` on characters.
pub fn upper_chars(s: &Vec<char>) -> (r: Vec<char>)
    ensures
        r@ == ascii_upper(s@),
{
    let mut r: Vec<char> = Vec::new();
    let mut i: usize = 0;
    while i < s.len()
        invariant
            i <= s@.len(),
            r@ =~= ascii_upper(s@.take(i as int)),
        decreases s.len() - i,
    {
        r.push(to_upper_char(s[i]));
        i = i + 1;
    }
    assert(s@.take(s@.len() as int) =~= s@);
    r
}

/// `str::split_once` on characters.
pub fn split_once_chars(s: &Vec<char>, sep: char) -> (r: Option<(Vec<char>, Vec<char>)>)
    ensures
        match r {
            Some(halves) => split_once(s@, sep) == Some((halves.0@, halves.1@)),
            None => split_once(s@, sep) is None,
        },
{
    let n = s.len();
    let mut i: usize = 0;
    while i < n && s[i] != sep
        invariant
            n == s@.len(),
            i <= n,
            forall|j: int| 0 <= j < i ==> s@[j] != sep,
        decreases n - i,
    {
        i = i + 1;
    }
    if i == n {
        proof {
            assert(!s@.contains(sep));
            lemma_split_once_none(s@, sep);
        }
        return None;
    }
    let mut before: Vec<char> = Vec::new();
    let mut k: usize = 0;
    while k < i
        invariant
            n == s@.len(),
            k <= i < n,
            before@ =~= s@.take(k as int),
        decreases i - k,
    {
        before.push(s[k]);
        k = k + 1;
    }
    let mut after: Vec<char> = Vec::new();
    let mut m: usize = i + 1;
    while m < n
        invariant
            n == s@.len(),
            i < m <= n,
            after@ =~= s@.subrange(i + 1, m as int),
        decreases n - m,
    {
        after.push(s[m]);
        m = m + 1;
    }
    proof {
        let a = s@.take(i as int);
        let b = s@.subrange(i + 1, n as int);
        assert(!a.contains(sep));
        lemma_split_once_at(a, b, sep);
        assert(a + seq![sep] + b =~= s@);
    }
    Some((before, after))
}

/// Whether every character of `s` is a decimal digit.
fn all_digit_chars(s: &Vec<char>, from: usize) -> (r: bool)
    requires
        from <= s@.len(),
    ensures
        r == (forall|i: int| from <= i < s@.len() ==> is_digit(#[trigger] s@[i])),
{
    let mut i: usize = from;
    while i < s.len()
        invariant
            from <= i <= s@.len(),
            forall|j: int| from <= j < i ==> is_digit(#[trigger] s@[j]),
        decreases s.len() - i,
    {
        if !(s[i] >= '0' && s[i] <= '9') {
            return false;
        }
        i = i + 1;
    }
    true
}

/// The value of the digits `s[from..]`, or `None` once it exceeds `limit`.
fn digits_value_upto(s: &Vec<char>, from: usize, limit: u32) -> (r: Option<u32>)
    requires
        from <= s@.len(),
        forall|i: int| from <= i < s@.len() ==> is_digit(#[trigger] s@[i]),
    ensures
        match r {
            Some(v) => v == digits_value(s@.skip(from as int)) && v <= limit,
            None => digits_value(s@.skip(from as int)) > limit,
        },
{
    let ghost d = s@.skip(from as int);
    let mut v: u64 = 0;
    let mut i: usize = from;
    while i < s.len()
        invariant
            from <= i <= s@.len(),
            d == s@.skip(from as int),
            forall|j: int| from <= j < s@.len() ==> is_digit(#[trigger] s@[j]),
            v == digits_value(d.take(i - from)),
            v <= limit,
        decreases s.len() - i,
    {
        let c = s[i];
        assert(is_digit(s@[i as int]));
        let dv: u64 = (c as u32 - '0' as u32) as u64;
        proof {
            let t = d.take(i - from + 1);
            assert(t.drop_last() =~= d.take(i - from));
            assert(t.last() == c);
        }
        v = v * 10 + dv;
        if v > limit as u64 {
            proof {
                lemma_digits_value_prefix(d, i - from + 1);
            }
            return None;
        }
        i = i + 1;
    }
    assert(d.take(i - from) =~= d);
    Some(v as u32)
}

/// `str::parse::<u8>` on characters.
pub fn parse_u8_chars(s: &Vec<char>) -> (r: Option<u8>)
    ensures
        r == parse_u8_text(s@),
{
    let from: usize = if s.len() > 0 && s[0] == '+' {
        1
    } else {
        0
    };
    let ghost d = s@.skip(from as int);
    assert(d =~= (if s@.len() > 0 && s@[0] == '+' {
        s@.drop_first()
    } else {
        s@
    }));
    if from >= s.len() || !all_digit_chars(s, from) {
        assert(!(d.len() > 0 && all_digits(d))) by {
            if d.len() > 0 && all_digits(d) {
                assert forall|i: int| from <= i < s@.len() implies is_digit(#[trigger] s@[i]) by {
                    assert(s@[i] == d[i - from]);
                }
            }
        }
        return None;
    }
    assert(all_digits(d)) by {
        assert forall|i: int| 0 <= i < d.len() implies is_digit(#[trigger] d[i]) by {
            assert(d[i] == s@[i + from]);
        }
    }
    match digits_value_upto(s, from, 255) {
        Some(v) => Some(v as u8),
        None => None,
    }
}

/// `str::parse::<i32>` on characters.
pub fn parse_i32_chars(s: &Vec<char>) -> (r: Option<i32>)
    ensures
        r == parse_i32_text(s@),
{
    let negative = s.len() > 0 && s[0] == '-';
    let from: usize = if s.len() > 0 && (s[0] == '+' || s[0] == '-') {
        1
    } else {
        0
    };
    let ghost d = s@.skip(from as int);
    if from >= s.len() || !all_digit_chars(s, from) {
        assert(!(d.len() > 0 && all_digits(d))) by {
            if d.len() > 0 && all_digits(d) {
                assert forall|i: int| from <= i < s@.len() implies is_digit(#[trigger] s@[i]) by {
                    assert(s@[i] == d[i - from]);
                }
            }
        }
        proof {
            if negative {
                assert(d =~= s@.drop_first());
            } else if s@.len() > 0 && s@[0] == '+' {
                assert(d =~= s@.drop_first());
            } else {
                assert(d =~= s@);
            }
        }
        return None;
    }
    assert(all_digits(d)) by {
        assert forall|i: int| 0 <= i < d.len() implies is_digit(#[trigger] d[i]) by {
            assert(d[i] == s@[i + from]);
        }
    }
    if negative {
        assert(d =~= s@.drop_first());
        match digits_value_upto(s, from, 0x8000_0000) {
            Some(v) => {
                let m: i64 = 0 - (v as i64);
                Some(m as i32)
            },
            None => None,
        }
    } else {
        proof {
            if s@.len() > 0 && s@[0] == '+' {
                assert(d =~= s@.drop_first());
            } else {
                assert(d =~= s@);
            }
        }
        match digits_value_upto(s, from, 0x7fff_ffff) {
            Some(v) => Some(v as i32),
            None => None,
        }
    }
}

/// `String::push`, which appends one character; the contract says exactly
/// that of the characters of the string.
#[verifier::external_body]
pub(crate) fn push_char(out: &mut String, c: char)
    ensures
        final(out)@ == old(out)@.push(c),
{
    out.push(c);
}

/// A `String` holding the characters of `v`.
pub fn chars_to_string(v: &Vec<char>) -> (r: String)
    ensures
        r@ == v@,
{
    let mut out = String::new();
    let mut i: usize = 0;
    while i < v.len()
        invariant
            i <= v@.len(),
            out@ =~= v@.take(i as int),
        decreases v.len() - i,
    {
        push_char(&mut out, v[i]);
        i = i + 1;
    }
    assert(v@.take(v@.len() as int) =~= v@);
    out
}

/// Appends every character of a `str`.
pub fn push_str(out: &mut String, s: &str)
    ensures
        final(out)@ == old(out)@ + s@,
{
    let ghost start = out@;
    for c in it: s.chars()
        invariant
            out@ == start + it.seq().take(it.index() as int),
    {
        push_char(out, c);
    }
}

/// Appends the decimal representation of `n`.
pub fn push_decimal(out: &mut String, n: u32)
    ensures
        final(out)@ == old(out)@ + decimal(n as nat),
    decreases n,
{
    if n >= 10 {
        push_decimal(out, n / 10);
    }
    let d: u8 = (n % 10) as u8 + 48;
    push_char(out, d as char);
    proof {
        if n >= 10 {
            assert(decimal(n as nat) == decimal((n / 10) as nat).push(digit_char((n % 10) as nat)));
        }
    }
}

/// Appends the decimal representation of a signed `n`.
pub fn push_signed_decimal(out: &mut String, n: i32)
    ensures
        final(out)@ == old(out)@ + signed_decimal(n as int),
{
    if n < 0 {
        push_char(out, '-');
        let m: u32 = (0 - (n as i64)) as u32;
        push_decimal(out, m);
    } else {
        push_decimal(out, n as u32);
    }
}

} // verus!
