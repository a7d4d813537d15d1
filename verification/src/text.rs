//! Text utilities over `char` sequences: trimming, searching, decimal and
//! hexadecimal number parsing and printing.
//!
//! The spec functions here describe, over `Seq<char>`, what the usual string
//! operations of Rust's standard library compute (`trim`, `starts_with`,
//! `find`, `str::parse::<u32>`, `u32::from_str_radix(_, 16)`, `{}` and
//! `{:04x}` formatting); the executable functions implement them on `char`
//! vectors and are proved against them.
use vstd::prelude::*;

verus! {

// ---------------------------------------------------------------------------
// Conversions between `str`/`String` and `Vec<char>`
// ---------------------------------------------------------------------------

/// Copies the characters of `s` into a vector.
pub fn chars_of(s: &str) -> (r: Vec<char>)
    ensures
        r@ == s@,
{
    let mut r: Vec<char> = Vec::new();
    for c in it: s.chars()
        invariant
            r@ == it.seq().take(it.index() as int),
            it.seq() == s@,
    {
        r.push(c);
    }
    r
}

/// Builds a `String` holding exactly the characters `cs`
/// (`std`'s `FromIterator<&char>` for `String`).
#[verifier::external_body]
pub(crate) fn string_from_chars(cs: &[char]) -> (r: String)
    ensures
        r@ == cs@,
{
    cs.iter().collect()
}

/// Appends the characters of `s` to `out`.
pub fn push_all(out: &mut Vec<char>, s: &[char])
    ensures
        final(out)@ == old(out)@ + s@,
{
    let mut i: usize = 0;
    while i < s.len()
        invariant
            i <= s@.len(),
            out@ == old(out)@ + s@.subrange(0, i as int),
        decreases s@.len() - i,
    {
        out.push(s[i]);
        i = i + 1;
        assert(out@ =~= old(out)@ + s@.subrange(0, i as int));
    }
    assert(s@.subrange(0, s@.len() as int) =~= s@);
}

/// Appends the characters of `s` to `out`.
pub fn push_str_chars(out: &mut Vec<char>, s: &str)
    ensures
        final(out)@ == old(out)@ + s@,
{
    let cs = chars_of(s);
    push_all(out, cs.as_slice());
}

/// `trim(s)` parsed as a `u32` (`s.trim().parse::<u32>()`).
pub fn parse_u32_trimmed(s: &[char]) -> (r: Option<u32>)
    ensures
        match parse_u32_spec(trim(s@)) {
            Some(v) => r == Some(v as u32),
            None => r is None,
        },
{
    let (lo, hi) = trim_bounds(s);
    match parse_unsigned_range(s, lo, hi, 10, u32::MAX as u64) {
        Some(v) => Some(v as u32),
        None => None,
    }
}

/// `trim(s)` parsed as a `u64` (`s.trim().parse::<u64>()`).
pub fn parse_u64_trimmed(s: &[char]) -> (r: Option<u64>)
    ensures
        match parse_u64_spec(trim(s@)) {
            Some(v) => r == Some(v as u64),
            None => r is None,
        },
{
    let (lo, hi) = trim_bounds(s);
    parse_unsigned_range(s, lo, hi, 10, u64::MAX)
}

/// `s.trim_start_matches(pre).trim_end_matches(suf)` as characters.
pub open spec fn strip_around(s: Seq<char>, pre: Seq<char>, suf: Seq<char>) -> Seq<char> {
    strip_suffixes(strip_prefixes(s, pre), suf)
}

/// `s.trim_start_matches(pre).trim_end_matches(suf)`.
pub fn stripped_around(s: &[char], pre: &[char], suf: &[char]) -> (r: Vec<char>)
    ensures
        r@ == strip_around(s@, pre@, suf@),
{
    assert(s@.subrange(0, s@.len() as int) =~= s@);
    let lo = strip_prefixes_from(s, 0, s.len(), pre);
    let hi = strip_suffixes_from(s, lo, s.len(), suf);
    slice_to_vec(s, lo, hi)
}

/// `s.trim_end_matches(p)`.
pub fn stripped_suffixes(s: &[char], p: &[char]) -> (r: Vec<char>)
    ensures
        r@ == strip_suffixes(s@, p@),
{
    assert(s@.subrange(0, s@.len() as int) =~= s@);
    let hi = strip_suffixes_from(s, 0, s.len(), p);
    slice_to_vec(s, 0, hi)
}

/// `s.trim_start_matches(p)`.
pub fn stripped_prefixes(s: &[char], p: &[char]) -> (r: Vec<char>)
    ensures
        r@ == strip_prefixes(s@, p@),
{
    assert(s@.subrange(0, s@.len() as int) =~= s@);
    let lo = strip_prefixes_from(s, 0, s.len(), p);
    slice_to_vec(s, lo, s.len())
}

/// The character contents of a sequence of strings.
pub open spec fn string_views(v: Seq<String>) -> Seq<Seq<char>> {
    v.map_values(|t: String| t@)
}

/// `String::clear`: the string becomes empty.
pub assume_specification[ String::clear ](s: &mut String)
    ensures
        final(s)@ == Seq::<char>::empty(),
;

/// `String::push_str`: `t` is appended to the string.
pub assume_specification[ String::push_str ](s: &mut String, t: &str)
    ensures
        final(s)@ == old(s)@ + t@,
;

// ---------------------------------------------------------------------------
// Whitespace and trimming
// ---------------------------------------------------------------------------

/// The Unicode `White_Space` property, as tested by `char::is_whitespace`.
pub open spec fn is_ws(c: char) -> bool {
    let n = c as u32;
    ||| 9 <= n <= 13
    ||| n == 32
    ||| n == 0x85
    ||| n == 0xA0
    ||| n == 0x1680
    ||| 0x2000 <= n <= 0x200A
    ||| n == 0x2028
    ||| n == 0x2029
    ||| n == 0x202F
    ||| n == 0x205F
    ||| n == 0x3000
}

/// Executable `char::is_whitespace`.
pub fn is_whitespace(c: char) -> (r: bool)
    ensures
        r == is_ws(c),
{
    let n = c as u32;
    (9 <= n && n <= 13) || n == 32 || n == 0x85 || n == 0xA0 || n == 0x1680 || (0x2000 <= n
        && n <= 0x200A) || n == 0x2028 || n == 0x2029 || n == 0x202F || n == 0x205F || n == 0x3000
}

/// `s` without its leading whitespace.
pub open spec fn trim_start(s: Seq<char>) -> Seq<char>
    decreases s.len(),
{
    if s.len() > 0 && is_ws(s[0]) {
        trim_start(s.drop_first())
    } else {
        s
    }
}

/// `s` without its trailing whitespace.
pub open spec fn trim_end(s: Seq<char>) -> Seq<char>
    decreases s.len(),
{
    if s.len() > 0 && is_ws(s.last()) {
        trim_end(s.drop_last())
    } else {
        s
    }
}

/// `s` without leading and trailing whitespace (`str::trim`).
pub open spec fn trim(s: Seq<char>) -> Seq<char> {
    trim_end(trim_start(s))
}

/// Index of the first non-whitespace character of `s[from..]`, or `s.len()`.
fn skip_ws_forward(s: &[char], from: usize) -> (r: usize)
    requires
        from <= s@.len(),
    ensures
        from <= r <= s@.len(),
        trim_start(s@.subrange(from as int, s@.len() as int)) == s@.subrange(
            r as int,
            s@.len() as int,
        ),
        forall|k: int| from <= k < r ==> is_ws(#[trigger] s@[k]),
        r < s@.len() ==> !is_ws(s@[r as int]),
{
    let mut i = from;
    while i < s.len() && is_whitespace(s[i])
        invariant
            from <= i <= s@.len(),
            trim_start(s@.subrange(from as int, s@.len() as int)) == trim_start(
                s@.subrange(i as int, s@.len() as int),
            ),
            forall|k: int| from <= k < i ==> is_ws(#[trigger] s@[k]),
        decreases s@.len() - i,
    {
        assert(s@.subrange(i as int, s@.len() as int).drop_first() =~= s@.subrange(
            i + 1,
            s@.len() as int,
        ));
        i = i + 1;
    }
    if i >= s.len() {
        assert(s@.subrange(i as int, s@.len() as int) =~= Seq::<char>::empty());
    }
    i
}

/// End (exclusive) of `s[from..to]` once trailing whitespace is removed.
fn skip_ws_backward(s: &[char], from: usize, to: usize) -> (r: usize)
    requires
        from <= to <= s@.len(),
    ensures
        from <= r <= to,
        trim_end(s@.subrange(from as int, to as int)) == s@.subrange(from as int, r as int),
        forall|k: int| r <= k < to ==> is_ws(#[trigger] s@[k]),
        r > from ==> !is_ws(s@[r - 1]),
{
    let mut j = to;
    while j > from && is_whitespace(s[j - 1])
        invariant
            from <= j <= to,
            to <= s@.len(),
            trim_end(s@.subrange(from as int, to as int)) == trim_end(
                s@.subrange(from as int, j as int),
            ),
            forall|k: int| j <= k < to ==> is_ws(#[trigger] s@[k]),
        decreases j,
    {
        assert(s@.subrange(from as int, j as int).drop_last() =~= s@.subrange(
            from as int,
            j - 1,
        ));
        j = j - 1;
    }
    j
}

/// Bounds `(lo, hi)` such that `s[lo..hi]` is `trim(s)`.
pub fn trim_bounds(s: &[char]) -> (r: (usize, usize))
    ensures
        r.0 <= r.1 <= s@.len(),
        s@.subrange(r.0 as int, r.1 as int) == trim(s@),
{
    let lo = skip_ws_forward(s, 0);
    assert(s@.subrange(0, s@.len() as int) =~= s@);
    let hi = skip_ws_backward(s, lo, s.len());
    (lo, hi)
}

/// `trim(s)` as a new vector.
pub fn trimmed(s: &[char]) -> (r: Vec<char>)
    ensures
        r@ == trim(s@),
{
    let (lo, hi) = trim_bounds(s);
    slice_to_vec(s, lo, hi)
}

/// Copies `s[lo..hi]` into a new vector.
pub fn slice_to_vec(s: &[char], lo: usize, hi: usize) -> (r: Vec<char>)
    requires
        lo <= hi <= s@.len(),
    ensures
        r@ == s@.subrange(lo as int, hi as int),
{
    let mut r: Vec<char> = Vec::new();
    let mut i = lo;
    while i < hi
        invariant
            lo <= i <= hi <= s@.len(),
            r@ == s@.subrange(lo as int, i as int),
        decreases hi - i,
    {
        r.push(s[i]);
        i = i + 1;
    }
    r
}


// ---------------------------------------------------------------------------
// Prefixes, suffixes and substrings
// ---------------------------------------------------------------------------

/// `p` occurs in `s` starting at index `i`.
pub open spec fn occurs_at(s: Seq<char>, p: Seq<char>, i: int) -> bool {
    0 <= i && i + p.len() <= s.len() && s.subrange(i, i + p.len()) == p
}

/// `s` starts with `p` (`str::starts_with`).
pub open spec fn has_prefix(s: Seq<char>, p: Seq<char>) -> bool {
    occurs_at(s, p, 0)
}

/// `s` ends with `p` (`str::ends_with`).
pub open spec fn has_suffix(s: Seq<char>, p: Seq<char>) -> bool {
    occurs_at(s, p, s.len() - p.len())
}

/// `p` occurs somewhere in `s` (`str::contains`).
pub open spec fn has_infix(s: Seq<char>, p: Seq<char>) -> bool {
    exists|i: int| occurs_at(s, p, i)
}

/// `i` is the first position at which `p` occurs in `s` (`str::find`).
pub open spec fn first_occurrence(s: Seq<char>, p: Seq<char>, i: int) -> bool {
    occurs_at(s, p, i) && forall|j: int| 0 <= j < i ==> !occurs_at(s, p, j)
}

/// The first position at or after `i` where `p` occurs in `s`, or `-1`.
pub open spec fn find_from(s: Seq<char>, p: Seq<char>, i: int) -> int
    decreases s.len() + 1 - i,
{
    if i < 0 || i > s.len() {
        -1
    } else if occurs_at(s, p, i) {
        i
    } else {
        find_from(s, p, i + 1)
    }
}

/// `find_from` from position `k` finds the first occurrence at or after `k`.
pub proof fn lemma_find_from(s: Seq<char>, p: Seq<char>, k: int)
    requires
        0 <= k,
    ensures
        find_from(s, p, k) >= 0 ==> k <= find_from(s, p, k) && occurs_at(s, p, find_from(s, p, k))
            && forall|j: int| k <= j < find_from(s, p, k) ==> !occurs_at(s, p, j),
        find_from(s, p, k) < 0 ==> forall|j: int| k <= j ==> !occurs_at(s, p, j),
    decreases s.len() + 1 - k,
{
    if k <= s.len() && !occurs_at(s, p, k) {
        lemma_find_from(s, p, k + 1);
        assert forall|j: int| k <= j && (find_from(s, p, k) < 0 || j < find_from(s, p, k)) implies !occurs_at(
            s,
            p,
            j,
        ) by {
            if j > k {
            }
        }
    }
}

/// The first position where `p` occurs in `s` (`str::find`).
pub open spec fn find_spec(s: Seq<char>, p: Seq<char>) -> Option<int> {
    let i = find_from(s, p, 0);
    if i < 0 {
        None
    } else {
        Some(i)
    }
}

/// Whether `p` occurs in `s` at position `i`.
pub fn matches_at(s: &[char], p: &[char], i: usize) -> (r: bool)
    ensures
        r == occurs_at(s@, p@, i as int),
{
    if i > s.len() || p.len() > s.len() - i {
        return false;
    }
    let mut k: usize = 0;
    while k < p.len()
        invariant
            i + p@.len() <= s@.len(),
            s@.len() == s.len(),
            k <= p@.len(),
            forall|m: int| 0 <= m < k ==> s@[i + m] == p@[m],
        decreases p@.len() - k,
    {
        assert(i + k < s.len());
        if s[i + k] != p[k] {
            assert(s@.subrange(i as int, i + p@.len())[k as int] != p@[k as int]);
            return false;
        }
        k = k + 1;
    }
    assert(s@.subrange(i as int, i + p@.len()) =~= p@);
    true
}

/// `str::starts_with`.
pub fn starts_with(s: &[char], p: &[char]) -> (r: bool)
    ensures
        r == has_prefix(s@, p@),
{
    matches_at(s, p, 0)
}

/// `str::ends_with`.
pub fn ends_with(s: &[char], p: &[char]) -> (r: bool)
    ensures
        r == has_suffix(s@, p@),
{
    if p.len() > s.len() {
        false
    } else {
        matches_at(s, p, s.len() - p.len())
    }
}

/// `str::find`: the first position at which `p` occurs in `s`.
pub fn find(s: &[char], p: &[char]) -> (r: Option<usize>)
    ensures
        r matches Some(i) ==> first_occurrence(s@, p@, i as int),
        r is None ==> !has_infix(s@, p@),
        match find_spec(s@, p@) {
            Some(i) => r == Some(i as usize),
            None => r is None,
        },
{
    let r = find_first(s, p);
    proof {
        lemma_find_from(s@, p@, 0);
        let f = find_from(s@, p@, 0);
        match r {
            Some(i) => {
                if f < 0 {
                    assert(!occurs_at(s@, p@, i as int));
                } else if f < i {
                } else if f > i {
                }
            },
            None => {
                if f >= 0 {
                    assert(occurs_at(s@, p@, f));
                }
            },
        }
    }
    r
}

fn find_first(s: &[char], p: &[char]) -> (r: Option<usize>)
    ensures
        r matches Some(i) ==> first_occurrence(s@, p@, i as int),
        r is None ==> !has_infix(s@, p@),
{
    let mut i: usize = 0;
    while i < s.len()
        invariant
            i <= s@.len(),
            forall|j: int| 0 <= j < i ==> !occurs_at(s@, p@, j),
        decreases s@.len() - i,
    {
        if matches_at(s, p, i) {
            return Some(i);
        }
        i = i + 1;
    }
    if matches_at(s, p, i) {
        return Some(i);
    }
    assert forall|j: int| !occurs_at(s@, p@, j) by {
        if 0 <= j <= i {
        } else {
        }
    }
    None
}

/// `str::contains`.
pub fn contains(s: &[char], p: &[char]) -> (r: bool)
    ensures
        r == has_infix(s@, p@),
{
    find(s, p).is_some()
}

/// `s` with every leading copy of `p` removed (`str::trim_start_matches`).
pub open spec fn strip_prefixes(s: Seq<char>, p: Seq<char>) -> Seq<char>
    decreases s.len(),
{
    if p.len() > 0 && has_prefix(s, p) {
        strip_prefixes(s.subrange(p.len() as int, s.len() as int), p)
    } else {
        s
    }
}

/// `s` with every trailing copy of `p` removed (`str::trim_end_matches`).
pub open spec fn strip_suffixes(s: Seq<char>, p: Seq<char>) -> Seq<char>
    decreases s.len(),
{
    if p.len() > 0 && has_suffix(s, p) {
        strip_suffixes(s.subrange(0, s.len() - p.len()), p)
    } else {
        s
    }
}

/// Start of `strip_prefixes(s[lo..hi], p)` within `s`.
pub fn strip_prefixes_from(s: &[char], lo: usize, hi: usize, p: &[char]) -> (r: usize)
    requires
        lo <= hi <= s@.len(),
    ensures
        lo <= r <= hi,
        strip_prefixes(s@.subrange(lo as int, hi as int), p@) == s@.subrange(r as int, hi as int),
{
    let mut i = lo;
    loop
        invariant
            lo <= i <= hi <= s@.len(),
            strip_prefixes(s@.subrange(lo as int, hi as int), p@) == strip_prefixes(
                s@.subrange(i as int, hi as int),
                p@,
            ),
        decreases hi - i,
    {
        let ghost cur = s@.subrange(i as int, hi as int);
        if p.len() == 0 || p.len() > hi - i {
            return i;
        }
        let m = matches_at(s, p, i);
        assert(has_prefix(cur, p@) == occurs_at(s@, p@, i as int)) by {
            assert(cur.subrange(0, p@.len() as int) =~= s@.subrange(i as int, i + p@.len()));
        }
        if !m {
            return i;
        }
        assert(cur.subrange(p@.len() as int, cur.len() as int) =~= s@.subrange(
            i + p@.len(),
            hi as int,
        ));
        i = i + p.len();
    }
}

/// End of `strip_suffixes(s[lo..hi], p)` within `s`.
pub fn strip_suffixes_from(s: &[char], lo: usize, hi: usize, p: &[char]) -> (r: usize)
    requires
        lo <= hi <= s@.len(),
    ensures
        lo <= r <= hi,
        strip_suffixes(s@.subrange(lo as int, hi as int), p@) == s@.subrange(lo as int, r as int),
{
    let mut j = hi;
    loop
        invariant
            lo <= j <= hi <= s@.len(),
            strip_suffixes(s@.subrange(lo as int, hi as int), p@) == strip_suffixes(
                s@.subrange(lo as int, j as int),
                p@,
            ),
        decreases j,
    {
        let ghost cur = s@.subrange(lo as int, j as int);
        if p.len() == 0 || p.len() > j - lo {
            return j;
        }
        let m = matches_at(s, p, j - p.len());
        assert(has_suffix(cur, p@) == occurs_at(s@, p@, j - p@.len())) by {
            assert(cur.subrange(cur.len() - p@.len(), cur.len() as int) =~= s@.subrange(
                j - p@.len(),
                j as int,
            ));
        }
        if !m {
            return j;
        }
        assert(cur.subrange(0, cur.len() - p@.len()) =~= s@.subrange(lo as int, j - p@.len()));
        j = j - p.len();
    }
}


// ---------------------------------------------------------------------------
// Unsigned integer parsing (`str::parse`, `from_str_radix`)
// ---------------------------------------------------------------------------

/// Value of `c` as a digit in base `radix` (10 or 16), if it is one.
pub open spec fn digit_value(c: char, radix: nat) -> Option<nat> {
    let n = c as u32;
    if 48 <= n <= 57 && n - 48 < radix {
        Some((n - 48) as nat)
    } else if radix == 16 && 97 <= n <= 102 {
        Some((n - 87) as nat)
    } else if radix == 16 && 65 <= n <= 70 {
        Some((n - 55) as nat)
    } else {
        None
    }
}

/// Every character of `s` is a digit in base `radix`.
pub open spec fn all_digits(s: Seq<char>, radix: nat) -> bool {
    forall|i: int| 0 <= i < s.len() ==> (#[trigger] digit_value(s[i], radix)) is Some
}

/// Value of the digit string `s` in base `radix`.
pub open spec fn digits_value(s: Seq<char>, radix: nat) -> nat
    decreases s.len(),
{
    if s.len() == 0 {
        0
    } else {
        digits_value(s.drop_last(), radix) * radix + match digit_value(s.last(), radix) {
            Some(d) => d,
            None => 0,
        }
    }
}

/// The digits of `s` once an optional leading `'+'` is removed.
pub open spec fn unsigned_body(s: Seq<char>) -> Seq<char> {
    if s.len() > 0 && s[0] == '+' {
        s.drop_first()
    } else {
        s
    }
}

/// What `from_str_radix` gives for an unsigned type whose largest value is
/// `max`: the value when `s` is an optional `'+'` followed by at least one
/// digit and the value fits, `None` otherwise.
pub open spec fn parse_unsigned(s: Seq<char>, radix: nat, max: nat) -> Option<nat> {
    let b = unsigned_body(s);
    if b.len() > 0 && all_digits(b, radix) && digits_value(b, radix) <= max {
        Some(digits_value(b, radix))
    } else {
        None
    }
}

/// `str::parse::<u32>`.
pub open spec fn parse_u32_spec(s: Seq<char>) -> Option<nat> {
    parse_unsigned(s, 10, u32::MAX as nat)
}

/// `str::parse::<u64>`.
pub open spec fn parse_u64_spec(s: Seq<char>) -> Option<nat> {
    parse_unsigned(s, 10, u64::MAX as nat)
}

/// `str::parse::<usize>`.
pub open spec fn parse_usize_spec(s: Seq<char>) -> Option<nat> {
    parse_unsigned(s, 10, usize::MAX as nat)
}

/// `u32::from_str_radix(_, 16)`.
pub open spec fn parse_hex_u32_spec(s: Seq<char>) -> Option<nat> {
    parse_unsigned(s, 16, u32::MAX as nat)
}

/// A digit string is worth at least any of its prefixes.
pub proof fn lemma_digits_value_prefix(s: Seq<char>, radix: nat, k: int)
    requires
        0 <= k <= s.len(),
        radix >= 1,
    ensures
        digits_value(s.subrange(0, k), radix) <= digits_value(s, radix),
    decreases s.len(),
{
    if k == s.len() {
        assert(s.subrange(0, k) =~= s);
    } else {
        lemma_digits_value_prefix(s.drop_last(), radix, k);
        assert(s.drop_last().subrange(0, k) =~= s.subrange(0, k));
        let v = digits_value(s.drop_last(), radix);
        assert(v * radix >= v) by (nonlinear_arith)
            requires
                radix >= 1,
        ;
    }
}

fn digit_of(c: char, radix: u64) -> (r: Option<u64>)
    requires
        radix == 10 || radix == 16,
    ensures
        match digit_value(c, radix as nat) {
            Some(d) => r == Some(d as u64),
            None => r is None,
        },
{
    let n = c as u32;
    if 48 <= n && n <= 57 {
        Some((n - 48) as u64)
    } else if radix == 16 && 97 <= n && n <= 102 {
        Some((n - 87) as u64)
    } else if radix == 16 && 65 <= n && n <= 70 {
        Some((n - 55) as u64)
    } else {
        None
    }
}

/// Parses `s[lo..hi]` as an unsigned number in base `radix` whose largest
/// allowed value is `max`.
pub fn parse_unsigned_range(s: &[char], lo: usize, hi: usize, radix: u64, max: u64) -> (r: Option<
    u64,
>)
    requires
        lo <= hi <= s@.len(),
        radix == 10 || radix == 16,
    ensures
        match parse_unsigned(s@.subrange(lo as int, hi as int), radix as nat, max as nat) {
            Some(v) => r == Some(v as u64),
            None => r is None,
        },
{
    let ghost whole = s@.subrange(lo as int, hi as int);
    let mut start = lo;
    if lo < hi && s[lo] == '+' {
        start = lo + 1;
    }
    let ghost body = s@.subrange(start as int, hi as int);
    assert(unsigned_body(whole) =~= body);
    if start == hi {
        return None;
    }
    let mut acc: u64 = 0;
    let mut i = start;
    while i < hi
        invariant
            lo <= start <= i <= hi <= s@.len(),
            body == s@.subrange(start as int, hi as int),
            unsigned_body(whole) == body,
            whole == s@.subrange(lo as int, hi as int),
            radix == 10 || radix == 16,
            all_digits(s@.subrange(start as int, i as int), radix as nat),
            acc as nat == digits_value(s@.subrange(start as int, i as int), radix as nat),
            acc <= max,
        decreases hi - i,
    {
        let ghost pre = s@.subrange(start as int, i as int);
        let ghost ext = s@.subrange(start as int, i + 1);
        assert(ext.drop_last() =~= pre);
        assert(ext.last() == s@[i as int]);
        match digit_of(s[i], radix) {
            None => {
                assert(body[i - start] == s@[i as int]);
                assert(digit_value(body[i - start], radix as nat) is None);
                assert(!all_digits(body, radix as nat));
                assert(parse_unsigned(whole, radix as nat, max as nat) is None);
                return None;
            },
            Some(d) => {
                let next: u128 = if radix == 10 {
                    acc as u128 * 10 + d as u128
                } else {
                    acc as u128 * 16 + d as u128
                };
                assert(next == digits_value(ext, radix as nat));
                if next > max as u128 {
                    proof {
                        if all_digits(body, radix as nat) {
                            lemma_digits_value_prefix(body, radix as nat, i + 1 - start);
                            assert(body.subrange(0, i + 1 - start) =~= ext);
                            assert(digits_value(body, radix as nat) > max);
                        }
                        assert(parse_unsigned(whole, radix as nat, max as nat) is None);
                    }
                    return None;
                }
                assert forall|m: int| 0 <= m < ext.len() implies (#[trigger] digit_value(
                    ext[m],
                    radix as nat,
                )) is Some by {
                    if m < pre.len() {
                        assert(ext[m] == pre[m]);
                    }
                }
                acc = next as u64;
            },
        }
        i = i + 1;
    }
    assert(s@.subrange(start as int, i as int) =~= body);
    Some(acc)
}

/// `str::parse::<u32>` on `s`.
pub fn parse_u32(s: &[char]) -> (r: Option<u32>)
    ensures
        match parse_u32_spec(s@) {
            Some(v) => r == Some(v as u32),
            None => r is None,
        },
{
    assert(s@.subrange(0, s@.len() as int) =~= s@);
    match parse_unsigned_range(s, 0, s.len(), 10, u32::MAX as u64) {
        Some(v) => Some(v as u32),
        None => None,
    }
}

/// `str::parse::<u64>` on `s`.
pub fn parse_u64(s: &[char]) -> (r: Option<u64>)
    ensures
        match parse_u64_spec(s@) {
            Some(v) => r == Some(v as u64),
            None => r is None,
        },
{
    assert(s@.subrange(0, s@.len() as int) =~= s@);
    parse_unsigned_range(s, 0, s.len(), 10, u64::MAX)
}

/// `str::parse::<usize>` on `s`.
pub fn parse_usize(s: &[char]) -> (r: Option<usize>)
    ensures
        match parse_usize_spec(s@) {
            Some(v) => r == Some(v as usize),
            None => r is None,
        },
{
    assert(s@.subrange(0, s@.len() as int) =~= s@);
    match parse_unsigned_range(s, 0, s.len(), 10, usize::MAX as u64) {
        Some(v) => Some(v as usize),
        None => None,
    }
}

/// `u32::from_str_radix(s, 16)`.
pub fn parse_hex_u32(s: &[char]) -> (r: Option<u32>)
    ensures
        match parse_hex_u32_spec(s@) {
            Some(v) => r == Some(v as u32),
            None => r is None,
        },
{
    assert(s@.subrange(0, s@.len() as int) =~= s@);
    match parse_unsigned_range(s, 0, s.len(), 16, u32::MAX as u64) {
        Some(v) => Some(v as u32),
        None => None,
    }
}


// ---------------------------------------------------------------------------
// Printing unsigned numbers (`{}` and `{:0Nx}`)
// ---------------------------------------------------------------------------

/// The character of digit `d` (`0`-`9`, then lowercase `a`-`f`).
pub open spec fn digit_char(d: nat) -> char {
    if d < 10 {
        (48 + d) as char
    } else {
        (87 + d) as char
    }
}

/// Decimal representation of `n` without leading zeros (`{}`).
pub open spec fn decimal(n: nat) -> Seq<char>
    decreases n,
{
    if n < 10 {
        seq![digit_char(n)]
    } else {
        decimal(n / 10).push(digit_char(n % 10))
    }
}

/// Lowercase hexadecimal representation of `n` without leading zeros (`{:x}`).
pub open spec fn hexadecimal(n: nat) -> Seq<char>
    decreases n,
{
    if n < 16 {
        seq![digit_char(n)]
    } else {
        hexadecimal(n / 16).push(digit_char(n % 16))
    }
}

/// `s` preceded by enough `'0'`s to be at least `width` long.
pub open spec fn zero_pad(s: Seq<char>, width: nat) -> Seq<char> {
    if s.len() >= width {
        s
    } else {
        Seq::new((width - s.len()) as nat, |i: int| '0') + s
    }
}

fn digit_to_char(d: u64) -> (r: char)
    requires
        d < 16,
    ensures
        r == digit_char(d as nat),
{
    if d < 10 {
        ((48 + d) as u8) as char
    } else {
        ((87 + d) as u8) as char
    }
}

/// Appends the decimal digits of `n` to `out`.
pub fn push_decimal(n: u64, out: &mut Vec<char>)
    ensures
        final(out)@ == old(out)@ + decimal(n as nat),
    decreases n,
{
    if n >= 10 {
        push_decimal(n / 10, out);
    }
    let ghost before = out@;
    out.push(digit_to_char(n % 10));
    proof {
        if n >= 10 {
            assert(out@ =~= old(out)@ + decimal(n as nat));
        } else {
            assert(out@ =~= old(out)@ + decimal(n as nat));
        }
    }
}

/// Appends the lowercase hexadecimal digits of `n` to `out`.
pub fn push_hexadecimal(n: u64, out: &mut Vec<char>)
    ensures
        final(out)@ == old(out)@ + hexadecimal(n as nat),
    decreases n,
{
    if n >= 16 {
        push_hexadecimal(n / 16, out);
    }
    out.push(digit_to_char(n % 16));
    assert(out@ =~= old(out)@ + hexadecimal(n as nat));
}

/// `format!("{}", n)` as characters.
pub fn decimal_chars(n: u64) -> (r: Vec<char>)
    ensures
        r@ == decimal(n as nat),
{
    let mut r: Vec<char> = Vec::new();
    push_decimal(n, &mut r);
    assert(r@ =~= decimal(n as nat));
    r
}

/// `format!("{:0width$x}", n)` as characters.
pub fn hex_chars_padded(n: u64, width: usize) -> (r: Vec<char>)
    ensures
        r@ == zero_pad(hexadecimal(n as nat), width as nat),
{
    let mut digits: Vec<char> = Vec::new();
    push_hexadecimal(n, &mut digits);
    assert(digits@ =~= hexadecimal(n as nat));
    if digits.len() >= width {
        return digits;
    }
    let mut r: Vec<char> = Vec::new();
    let pad = width - digits.len();
    let mut k: usize = 0;
    while k < pad
        invariant
            k <= pad,
            r@ == Seq::new(k as nat, |i: int| '0'),
        decreases pad - k,
    {
        r.push('0');
        k = k + 1;
        assert(r@ =~= Seq::new(k as nat, |i: int| '0'));
    }
    let mut j: usize = 0;
    while j < digits.len()
        invariant
            j <= digits@.len(),
            r@ == Seq::new(pad as nat, |i: int| '0') + digits@.subrange(0, j as int),
        decreases digits@.len() - j,
    {
        r.push(digits[j]);
        j = j + 1;
        assert(r@ =~= Seq::new(pad as nat, |i: int| '0') + digits@.subrange(0, j as int));
    }
    assert(digits@.subrange(0, digits@.len() as int) =~= digits@);
    r
}


// ---------------------------------------------------------------------------
// Lines, fields and words
// ---------------------------------------------------------------------------

/// Index of the first `c` in `s`, or `-1`.
pub open spec fn index_of(s: Seq<char>, c: char) -> int
    decreases s.len(),
{
    if s.len() == 0 {
        -1
    } else if s[0] == c {
        0
    } else {
        let r = index_of(s.drop_first(), c);
        if r < 0 {
            -1
        } else {
            r + 1
        }
    }
}

/// `index_of` is either `-1` (no `c`) or the position of the first `c`.
pub proof fn lemma_index_of(s: Seq<char>, c: char)
    ensures
        -1 <= index_of(s, c) < s.len(),
        index_of(s, c) >= 0 ==> s[index_of(s, c)] == c,
        forall|k: int| 0 <= k < s.len() && (index_of(s, c) < 0 || k < index_of(s, c)) ==> s[k]
            != c,
    decreases s.len(),
{
    if s.len() > 0 {
        lemma_index_of(s.drop_first(), c);
        assert forall|k: int|
            0 <= k < s.len() && (index_of(s, c) < 0 || k < index_of(s, c)) implies s[k] != c by {
            if k > 0 {
                assert(s[k] == s.drop_first()[k - 1]);
            }
        }
    }
}

/// `l` without one trailing `'\r'`.
pub open spec fn strip_cr(l: Seq<char>) -> Seq<char> {
    if l.len() > 0 && l.last() == '\r' {
        l.drop_last()
    } else {
        l
    }
}

/// The lines of `s` as `str::lines` yields them: split after each `'\n'`,
/// the `'\n'` and a `'\r'` just before it removed, no empty last line after a
/// final `'\n'`.
pub open spec fn lines(s: Seq<char>) -> Seq<Seq<char>>
    decreases s.len(),
{
    if s.len() == 0 {
        seq![]
    } else {
        let i = index_of(s, '\n');
        if i < 0 {
            seq![s]
        } else {
            proof {
                lemma_index_of(s, '\n');
            }
            seq![strip_cr(s.subrange(0, i))] + lines(s.subrange(i + 1, s.len() as int))
        }
    }
}

/// Views of a vector of character vectors.
pub open spec fn views(v: Seq<Vec<char>>) -> Seq<Seq<char>> {
    v.map_values(|x: Vec<char>| x@)
}

/// Position of the first `c` in `s[from..]`, if any.
pub fn index_of_from(s: &[char], from: usize, c: char) -> (r: Option<usize>)
    requires
        from <= s@.len(),
    ensures
        match r {
            Some(i) => from <= i < s@.len() && index_of(s@.subrange(from as int, s@.len() as int), c)
                == i - from,
            None => index_of(s@.subrange(from as int, s@.len() as int), c) < 0,
        },
{
    let ghost whole = s@.subrange(from as int, s@.len() as int);
    let mut i = from;
    while i < s.len()
        invariant
            from <= i <= s@.len(),
            whole == s@.subrange(from as int, s@.len() as int),
            forall|k: int| from <= k < i ==> s@[k] != c,
        decreases s@.len() - i,
    {
        if s[i] == c {
            proof {
                lemma_index_of(whole, c);
                let j = index_of(whole, c);
                if j < 0 || j > i - from {
                    assert(whole[i - from] == s@[i as int]);
                } else if j < i - from {
                    assert(whole[j] == s@[from + j]);
                }
            }
            return Some(i);
        }
        i = i + 1;
    }
    proof {
        lemma_index_of(whole, c);
        let j = index_of(whole, c);
        if j >= 0 {
            assert(whole[j] == s@[from + j]);
        }
    }
    None
}

/// `str::lines`.
pub fn split_lines(s: &[char]) -> (r: Vec<Vec<char>>)
    ensures
        views(r@) == lines(s@),
{
    let mut out: Vec<Vec<char>> = Vec::new();
    let mut p: usize = 0;
    assert(s@.subrange(0, s@.len() as int) =~= s@);
    while p < s.len()
        invariant
            p <= s@.len(),
            views(out@) + lines(s@.subrange(p as int, s@.len() as int)) == lines(s@),
        decreases s@.len() - p,
    {
        let ghost rest = s@.subrange(p as int, s@.len() as int);
        match index_of_from(s, p, '\n') {
            None => {
                let line = slice_to_vec(s, p, s.len());
                let ghost before = views(out@);
                out.push(line);
                assert(lines(rest) == seq![rest]);
                assert(views(out@) =~= before + seq![rest]);
                assert(lines(s@.subrange(s@.len() as int, s@.len() as int)) =~= Seq::<
                    Seq<char>,
                >::empty());
                p = s.len();
            },
            Some(i) => {
                let mut end = i;
                if end > p && s[end - 1] == '\r' {
                    end = end - 1;
                }
                let line = slice_to_vec(s, p, end);
                let ghost before = views(out@);
                out.push(line);
                assert(rest.subrange(0, i - p) =~= s@.subrange(p as int, i as int));
                assert(rest.subrange(i - p + 1, rest.len() as int) =~= s@.subrange(
                    i + 1,
                    s@.len() as int,
                ));
                assert(strip_cr(s@.subrange(p as int, i as int)) =~= s@.subrange(
                    p as int,
                    end as int,
                ));
                assert(views(out@) =~= before + seq![s@.subrange(p as int, end as int)]);
                p = i + 1;
            },
        }
    }
    assert(lines(s@.subrange(p as int, s@.len() as int)) =~= Seq::<Seq<char>>::empty());
    assert(views(out@) + Seq::<Seq<char>>::empty() =~= views(out@));
    out
}


/// The text between the first and the second `c` of `s` (or its end), that
/// is `s.split(c).nth(1)`; `None` when `s` holds no `c`.
pub open spec fn second_field(s: Seq<char>, c: char) -> Option<Seq<char>> {
    let i = index_of(s, c);
    if i < 0 {
        None
    } else {
        let r = s.subrange(i + 1, s.len() as int);
        let j = index_of(r, c);
        if j < 0 {
            Some(r)
        } else {
            Some(r.subrange(0, j))
        }
    }
}

/// `s.split(c).nth(1)`.
pub fn split_second(s: &[char], c: char) -> (r: Option<Vec<char>>)
    ensures
        match second_field(s@, c) {
            Some(f) => r matches Some(v) && v@ == f,
            None => r is None,
        },
{
    assert(s@.subrange(0, s@.len() as int) =~= s@);
    match index_of_from(s, 0, c) {
        None => None,
        Some(i) => {
            proof {
                lemma_index_of(s@, c);
            }
            let ghost r = s@.subrange(i + 1, s@.len() as int);
            assert(i < s.len());
            match index_of_from(s, i + 1, c) {
                None => Some(slice_to_vec(s, i + 1, s.len())),
                Some(j) => {
                    assert(r.subrange(0, j - i - 1) =~= s@.subrange(i + 1, j as int));
                    Some(slice_to_vec(s, i + 1, j))
                },
            }
        },
    }
}

/// Number of leading non-whitespace characters of `s`.
pub open spec fn word_len(s: Seq<char>) -> nat
    decreases s.len(),
{
    if s.len() > 0 && !is_ws(s[0]) {
        1 + word_len(s.drop_first())
    } else {
        0
    }
}

/// `word_len` counts exactly the leading non-whitespace characters.
pub proof fn lemma_word_len(s: Seq<char>)
    ensures
        word_len(s) <= s.len(),
        forall|k: int| 0 <= k < word_len(s) ==> !is_ws(#[trigger] s[k]),
        word_len(s) < s.len() ==> is_ws(s[word_len(s) as int]),
    decreases s.len(),
{
    if s.len() > 0 && !is_ws(s[0]) {
        lemma_word_len(s.drop_first());
        assert forall|k: int| 0 <= k < word_len(s) implies !is_ws(#[trigger] s[k]) by {
            if k > 0 {
                assert(s[k] == s.drop_first()[k - 1]);
            }
        }
        if word_len(s) < s.len() {
            assert(s[word_len(s) as int] == s.drop_first()[word_len(s.drop_first()) as int]);
        }
    }
}

/// The whitespace-separated words of `s` (`str::split_whitespace`).
pub open spec fn words(s: Seq<char>) -> Seq<Seq<char>>
    decreases s.len(),
{
    if s.len() == 0 {
        seq![]
    } else if is_ws(s[0]) {
        words(s.drop_first())
    } else {
        let n = word_len(s);
        proof {
            lemma_word_len(s);
        }
        seq![s.subrange(0, n as int)] + words(s.subrange(n as int, s.len() as int))
    }
}

/// `str::split_whitespace`.
pub fn split_words(s: &[char]) -> (r: Vec<Vec<char>>)
    ensures
        views(r@) == words(s@),
{
    let mut out: Vec<Vec<char>> = Vec::new();
    let mut p: usize = 0;
    assert(s@.subrange(0, s@.len() as int) =~= s@);
    while p < s.len()
        invariant
            p <= s@.len(),
            views(out@) + words(s@.subrange(p as int, s@.len() as int)) == words(s@),
        decreases s@.len() - p,
    {
        let ghost rest = s@.subrange(p as int, s@.len() as int);
        if is_whitespace(s[p]) {
            assert(rest.drop_first() =~= s@.subrange(p + 1, s@.len() as int));
            p = p + 1;
        } else {
            let mut q = p + 1;
            while q < s.len() && !is_whitespace(s[q])
                invariant
                    p < q <= s@.len(),
                    forall|k: int| p <= k < q ==> !is_ws(#[trigger] s@[k]),
                decreases s@.len() - q,
            {
                q = q + 1;
            }
            proof {
                lemma_word_len(rest);
                let n = word_len(rest);
                if n < q - p {
                    assert(rest[n as int] == s@[p + n]);
                } else if n > q - p {
                    assert(rest[q - p] == s@[q as int]);
                }
                assert(n == q - p);
            }
            let w = slice_to_vec(s, p, q);
            let ghost before = views(out@);
            out.push(w);
            assert(rest.subrange(0, q - p) =~= s@.subrange(p as int, q as int));
            assert(rest.subrange(q - p, rest.len() as int) =~= s@.subrange(
                q as int,
                s@.len() as int,
            ));
            assert(views(out@) =~= before + seq![s@.subrange(p as int, q as int)]);
            p = q;
        }
    }
    assert(words(s@.subrange(p as int, s@.len() as int)) =~= Seq::<Seq<char>>::empty());
    assert(views(out@) + Seq::<Seq<char>>::empty() =~= views(out@));
    out
}


// ---------------------------------------------------------------------------
// ASCII case folding
// ---------------------------------------------------------------------------

/// `c` with an ASCII uppercase letter mapped to its lowercase letter.
pub open spec fn ascii_lower(c: char) -> char {
    if 65 <= c as u32 <= 90 {
        ((c as u32) + 32) as char
    } else {
        c
    }
}

/// `s` with every ASCII uppercase letter lowercased.
pub open spec fn lower(s: Seq<char>) -> Seq<char> {
    s.map_values(|c: char| ascii_lower(c))
}

/// `s` with ASCII uppercase letters lowercased.
pub fn lowered(s: &[char]) -> (r: Vec<char>)
    ensures
        r@ == lower(s@),
{
    let mut r: Vec<char> = Vec::new();
    let mut i: usize = 0;
    while i < s.len()
        invariant
            i <= s@.len(),
            r@ == lower(s@.subrange(0, i as int)),
        decreases s@.len() - i,
    {
        let c = s[i];
        let n = c as u32;
        let l = if 65 <= n && n <= 90 {
            ((n + 32) as u8) as char
        } else {
            c
        };
        r.push(l);
        i = i + 1;
        assert(r@ =~= lower(s@.subrange(0, i as int)));
    }
    assert(s@.subrange(0, s@.len() as int) =~= s@);
    r
}

/// `p` occurs in `s` once ASCII letters of `s` are lowercased.
pub open spec fn has_infix_ci(s: Seq<char>, p: Seq<char>) -> bool {
    has_infix(lower(s), p)
}


// ---------------------------------------------------------------------------
// `key: value` report lines
// ---------------------------------------------------------------------------

/// The first of `ls` that contains `key`.
pub open spec fn first_line_with(ls: Seq<Seq<char>>, key: Seq<char>) -> Option<Seq<char>>
    decreases ls.len(),
{
    if ls.len() == 0 {
        None
    } else if has_infix(ls[0], key) {
        Some(ls[0])
    } else {
        first_line_with(ls.drop_first(), key)
    }
}

/// Index of the first of `ls` that contains `key`.
pub fn find_line_with(ls: &[Vec<char>], key: &str) -> (r: Option<usize>)
    ensures
        match first_line_with(views(ls@), key@) {
            Some(l) => r matches Some(i) && i < ls@.len() && ls@[i as int]@ == l,
            None => r is None,
        },
{
    let k = chars_of(key);
    let ghost vs = views(ls@);
    let mut i: usize = 0;
    assert(vs.subrange(0, vs.len() as int) =~= vs);
    while i < ls.len()
        invariant
            i <= ls@.len(),
            vs == views(ls@),
            k@ == key@,
            first_line_with(vs, key@) == first_line_with(vs.subrange(i as int, vs.len() as int), key@),
        decreases ls@.len() - i,
    {
        let ghost rest = vs.subrange(i as int, vs.len() as int);
        assert(rest[0] == ls@[i as int]@);
        if contains(ls[i].as_slice(), k.as_slice()) {
            return Some(i);
        }
        assert(rest.drop_first() =~= vs.subrange(i + 1, vs.len() as int));
        i = i + 1;
    }
    assert(vs.subrange(i as int, vs.len() as int) =~= Seq::<Seq<char>>::empty());
    None
}

/// The value of a `key : value` line: its second `:`-separated field, with
/// surrounding whitespace removed.
pub open spec fn field_value(line: Seq<char>) -> Option<Seq<char>> {
    match second_field(line, ':') {
        Some(f) => Some(trim(f)),
        None => None,
    }
}

/// The value of a `key : value` line (`line.split(':').nth(1)` trimmed).
pub fn field_value_of(line: &[char]) -> (r: Option<Vec<char>>)
    ensures
        match field_value(line@) {
            Some(v) => r matches Some(x) && x@ == v,
            None => r is None,
        },
{
    match split_second(line, ':') {
        Some(f) => Some(trimmed(f.as_slice())),
        None => None,
    }
}

// ---------------------------------------------------------------------------
// C strings
// ---------------------------------------------------------------------------

/// The bytes of `buf` before its first NUL, `None` when it holds no NUL
/// (what `CStr::from_bytes_until_nul` accepts and returns).
pub open spec fn until_nul(buf: Seq<u8>) -> Option<Seq<u8>> {
    if exists|i: int| 0 <= i < buf.len() && buf[i] == 0 {
        let i = choose|i: int| 0 <= i < buf.len() && buf[i] == 0 && forall|j: int| 0 <= j < i ==> buf[j] != 0;
        Some(buf.subrange(0, i))
    } else {
        None
    }
}

/// The bytes of `buf` before its first NUL, `None` when it holds no NUL.
pub fn bytes_until_nul(buf: &[u8]) -> (r: Option<Vec<u8>>)
    ensures
        match until_nul(buf@) {
            Some(b) => r matches Some(v) && v@ == b,
            None => r is None,
        },
{
    let mut i: usize = 0;
    while i < buf.len()
        invariant
            i <= buf@.len(),
            forall|j: int| 0 <= j < i ==> buf@[j] != 0,
        decreases buf@.len() - i,
    {
        if buf[i] == 0 {
            let ghost k = i as int;
            assert(0 <= k < buf@.len() && buf@[k] == 0 && forall|j: int| 0 <= j < k ==> buf@[j] != 0);
            let ghost c = choose|c: int| 0 <= c < buf@.len() && buf@[c] == 0 && forall|j: int| 0 <= j < c ==> buf@[j] != 0;
            assert(c == k) by {
                if c < k {
                    assert(buf@[c] != 0);
                } else if c > k {
                    assert(buf@[k] != 0);
                }
            }
            let mut out: Vec<u8> = Vec::new();
            let mut m: usize = 0;
            while m < i
                invariant
                    m <= i < buf@.len(),
                    out@ == buf@.subrange(0, m as int),
                decreases i - m,
            {
                out.push(buf[m]);
                m = m + 1;
                assert(out@ =~= buf@.subrange(0, m as int));
            }
            return Some(out);
        }
        i = i + 1;
    }
    None
}

/// What `String::from_utf8_lossy` makes of `bytes`.
pub uninterp spec fn utf8_lossy(bytes: Seq<u8>) -> Seq<char>;

/// `String::from_utf8_lossy(bytes).to_string()`: the text that `bytes`
/// encode in UTF-8, invalid sequences replaced by U+FFFD. Only the decoding
/// of ASCII bytes is stated (each byte below 128 is the character of that
/// code); other inputs are left to the name `utf8_lossy`.
#[verifier::external_body]
pub(crate) fn decode_lossy(bytes: &[u8]) -> (r: String)
    ensures
        r@ == utf8_lossy(bytes@),
        (forall|i: int| 0 <= i < bytes@.len() ==> bytes@[i] < 128) ==> r@ == bytes@.map_values(
            |b: u8| b as char,
        ),
{
    String::from_utf8_lossy(bytes).to_string()
}

/// The text of a NUL-terminated buffer as `CStr::from_bytes_until_nul`
/// followed by `to_string_lossy` gives it; `None` when there is no NUL.
pub fn c_buffer_text(buf: &[u8]) -> (r: Option<String>)
    ensures
        match until_nul(buf@) {
            Some(b) => r matches Some(s) && s@ == utf8_lossy(b),
            None => r is None,
        },
{
    match bytes_until_nul(buf) {
        Some(b) => Some(decode_lossy(b.as_slice())),
        None => None,
    }
}

} // verus!
