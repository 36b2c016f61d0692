//! Character-level text helpers shared by the overlays, the endpoint checks and the frame
//! template: decimal rendering, comparison and first-occurrence search.
use vstd::prelude::*;

verus! {

/// The characters of `s`, in order.
///
/// Trusted: `str::chars` collected into a `Vec`; std documents that `chars` yields the
/// string's Unicode scalar values in order, which is what `s@` is.
#[verifier::external_body]
pub(crate) fn chars_of(s: &str) -> (r: Vec<char>)
    ensures
        r@ == s@,
{
    s.chars().collect()
}

/// The string made of `chars`, in order.
///
/// Trusted: `FromIterator<&char> for String`, which std documents as pushing every character
/// in turn.
#[verifier::external_body]
pub(crate) fn string_of(chars: &[char]) -> (r: String)
    ensures
        r@ == chars@,
{
    chars.iter().collect()
}

/// The ASCII character of decimal digit `d`.
pub open spec fn digit_char(d: nat) -> char
    recommends
        d < 10,
{
    (48 + d) as char
}

/// Decimal rendering of `n`, most significant digit first and without leading zeros.
pub open spec fn decimal(n: nat) -> Seq<char>
    decreases n,
{
    if n < 10 {
        seq![digit_char(n)]
    } else {
        decimal(n / 10).push(digit_char(n % 10))
    }
}

fn digit(d: u128) -> (c: char)
    requires
        d < 10,
    ensures
        c == digit_char(d as nat),
{
    let b: u8 = 48u8 + (d as u8);
    b as char
}

fn push_decimal(n: u128, out: &mut Vec<char>)
    ensures
        final(out)@ == old(out)@ + decimal(n as nat),
    decreases n,
{
    if n >= 10 {
        push_decimal(n / 10, out);
    }
    out.push(digit(n % 10));
    assert(final(out)@ =~= old(out)@ + decimal(n as nat));
}

/// Appends the decimal rendering of `n` to `out`.
pub fn append_decimal(out: &mut Vec<char>, n: u128)
    ensures
        final(out)@ == old(out)@ + decimal(n as nat),
{
    push_decimal(n, out);
}

/// The decimal rendering of `n`, as `to_string` gives it for an unsigned integer.
pub fn decimal_text(n: u128) -> (s: String)
    ensures
        s@ == decimal(n as nat),
{
    let mut out: Vec<char> = Vec::new();
    append_decimal(&mut out, n);
    assert(out@ =~= decimal(n as nat));
    string_of(&out)
}

/// Whether two character sequences are equal.
pub fn chars_equal(a: &[char], b: &[char]) -> (r: bool)
    ensures
        r == (a@ == b@),
{
    if a.len() != b.len() {
        return false;
    }
    let mut i: usize = 0;
    while i < a.len()
        invariant
            a@.len() == b@.len(),
            i <= a@.len(),
            forall|j: int| 0 <= j < i ==> a@[j] == b@[j],
        decreases a@.len() - i,
    {
        if a[i] != b[i] {
            return false;
        }
        i = i + 1;
    }
    assert(a@ =~= b@);
    true
}

/// Whether two strings hold the same characters.
pub fn same_text(a: &str, b: &str) -> (r: bool)
    ensures
        r == (a@ == b@),
{
    let a_chars = chars_of(a);
    let b_chars = chars_of(b);
    chars_equal(a_chars.as_slice(), b_chars.as_slice())
}

/// Whether `needle` occurs in `hay` starting at `at`.
pub open spec fn occurs_at(hay: Seq<char>, needle: Seq<char>, at: int) -> bool {
    0 <= at && at + needle.len() <= hay.len() && hay.subrange(at, at + needle.len()) == needle
}

fn matches_at(hay: &[char], needle: &[char], at: usize) -> (r: bool)
    requires
        at + needle@.len() <= hay@.len(),
    ensures
        r == occurs_at(hay@, needle@, at as int),
{
    let mut i: usize = 0;
    while i < needle.len()
        invariant
            at + needle@.len() <= hay@.len(),
            hay@.len() == hay.len(),
            i <= needle@.len(),
            forall|j: int| 0 <= j < i ==> hay@[at + j] == needle@[j],
        decreases needle@.len() - i,
    {
        if hay[at + i] != needle[i] {
            assert(hay@.subrange(at as int, at + needle@.len())[i as int] != needle@[i as int]);
            return false;
        }
        i = i + 1;
    }
    assert(hay@.subrange(at as int, at + needle@.len()) =~= needle@);
    true
}

/// The first position at or after `from` where `needle` occurs in `hay`.
pub fn find_from(hay: &[char], needle: &[char], from: usize) -> (r: Option<usize>)
    ensures
        match r {
            Some(at) => from <= at && occurs_at(hay@, needle@, at as int) && forall|k: int|
                from <= k < at ==> !occurs_at(hay@, needle@, k),
            None => forall|k: int| from <= k ==> !occurs_at(hay@, needle@, k),
        },
{
    if needle.len() > hay.len() {
        return None;
    }
    let last = hay.len() - needle.len();
    if from > last {
        return None;
    }
    let mut at = from;
    loop
        invariant
            last + needle@.len() == hay@.len(),
            from <= at <= last,
            forall|k: int| from <= k < at ==> !occurs_at(hay@, needle@, k),
        decreases last - at,
    {
        if matches_at(hay, needle, at) {
            return Some(at);
        }
        if at == last {
            return None;
        }
        at = at + 1;
    }
}

/// The characters of `a` followed by those of `b`.
pub fn concat(a: &str, b: &str) -> (r: String)
    ensures
        r@ == a@ + b@,
{
    let mut chars = chars_of(a);
    let mut tail = chars_of(b);
    chars.append(&mut tail);
    string_of(chars.as_slice())
}

/// `at` is the first position at or after `from` where `needle` occurs in `hay`.
pub open spec fn first_at(hay: Seq<char>, needle: Seq<char>, from: int, at: int) -> bool {
    from <= at && occurs_at(hay, needle, at) && forall|k: int|
        from <= k < at ==> !occurs_at(hay, needle, k)
}

/// `hay` split around the first occurrence of `needle`: what comes before it and what comes
/// after it, when it occurs.
pub open spec fn split_first(hay: Seq<char>, needle: Seq<char>) -> Option<(Seq<char>, Seq<char>)> {
    if exists|p: int| first_at(hay, needle, 0, p) {
        let p = choose|p: int| first_at(hay, needle, 0, p);
        Some((hay.subrange(0, p), hay.subrange(p + needle.len(), hay.len() as int)))
    } else {
        None
    }
}

/// There is only one first occurrence.
pub proof fn lemma_first_at_unique(hay: Seq<char>, needle: Seq<char>, from: int, a: int, b: int)
    requires
        first_at(hay, needle, from, a),
        first_at(hay, needle, from, b),
    ensures
        a == b,
{
    if a < b {
        assert(!occurs_at(hay, needle, a));
    } else if b < a {
        assert(!occurs_at(hay, needle, b));
    }
}

/// The characters of `v` from `from` up to `to`.
pub fn copy_range(v: &[char], from: usize, to: usize) -> (r: Vec<char>)
    requires
        from <= to <= v@.len(),
    ensures
        r@ == v@.subrange(from as int, to as int),
{
    let mut out: Vec<char> = Vec::new();
    let mut i = from;
    while i < to
        invariant
            from <= i <= to,
            to <= v@.len(),
            out@ == v@.subrange(from as int, i as int),
        decreases to - i,
    {
        out.push(v[i]);
        assert(out@ =~= v@.subrange(from as int, i + 1));
        i = i + 1;
    }
    out
}

/// Splits `hay` around the first occurrence of `needle`, as `str::split_once` does.
pub fn split_once(hay: &[char], needle: &[char]) -> (r: Option<(Vec<char>, Vec<char>)>)
    ensures
        match (r, split_first(hay@, needle@)) {
            (Some((before, after)), Some((b, a))) => before@ == b && after@ == a,
            (None, None) => true,
            _ => false,
        },
{
    match find_from(hay, needle, 0) {
        Some(p) => {
            proof {
                assert(first_at(hay@, needle@, 0, p as int));
                let q = choose|q: int| first_at(hay@, needle@, 0, q);
                lemma_first_at_unique(hay@, needle@, 0, p as int, q);
            }
            let n = hay.len();
            assert(p + needle@.len() <= n);
            let before = copy_range(hay, 0, p);
            let after = copy_range(hay, p + needle.len(), n);
            Some((before, after))
        },
        None => {
            assert(!exists|q: int| first_at(hay@, needle@, 0, q));
            None
        },
    }
}

/// Appends the characters of `s` to `out`.
pub fn push_text(out: &mut Vec<char>, s: &str)
    ensures
        final(out)@ == old(out)@ + s@,
{
    let mut tail = chars_of(s);
    out.append(&mut tail);
}

/// Appends `chars` to `out`.
pub fn push_chars(out: &mut Vec<char>, chars: &[char])
    ensures
        final(out)@ == old(out)@ + chars@,
{
    let mut i: usize = 0;
    let ghost start = out@;
    while i < chars.len()
        invariant
            i <= chars@.len(),
            out@ == start + chars@.subrange(0, i as int),
        decreases chars@.len() - i,
    {
        out.push(chars[i]);
        assert(out@ =~= start + chars@.subrange(0, i + 1));
        i = i + 1;
    }
    assert(chars@.subrange(0, chars@.len() as int) =~= chars@);
}

/// Decimal rendering is canonical: at least one digit, only the digits `0` to `9`, and no
/// leading zero except for zero itself.
pub proof fn law_decimal_is_canonical(n: nat)
    ensures
        decimal(n).len() >= 1,
        forall|i: int| 0 <= i < decimal(n).len() ==> '0' <= #[trigger] decimal(n)[i] <= '9',
        decimal(n)[0] == '0' <==> n == 0,
    decreases n,
{
    if n >= 10 {
        law_decimal_is_canonical(n / 10);
        let d = decimal(n);
        assert(d == decimal(n / 10).push(digit_char(n % 10)));
        assert forall|i: int| 0 <= i < d.len() implies '0' <= #[trigger] d[i] <= '9' by {
            if i < d.len() - 1 {
                assert(d[i] == decimal(n / 10)[i]);
            }
        }
        assert(d[0] == decimal(n / 10)[0]);
    }
}

} // verus!
