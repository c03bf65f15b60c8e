use vstd::prelude::*;

verus! {

/// The ASCII lowercase fold of one byte: letters `A`..`Z` map to `a`..`z`,
/// everything else is unchanged.
pub open spec fn lower_byte(b: u8) -> u8 {
    if 65 <= b && b <= 90 {
        (b + 32) as u8
    } else {
        b
    }
}

/// The ASCII lowercase fold of a byte sequence.
pub open spec fn lower(s: Seq<u8>) -> Seq<u8> {
    s.map_values(|b: u8| lower_byte(b))
}

/// Whether a byte is ASCII whitespace: space, tab, line feed, or carriage
/// return.
pub open spec fn is_space(b: u8) -> bool {
    b == 32 || b == 9 || b == 10 || b == 13
}

/// The sequence with its leading ASCII whitespace removed.
pub open spec fn trim_start(s: Seq<u8>) -> Seq<u8>
    decreases s.len(),
{
    if s.len() > 0 && is_space(s[0]) {
        trim_start(s.drop_first())
    } else {
        s
    }
}

/// The sequence with its trailing ASCII whitespace removed.
pub open spec fn trim_end(s: Seq<u8>) -> Seq<u8>
    decreases s.len(),
{
    if s.len() > 0 && is_space(s.last()) {
        trim_end(s.drop_last())
    } else {
        s
    }
}

/// The sequence with ASCII whitespace removed from both ends.
pub open spec fn trimmed(s: Seq<u8>) -> Seq<u8> {
    trim_end(trim_start(s))
}

/// `trim_start` drops exactly the longest whitespace prefix.
proof fn lemma_trim_start_skip(s: Seq<u8>, i: int)
    requires
        0 <= i <= s.len(),
        forall|j: int| 0 <= j < i ==> is_space(#[trigger] s[j]),
        i == s.len() || !is_space(s[i]),
    ensures
        trim_start(s) == s.skip(i),
    decreases i,
{
    if i == 0 {
        assert(s.skip(0) =~= s);
    } else {
        assert(is_space(s[0]));
        lemma_trim_start_skip(s.drop_first(), i - 1);
        assert(s.drop_first().skip(i - 1) =~= s.skip(i));
    }
}

/// `trim_end` keeps exactly the prefix up to the last non-whitespace byte.
proof fn lemma_trim_end_take(s: Seq<u8>, i: int)
    requires
        0 <= i <= s.len(),
        forall|j: int| i <= j < s.len() ==> is_space(#[trigger] s[j]),
        i == 0 || !is_space(s[i - 1]),
    ensures
        trim_end(s) == s.take(i),
    decreases s.len() - i,
{
    if i == s.len() {
        assert(s.take(i) =~= s);
    } else {
        assert(is_space(s.last()));
        lemma_trim_end_take(s.drop_last(), i);
        assert(s.drop_last().take(i) =~= s.take(i));
    }
}

/// UTF-8 encoding is injective: equal byte encodings come from equal
/// character sequences.
pub proof fn lemma_encode_utf8_injective(a: Seq<char>, b: Seq<char>)
    requires
        vstd::utf8::encode_utf8(a) == vstd::utf8::encode_utf8(b),
    ensures
        a == b,
{
    vstd::utf8::encode_utf8_decode_utf8(a);
    vstd::utf8::encode_utf8_decode_utf8(b);
}

/// An equal copy of a byte vector.
pub fn copy_bytes(v: &Vec<u8>) -> (r: Vec<u8>)
    ensures
        r@ == v@,
{
    let r = v.clone();
    proof {
        assert(r@ =~= v@) by {
            assert(forall|j: int| 0 <= j < r@.len() ==> cloned::<u8>(v@[j], #[trigger] r@[j]));
        }
    }
    r
}

/// Whether two byte slices hold the same bytes.
pub fn bytes_eq(a: &[u8], b: &[u8]) -> (r: bool)
    ensures
        r == (a@ == b@),
{
    if a.len() != b.len() {
        assert(a@ != b@);
        return false;
    }
    let n = a.len();
    let mut i: usize = 0;
    while i < n
        invariant
            n == a@.len() == b@.len(),
            i <= n,
            forall|j: int| 0 <= j < i ==> a@[j] == b@[j],
        decreases n - i,
    {
        if a[i] != b[i] {
            return false;
        }
        i += 1;
    }
    assert(a@ =~= b@);
    true
}

/// The ASCII lowercase fold of one byte.
pub fn fold_byte(b: u8) -> (r: u8)
    ensures
        r == lower_byte(b),
{
    if 65 <= b && b <= 90 {
        b + 32
    } else {
        b
    }
}

/// Whether two byte slices are equal up to ASCII case.
pub fn eq_ignore_case(a: &[u8], b: &[u8]) -> (r: bool)
    ensures
        r == (lower(a@) == lower(b@)),
{
    if a.len() != b.len() {
        assert(lower(a@).len() != lower(b@).len());
        return false;
    }
    let n = a.len();
    let mut i: usize = 0;
    while i < n
        invariant
            n == a@.len() == b@.len(),
            i <= n,
            forall|j: int| 0 <= j < i ==> lower_byte(a@[j]) == lower_byte(b@[j]),
        decreases n - i,
    {
        if fold_byte(a[i]) != fold_byte(b[i]) {
            assert(lower(a@)[i as int] != lower(b@)[i as int]);
            return false;
        }
        i += 1;
    }
    assert(lower(a@) =~= lower(b@));
    true
}

/// Whether a byte is ASCII whitespace.
pub fn space_byte(b: u8) -> (r: bool)
    ensures
        r == is_space(b),
{
    b == 32 || b == 9 || b == 10 || b == 13
}

/// The bounds of `s` with ASCII whitespace removed from both ends: the
/// returned pair `(start, end)` satisfies `s@.subrange(start, end) ==
/// trimmed(s@)`.
pub fn trim_bounds(s: &[u8]) -> (r: (usize, usize))
    ensures
        r.0 <= r.1 <= s@.len(),
        s@.subrange(r.0 as int, r.1 as int) == trimmed(s@),
{
    let n = s.len();
    let mut start: usize = 0;
    while start < n && space_byte(s[start])
        invariant
            start <= n,
            n == s@.len(),
            forall|j: int| 0 <= j < start ==> is_space(#[trigger] s@[j]),
        decreases n - start,
    {
        start += 1;
    }
    proof {
        lemma_trim_start_skip(s@, start as int);
    }
    let mut end: usize = n;
    while end > start && space_byte(s[end - 1])
        invariant
            start <= end <= n,
            n == s@.len(),
            forall|j: int| end <= j < n ==> is_space(#[trigger] s@[j]),
        decreases end,
    {
        end -= 1;
    }
    proof {
        let t = s@.skip(start as int);
        assert(forall|j: int| (end - start) <= j < t.len() ==> is_space(#[trigger] t[j]));
        if end > start {
            assert(!is_space(t[end - start - 1]));
        }
        lemma_trim_end_take(t, end - start as int);
        assert(t.take(end - start as int) =~= s@.subrange(start as int, end as int));
    }
    (start, end)
}

/// Whether two byte slices are equal after trimming ASCII whitespace from
/// both ends and folding ASCII case, the sense in which endpoint names are
/// compared for uniqueness.
pub fn names_match(a: &[u8], b: &[u8]) -> (r: bool)
    ensures
        r == (lower(trimmed(a@)) == lower(trimmed(b@))),
{
    let (a0, a1) = trim_bounds(a);
    let (b0, b1) = trim_bounds(b);
    if a1 - a0 != b1 - b0 {
        assert(lower(trimmed(a@)).len() != lower(trimmed(b@)).len());
        return false;
    }
    let n = a1 - a0;
    let mut i: usize = 0;
    while i < n
        invariant
            a0 <= a1 <= a@.len(),
            b0 <= b1 <= b@.len(),
            n == a1 - a0 == b1 - b0,
            i <= n,
            a@.subrange(a0 as int, a1 as int) == trimmed(a@),
            b@.subrange(b0 as int, b1 as int) == trimmed(b@),
            forall|j: int| 0 <= j < i ==> lower_byte(trimmed(a@)[j]) == lower_byte(trimmed(b@)[j]),
        decreases n - i,
    {
        assert(trimmed(a@)[i as int] == a@[a0 + i]);
        assert(trimmed(b@)[i as int] == b@[b0 + i]);
        if fold_byte(a[a0 + i]) != fold_byte(b[b0 + i]) {
            assert(lower(trimmed(a@))[i as int] != lower(trimmed(b@))[i as int]);
            return false;
        }
        i += 1;
    }
    assert(lower(trimmed(a@)) =~= lower(trimmed(b@)));
    true
}

} // verus!
