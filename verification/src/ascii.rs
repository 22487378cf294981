//! Byte-level ASCII helpers shared by the header policy, the token
//! extractor and the URL composition: case folding, case-insensitive
//! comparison, prefix tests, trimming and concatenation.
use vstd::prelude::*;

verus! {

/// Lower-cases one ASCII byte; every other byte is unchanged.
pub open spec fn spec_lower_byte(b: u8) -> u8 {
    if 65 <= b <= 90 {
        (b + 32) as u8
    } else {
        b
    }
}

/// ASCII lower-casing of a whole byte sequence.
pub open spec fn spec_lower(s: Seq<u8>) -> Seq<u8> {
    s.map_values(|b: u8| spec_lower_byte(b))
}

/// Case-insensitive equality of two byte sequences.
pub open spec fn eq_ci(a: Seq<u8>, b: Seq<u8>) -> bool {
    spec_lower(a) == spec_lower(b)
}

/// The bytes of an ASCII character sequence, one byte per character.
pub open spec fn bytes_of(s: Seq<char>) -> Seq<u8> {
    s.map_values(|c: char| c as u8)
}

/// ASCII whitespace recognised when trimming sub-protocol entries.
pub open spec fn is_ws_byte(b: u8) -> bool {
    b == 32 || b == 9 || b == 13 || b == 10
}

/// Index of the first occurrence of `b` in `s`; `s.len()` when absent.
pub open spec fn idx_of(s: Seq<u8>, b: u8) -> int
    decreases s.len(),
{
    if s.len() == 0 {
        0
    } else if s[0] == b {
        0
    } else {
        1 + idx_of(s.skip(1), b)
    }
}

pub proof fn lemma_idx_of(s: Seq<u8>, b: u8)
    ensures
        0 <= idx_of(s, b) <= s.len(),
        idx_of(s, b) < s.len() ==> s[idx_of(s, b)] == b,
        forall|j: int| 0 <= j < idx_of(s, b) ==> s[j] != b,
    decreases s.len(),
{
    if s.len() > 0 && s[0] != b {
        lemma_idx_of(s.skip(1), b);
        assert forall|j: int| 0 <= j < idx_of(s, b) implies s[j] != b by {
            if j > 0 {
                assert(s.skip(1)[j - 1] == s[j]);
            }
        }
    }
}

/// The sequence with leading ASCII whitespace removed.
pub open spec fn trim_front(s: Seq<u8>) -> Seq<u8>
    decreases s.len(),
{
    if s.len() > 0 && is_ws_byte(s[0]) {
        trim_front(s.skip(1))
    } else {
        s
    }
}

/// The sequence with trailing ASCII whitespace removed.
pub open spec fn trim_back(s: Seq<u8>) -> Seq<u8>
    decreases s.len(),
{
    if s.len() > 0 && is_ws_byte(s.last()) {
        trim_back(s.drop_last())
    } else {
        s
    }
}

/// The sequence with leading and trailing ASCII whitespace removed.
pub open spec fn spec_trim(s: Seq<u8>) -> Seq<u8> {
    trim_back(trim_front(s))
}

/// Executable ASCII lower-casing of one byte.
pub fn lower_byte(b: u8) -> (r: u8)
    ensures
        r == spec_lower_byte(b),
{
    if 65 <= b && b <= 90 {
        b + 32
    } else {
        b
    }
}

/// Exact equality of two byte slices.
pub fn bytes_eq(a: &[u8], b: &[u8]) -> (r: bool)
    ensures
        r == (a@ == b@),
{
    if a.len() != b.len() {
        assert(a@.len() != b@.len());
        return false;
    }
    let n = a.len();
    let mut i: usize = 0;
    while i < n
        invariant
            n == a@.len() == b@.len(),
            0 <= i <= n,
            forall|j: int| 0 <= j < i ==> a@[j] == b@[j],
        decreases n - i,
    {
        if a[i] != b[i] {
            return false;
        }
        i += 1;
    }
    proof {
        assert(a@ =~= b@);
    }
    true
}

/// Case-insensitive equality of two byte slices.
pub fn bytes_eq_ci(a: &[u8], b: &[u8]) -> (r: bool)
    ensures
        r == eq_ci(a@, b@),
{
    if a.len() != b.len() {
        assert(spec_lower(a@).len() != spec_lower(b@).len());
        return false;
    }
    let n = a.len();
    let mut i: usize = 0;
    while i < n
        invariant
            n == a@.len() == b@.len(),
            0 <= i <= n,
            forall|j: int| 0 <= j < i ==> spec_lower_byte(a@[j]) == spec_lower_byte(b@[j]),
        decreases n - i,
    {
        if lower_byte(a[i]) != lower_byte(b[i]) {
            assert(spec_lower(a@)[i as int] != spec_lower(b@)[i as int]);
            return false;
        }
        i += 1;
    }
    proof {
        assert(spec_lower(a@) =~= spec_lower(b@));
    }
    true
}

/// Does `a` start with `prefix`?
pub fn starts_with(a: &[u8], prefix: &[u8]) -> (r: bool)
    ensures
        r == (a@.len() >= prefix@.len() && a@.take(prefix@.len() as int) == prefix@),
{
    if a.len() < prefix.len() {
        return false;
    }
    let n = prefix.len();
    let mut i: usize = 0;
    while i < n
        invariant
            n == prefix@.len() <= a@.len(),
            0 <= i <= n,
            forall|j: int| 0 <= j < i ==> a@[j] == prefix@[j],
        decreases n - i,
    {
        if a[i] != prefix[i] {
            assert(a@.take(n as int)[i as int] != prefix@[i as int]);
            return false;
        }
        i += 1;
    }
    proof {
        assert(a@.take(n as int) =~= prefix@);
    }
    true
}

/// A copy of `a[i..j]` as a fresh vector.
pub fn subvec(a: &[u8], i: usize, j: usize) -> (r: Vec<u8>)
    requires
        0 <= i <= j <= a@.len(),
    ensures
        r@ == a@.subrange(i as int, j as int),
{
    let s = vstd::slice::slice_subrange(a, i, j);
    vstd::slice::slice_to_vec(s)
}

/// A copy of a whole byte vector.
pub fn copy_bytes(a: &[u8]) -> (r: Vec<u8>)
    ensures
        r@ == a@,
{
    let r = vstd::slice::slice_to_vec(a);
    r
}

/// Appends `src` to `dst`.
pub fn append_bytes(dst: &mut Vec<u8>, src: &[u8])
    ensures
        final(dst)@ == old(dst)@ + src@,
{
    let n = src.len();
    let mut i: usize = 0;
    while i < n
        invariant
            n == src@.len(),
            0 <= i <= n,
            dst@ == old(dst)@ + src@.take(i as int),
        decreases n - i,
    {
        dst.push(src[i]);
        proof {
            assert(old(dst)@ + src@.take(i + 1) =~= (old(dst)@ + src@.take(i as int)).push(
                src@[i as int],
            ));
        }
        i += 1;
    }
    proof {
        assert(src@.take(n as int) =~= src@);
    }
}

/// The concatenation of two byte slices as a fresh vector.
pub fn concat_bytes(a: &[u8], b: &[u8]) -> (r: Vec<u8>)
    ensures
        r@ == a@ + b@,
{
    let mut r = copy_bytes(a);
    append_bytes(&mut r, b);
    r
}

/// The bytes of an ASCII string slice.
pub fn str_to_bytes(s: &str) -> (r: Vec<u8>)
    requires
        s.is_ascii(),
    ensures
        r@ == bytes_of(s@),
{
    proof {
        vstd::string::is_ascii_spec_bytes(s);
    }
    let b = s.as_bytes();
    let r = vstd::slice::slice_to_vec(b);
    proof {
        assert(r@ =~= bytes_of(s@));
    }
    r
}

/// Index of the first occurrence of `b` in `a`; `a.len()` when absent.
pub fn find_byte(a: &[u8], b: u8) -> (r: usize)
    ensures
        r == idx_of(a@, b),
{
    proof {
        lemma_idx_of(a@, b);
    }
    let n = a.len();
    let mut i: usize = 0;
    while i < n
        invariant
            n == a@.len(),
            0 <= i <= n,
            forall|j: int| 0 <= j < i ==> a@[j] != b,
            0 <= idx_of(a@, b) <= n,
            idx_of(a@, b) < n ==> a@[idx_of(a@, b)] == b,
            forall|j: int| 0 <= j < idx_of(a@, b) ==> a@[j] != b,
        decreases n - i,
    {
        if a[i] == b {
            proof {
                if idx_of(a@, b) < i {
                    assert(a@[idx_of(a@, b)] != b);
                }
            }
            return i;
        }
        i += 1;
    }
    i
}

pub proof fn lemma_trim_front_skip(s: Seq<u8>, k: int)
    requires
        0 <= k <= s.len(),
        forall|j: int| 0 <= j < k ==> is_ws_byte(s[j]),
        k < s.len() ==> !is_ws_byte(s[k]),
    ensures
        trim_front(s) == s.skip(k),
    decreases k,
{
    if k == 0 {
        if s.len() > 0 && is_ws_byte(s[0]) {
            assert(false);
        }
        assert(s.skip(0) =~= s);
    } else {
        assert(is_ws_byte(s[0]));
        lemma_trim_front_skip(s.skip(1), k - 1);
        assert(s.skip(1).skip(k - 1) =~= s.skip(k));
    }
}

pub proof fn lemma_trim_back_take(s: Seq<u8>, k: int)
    requires
        0 <= k <= s.len(),
        forall|j: int| k <= j < s.len() ==> is_ws_byte(s[j]),
        k > 0 ==> !is_ws_byte(s[k - 1]),
    ensures
        trim_back(s) == s.take(k),
    decreases s.len() - k,
{
    if k == s.len() {
        if s.len() > 0 && is_ws_byte(s.last()) {
            assert(false);
        }
        assert(s.take(k) =~= s);
    } else {
        assert(is_ws_byte(s.last()));
        lemma_trim_back_take(s.drop_last(), k);
        assert(s.drop_last().take(k) =~= s.take(k));
    }
}

/// A copy of `a` with leading and trailing ASCII whitespace removed.
pub fn trim_bytes(a: &[u8]) -> (r: Vec<u8>)
    ensures
        r@ == spec_trim(a@),
{
    let n = a.len();
    let mut start: usize = 0;
    while start < n && is_ws_exec(a[start])
        invariant
            n == a@.len(),
            0 <= start <= n,
            forall|j: int| 0 <= j < start ==> is_ws_byte(a@[j]),
        decreases n - start,
    {
        start += 1;
    }
    proof {
        lemma_trim_front_skip(a@, start as int);
    }
    let mut end: usize = n;
    while end > start && is_ws_exec(a[end - 1])
        invariant
            n == a@.len(),
            start <= end <= n,
            forall|j: int| end <= j < n ==> is_ws_byte(a@[j]),
        decreases end,
    {
        end -= 1;
    }
    proof {
        let f = a@.skip(start as int);
        assert forall|j: int| (end - start) <= j < f.len() implies is_ws_byte(f[j]) by {
            assert(f[j] == a@[j + start]);
        }
        if end > start {
            assert(f[end - start - 1] == a@[end - 1]);
        }
        lemma_trim_back_take(f, end - start);
        assert(f.take(end - start) =~= a@.subrange(start as int, end as int));
    }
    subvec(a, start, end)
}

/// Executable test for ASCII whitespace.
pub fn is_ws_exec(b: u8) -> (r: bool)
    ensures
        r == is_ws_byte(b),
{
    b == 32 || b == 9 || b == 13 || b == 10
}

} // verus!
