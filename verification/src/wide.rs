use vstd::prelude::*;

verus! {

/// The UTF-16 encoding of a sequence of characters. The encoding is a
/// function of the characters alone, so it is given a name here rather
/// than spelled out; `encode_utf16_units` produces it.
pub uninterp spec fn utf16_of(s: Seq<char>) -> Seq<u16>;

/// Relies on str::encode_utf16: the UTF-16 units of a string slice, a
/// function of its characters alone. A zero unit encodes the NUL character
/// and nothing else, so a string without NUL encodes to units without a
/// zero.
#[verifier::external_body]
fn encode_utf16_units(s: &str) -> (r: Vec<u16>)
    ensures
        r@ == utf16_of(s@),
        (forall|i: int| 0 <= i < s@.len() ==> s@[i] != '\0') ==> (forall|j: int|
            0 <= j < r@.len() ==> r@[j] != 0),
{
    s.encode_utf16().collect()
}

/// Implemented for types that can be converted into wide character arrays.
pub trait AsWide {
    /// The wide characters this value stands for.
    spec fn wide_view(&self) -> Seq<u16>;

    /// Get the wide characters.
    ///
    /// Depending on where this is passed,
    /// it is a logic error to have a NUL wide char.
    fn as_wide(&self) -> (r: Vec<u16>)
        ensures
            r@ == self.wide_view(),
    ;
}

impl AsWide for &str {
    open spec fn wide_view(&self) -> Seq<u16> {
        utf16_of((*self)@)
    }

    fn as_wide(&self) -> (r: Vec<u16>) {
        encode_utf16_units(*self)
    }
}

impl AsWide for &String {
    open spec fn wide_view(&self) -> Seq<u16> {
        utf16_of((*self)@)
    }

    fn as_wide(&self) -> (r: Vec<u16>) {
        encode_utf16_units(self.as_str())
    }
}

impl AsWide for &[u16] {
    open spec fn wide_view(&self) -> Seq<u16> {
        (*self)@
    }

    fn as_wide(&self) -> (r: Vec<u16>) {
        copy_units(*self)
    }
}

impl AsWide for &Vec<u16> {
    open spec fn wide_view(&self) -> Seq<u16> {
        (*self)@
    }

    fn as_wide(&self) -> (r: Vec<u16>) {
        copy_units(self.as_slice())
    }
}

/// Copy a slice of wide characters into a fresh vector.
fn copy_units(units: &[u16]) -> (r: Vec<u16>)
    ensures
        r@ == units@,
{
    let mut r: Vec<u16> = Vec::new();
    let mut i: usize = 0;
    while i < units.len()
        invariant
            i <= units@.len(),
            r@ == units@.subrange(0, i as int),
        decreases units@.len() - i,
    {
        r.push(units[i]);
        assert(r@ =~= units@.subrange(0, i + 1 as int));
        i += 1;
    }
    assert(r@ =~= units@);
    r
}

/// The length of a zero-terminated wide string held in `s`: the number of
/// units before the first zero unit, or all of `s` when no unit is zero.
pub open spec fn wide_str_len(s: Seq<u16>) -> nat
    decreases s.len(),
{
    if s.len() == 0 {
        0
    } else if s[0] == 0 {
        0
    } else {
        1 + wide_str_len(s.skip(1))
    }
}

/// Every unit before `wide_str_len` is nonzero, and when the string is
/// shorter than `s` the unit at `wide_str_len` is the terminator.
pub proof fn lemma_wide_str_len_bounds(s: Seq<u16>)
    ensures
        wide_str_len(s) <= s.len(),
        forall|i: int| 0 <= i < wide_str_len(s) ==> s[i] != 0,
        wide_str_len(s) < s.len() ==> s[wide_str_len(s) as int] == 0,
    decreases s.len(),
{
    if s.len() == 0 {
    } else if s[0] == 0 {
    } else {
        lemma_wide_str_len_bounds(s.skip(1));
        assert forall|i: int| 0 <= i < wide_str_len(s) implies s[i] != 0 by {
            if i > 0 {
                assert(s.skip(1)[i - 1] == s[i]);
            }
        }
        if wide_str_len(s) < s.len() {
            assert(s.skip(1)[wide_str_len(s) - 1] == s[wide_str_len(s) as int]);
        }
    }
}

/// A position `k` whose prefix is nonzero and which either ends `s` or
/// holds a zero unit is exactly `wide_str_len(s)`.
pub proof fn lemma_wide_str_len_is(s: Seq<u16>, k: int)
    requires
        0 <= k <= s.len(),
        forall|i: int| 0 <= i < k ==> s[i] != 0,
        k < s.len() ==> s[k] == 0,
    ensures
        wide_str_len(s) == k,
    decreases s.len(),
{
    if s.len() == 0 {
    } else if k == 0 {
    } else {
        assert forall|i: int| 0 <= i < k - 1 implies s.skip(1)[i] != 0 by {
            assert(s.skip(1)[i] == s[i + 1]);
        }
        if k - 1 < s.skip(1).len() {
            assert(s.skip(1)[k - 1] == s[k]);
        }
        lemma_wide_str_len_is(s.skip(1), k - 1);
    }
}

/// Truncating a sequence after its terminator does not change the wide
/// string it holds.
pub proof fn lemma_wide_str_len_subrange(s: Seq<u16>, k: int)
    requires
        wide_str_len(s) < k <= s.len(),
    ensures
        wide_str_len(s.subrange(0, k)) == wide_str_len(s),
{
    lemma_wide_str_len_bounds(s);
    let p = s.subrange(0, k);
    assert forall|i: int| 0 <= i < wide_str_len(s) implies p[i] != 0 by {
        assert(p[i] == s[i]);
    }
    assert(p[wide_str_len(s) as int] == s[wide_str_len(s) as int]);
    lemma_wide_str_len_is(p, wide_str_len(s) as int);
}

/// Appending after a terminator does not change the wide string a
/// sequence holds.
pub proof fn lemma_wide_str_len_append(s: Seq<u16>, t: Seq<u16>)
    requires
        wide_str_len(s) < s.len(),
    ensures
        wide_str_len(s + t) == wide_str_len(s),
{
    lemma_wide_str_len_bounds(s);
    let p = s + t;
    assert forall|i: int| 0 <= i < wide_str_len(s) implies p[i] != 0 by {
        assert(p[i] == s[i]);
    }
    assert(p[wide_str_len(s) as int] == s[wide_str_len(s) as int]);
    lemma_wide_str_len_is(p, wide_str_len(s) as int);
}

/// A zero unit at position `k` bounds the wide string length by `k`.
pub proof fn lemma_wide_str_len_le_zero_pos(s: Seq<u16>, k: int)
    requires
        0 <= k < s.len(),
        s[k] == 0,
    ensures
        wide_str_len(s) <= k,
    decreases s.len(),
{
    if s.len() == 0 || s[0] == 0 || k == 0 {
    } else {
        assert(s.skip(1)[k - 1] == s[k]);
        lemma_wide_str_len_le_zero_pos(s.skip(1), k - 1);
    }
}

/// The number of wide characters before the first zero unit of `units`,
/// or the whole length when no unit is zero.
pub fn wide_strlen(units: &[u16]) -> (r: usize)
    ensures
        r == wide_str_len(units@),
{
    let mut i: usize = 0;
    while i < units.len() && units[i] != 0
        invariant
            i <= units@.len(),
            forall|j: int| 0 <= j < i ==> units@[j] != 0,
        decreases units@.len() - i,
    {
        i += 1;
    }
    proof {
        lemma_wide_str_len_is(units@, i as int);
    }
    i
}

/// The contents of a zero-terminated wide string: the units of `units`
/// before its first zero unit.
pub fn terminated_prefix(units: &[u16]) -> (r: Vec<u16>)
    ensures
        r@ == units@.subrange(0, wide_str_len(units@) as int),
{
    proof {
        lemma_wide_str_len_bounds(units@);
    }
    let n = wide_strlen(units);
    let mut r: Vec<u16> = Vec::new();
    let mut i: usize = 0;
    while i < n
        invariant
            i <= n,
            n == wide_str_len(units@),
            n <= units@.len(),
            r@ == units@.subrange(0, i as int),
        decreases n - i,
    {
        r.push(units[i]);
        assert(r@ =~= units@.subrange(0, i + 1 as int));
        i += 1;
    }
    r
}

/// The result of encoding the wide characters `w` into a buffer that held
/// `buffer`: at most `buffer.len() - 1` units of `w`, then a terminating
/// zero unit, then whatever the buffer held beyond them.
pub open spec fn encode_into(buffer: Seq<u16>, w: Seq<u16>) -> Seq<u16>
    recommends
        buffer.len() >= 1,
{
    let n = if w.len() <= buffer.len() - 1 {
        w.len() as int
    } else {
        buffer.len() - 1
    };
    w.subrange(0, n) + seq![0u16] + buffer.skip(n + 1)
}

/// Encoding writes within the buffer: the buffer's length never changes,
/// so no encoding can overrun it.
pub proof fn lemma_encode_into_len(buffer: Seq<u16>, w: Seq<u16>)
    requires
        buffer.len() >= 1,
    ensures
        encode_into(buffer, w).len() == buffer.len(),
{
}

/// Round trip for strings that fit: encoding wide characters without a
/// zero unit into a strictly larger buffer and then reading the buffer
/// back as a zero-terminated string yields the characters unchanged.
pub proof fn lemma_encode_decode_roundtrip(buffer: Seq<u16>, w: Seq<u16>)
    requires
        buffer.len() >= 1,
        w.len() < buffer.len(),
        forall|i: int| 0 <= i < w.len() ==> w[i] != 0,
    ensures
        encode_into(buffer, w).len() == buffer.len(),
        wide_str_len(encode_into(buffer, w)) == w.len(),
        encode_into(buffer, w).subrange(0, w.len() as int) == w,
        encode_into(buffer, w)[w.len() as int] == 0,
{
    let e = encode_into(buffer, w);
    assert(w.subrange(0, w.len() as int) =~= w);
    assert forall|i: int| 0 <= i < w.len() implies e[i] != 0 by {
        assert(e[i] == w[i]);
    }
    assert(e[w.len() as int] == 0);
    lemma_wide_str_len_is(e, w.len() as int);
    assert(e.subrange(0, w.len() as int) =~= w);
}

/// Truncation for strings that do not fit: encoding keeps exactly the
/// first capacity-minus-one wide characters, the last unit of the buffer
/// is the terminating zero, and the buffer's length is unchanged.
pub proof fn lemma_encode_truncates(buffer: Seq<u16>, w: Seq<u16>)
    requires
        buffer.len() >= 1,
        w.len() >= buffer.len() - 1,
    ensures
        encode_into(buffer, w).len() == buffer.len(),
        encode_into(buffer, w)[buffer.len() - 1] == 0,
        encode_into(buffer, w).subrange(0, buffer.len() - 1) == w.subrange(0, buffer.len() - 1),
{
    let e = encode_into(buffer, w);
    assert(e.subrange(0, buffer.len() - 1) =~= w.subrange(0, buffer.len() - 1));
}

/// What is handed to a native buffer of `size` wide characters in place of
/// `cell`: exactly `size` units, truncated or padded with zeros, with a
/// terminating zero forced into the last unit when no earlier unit is
/// zero.
pub open spec fn fit_to_buffer(cell: Seq<u16>, size: nat) -> Seq<u16>
    recommends
        size >= 1,
{
    let padded = if cell.len() >= size {
        cell.subrange(0, size as int)
    } else {
        cell + Seq::new((size - cell.len()) as nat, |i: int| 0u16)
    };
    if wide_str_len(padded) < size {
        padded
    } else {
        padded.update(size as int - 1, 0u16)
    }
}

/// The wide characters of `value` followed by a single terminating zero
/// unit, as the native functions expect a path argument.
pub fn wide_cstring<A: AsWide>(value: A) -> (r: Vec<u16>)
    ensures
        r@ == value.wide_view().push(0u16),
{
    let mut r = value.as_wide();
    r.push(0);
    r
}

} // verus!
