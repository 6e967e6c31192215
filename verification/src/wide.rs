//! Wide-character marshaling: domain strings to and from the
//! null-terminated UTF-16 buffers the native calling convention expects.
//!
//! The native layer treats the first zero code unit of a buffer as the end
//! of the string, so a domain string carrying an embedded zero unit is
//! rejected rather than silently truncated.  Label queries hand the native
//! layer a bounded buffer it may overwrite; the answer is scanned for its
//! terminator and decoded, with a missing terminator and malformed UTF-16
//! surfaced as distinct failures.

use vstd::prelude::*;
use vstd::slice::slice_subrange;
use vstd::utf8::char_is_scalar;
use vstd::utf8::char_u32_cast;

use crate::errors::Error;

verus! {

/// The UTF-16 code units of one character: the character's scalar value
/// itself inside the basic plane, a surrogate pair above it.
pub open spec fn spec_utf16_char(c: char) -> Seq<u16> {
    let v = c as u32;
    if v < 0x10000 {
        seq![v as u16]
    } else {
        seq![
            (0xD800 + ((v - 0x10000) / 0x400)) as u16,
            (0xDC00 + ((v - 0x10000) % 0x400)) as u16,
        ]
    }
}

/// The UTF-16 code units of a character sequence, in order, without a
/// terminator.
pub open spec fn spec_utf16_units(s: Seq<char>) -> Seq<u16>
    decreases s.len(),
{
    if s.len() == 0 {
        Seq::empty()
    } else {
        spec_utf16_char(s[0]) + spec_utf16_units(s.drop_first())
    }
}

/// Appending one character appends exactly its code units.
proof fn lemma_units_push(s: Seq<char>, c: char)
    ensures
        spec_utf16_units(s.push(c)) == spec_utf16_units(s) + spec_utf16_char(c),
    decreases s.len(),
{
    if s.len() == 0 {
        assert(s.push(c).drop_first() =~= Seq::<char>::empty());
        assert(spec_utf16_units(s) + spec_utf16_char(c) =~= spec_utf16_char(c)
            + spec_utf16_units(Seq::<char>::empty()));
    } else {
        assert(s.push(c).drop_first() =~= s.drop_first().push(c));
        lemma_units_push(s.drop_first(), c);
        assert(spec_utf16_char(s[0]) + (spec_utf16_units(s.drop_first()) + spec_utf16_char(c))
            =~= (spec_utf16_char(s[0]) + spec_utf16_units(s.drop_first())) + spec_utf16_char(c));
    }
}

/// Encode the string's characters as UTF-16 code units, in order, with no
/// terminator appended: a basic-plane character as its own scalar value,
/// a supplementary one as a surrogate pair.
fn encode_utf16_units(s: &str) -> (v: Vec<u16>)
    ensures
        v@ == spec_utf16_units(s@),
{
    let mut v: Vec<u16> = Vec::new();
    for c in it: s.chars()
        invariant
            it.seq() == s@,
            v@ == spec_utf16_units(it.seq().take(it.index() as int)),
    {
        proof {
            char_is_scalar(c);
        }
        let u = c as u32;
        if u < 0x10000 {
            v.push(u as u16);
        } else {
            proof {
                lemma_surrogate_pair_bounds(u);
            }
            v.push((0xD800 + ((u - 0x10000) / 0x400)) as u16);
            v.push((0xDC00 + ((u - 0x10000) % 0x400)) as u16);
        }
        proof {
            let i = it.index() as int;
            assert(it.seq().take(i + 1) =~= it.seq().take(i).push(it.seq()[i]));
            lemma_units_push(it.seq().take(i), it.seq()[i]);
        }
    }
    proof {
        assert(s@.take(s@.len() as int) =~= s@);
    }
    v
}

/// Encode a domain string as a null-terminated wide-character buffer.
///
/// Fails with [`Error::NullCharacter`] exactly when the string's encoding
/// holds an embedded zero code unit, which the native layer would read as
/// a terminator; otherwise the buffer is the encoding followed by the
/// single trailing zero.
pub fn str_to_wchar(s: &str) -> (r: Result<Vec<u16>, Error>)
    ensures
        spec_utf16_units(s@).contains(0u16) ==> (r matches Err(e) && e is NullCharacter),
        !spec_utf16_units(s@).contains(0u16) ==> (r matches Ok(v)
            && v@ == spec_utf16_units(s@).push(0u16)),
{
    let mut v = encode_utf16_units(s);
    let mut i: usize = 0;
    while i < v.len()
        invariant
            i <= v@.len(),
            v@ == spec_utf16_units(s@),
            forall|j: int| 0 <= j < i ==> v@[j] != 0u16,
        decreases v@.len() - i,
    {
        if v[i] == 0 {
            assert(spec_utf16_units(s@).contains(0u16));
            return Err(Error::NullCharacter);
        }
        i = i + 1;
    }
    assert(!spec_utf16_units(s@).contains(0u16)) by {
        if spec_utf16_units(s@).contains(0u16) {
            let j = choose|j: int| 0 <= j < spec_utf16_units(s@).len() && spec_utf16_units(
                s@,
            )[j] == 0u16;
            assert(v@[j] != 0u16);
        }
    }
    v.push(0);
    Ok(v)
}

/// How many units of a label buffer are scanned for the terminator: the
/// native layer may write a label of up to this many units back.
pub const LABEL_LEN: usize = 512;

/// Whether a unit sequence is well-formed UTF-16: every surrogate unit is
/// part of a high-low pair.
pub open spec fn spec_utf16_valid(v: Seq<u16>) -> bool
    decreases v.len(),
{
    if v.len() == 0 {
        true
    } else if v[0] < 0xD800 || v[0] >= 0xE000 {
        spec_utf16_valid(v.drop_first())
    } else if 0xD800 <= v[0] < 0xDC00 && v.len() >= 2 && 0xDC00 <= v[1] < 0xE000 {
        spec_utf16_valid(v.skip(2))
    } else {
        false
    }
}

/// Relies on `String::from_utf16`: decoding fails exactly on malformed
/// UTF-16 (an unpaired surrogate), and a decoded string re-encodes to the
/// unit sequence it was decoded from.
#[verifier::external_body]
fn decode_utf16_units(v: &[u16]) -> (r: Result<String, std::string::FromUtf16Error>)
    ensures
        r matches Ok(s) ==> spec_utf16_units(s@) == v@,
        r is Ok <==> spec_utf16_valid(v@),
{
    String::from_utf16(v)
}

/// The index of the first zero unit, or the sequence's length when it has
/// none.
pub open spec fn spec_nul_index(v: Seq<u16>) -> int
    decreases v.len(),
{
    if v.len() == 0 {
        0
    } else if v[0] == 0u16 {
        0
    } else {
        1 + spec_nul_index(v.drop_first())
    }
}

/// The first-zero index is never negative.
proof fn lemma_nul_index_nonneg(v: Seq<u16>)
    ensures
        spec_nul_index(v) >= 0,
    decreases v.len(),
{
    if v.len() > 0 && v[0] != 0u16 {
        lemma_nul_index_nonneg(v.drop_first());
    }
}

/// A zero unit preceded only by nonzero units is the first one.
proof fn lemma_nul_index_at(v: Seq<u16>, i: int)
    requires
        0 <= i < v.len(),
        forall|j: int| 0 <= j < i ==> v[j] != 0u16,
        v[i] == 0u16,
    ensures
        spec_nul_index(v) == i,
    decreases i,
{
    if i > 0 {
        assert(forall|j: int| 0 <= j < i - 1 ==> v.drop_first()[j] == v[j + 1]);
        lemma_nul_index_at(v.drop_first(), i - 1);
    }
}

/// A prefix of nonzero units pushes the first zero past it.
proof fn lemma_nul_index_past(v: Seq<u16>, k: int)
    requires
        0 <= k <= v.len(),
        forall|j: int| 0 <= j < k ==> v[j] != 0u16,
    ensures
        spec_nul_index(v) >= k,
    decreases k,
{
    if k > 0 {
        assert(v[0] != 0u16);
        assert(forall|j: int| 0 <= j < k - 1 ==> v.drop_first()[j] == v[j + 1]);
        lemma_nul_index_past(v.drop_first(), k - 1);
    } else {
        lemma_nul_index_nonneg(v);
    }
}

/// Decode the native layer's answer from a bounded label buffer.
///
/// Scans the first [`LABEL_LEN`] units for the terminating zero and
/// decodes the prefix before it, with no trailing terminator.  Fails with
/// [`Error::NullCharacter`] when no terminator stands within the bound,
/// and with [`Error::Utf16`] when the prefix is malformed UTF-16.
pub fn decode_label(buf: &Vec<u16>) -> (r: Result<String, Error>)
    requires
        buf@.len() >= LABEL_LEN,
    ensures
        spec_nul_index(buf@) >= LABEL_LEN ==> (r matches Err(e) && e is NullCharacter),
        spec_nul_index(buf@) < LABEL_LEN ==> {
            let prefix = buf@.take(spec_nul_index(buf@));
            &&& spec_utf16_valid(prefix) ==> (r matches Ok(s) && spec_utf16_units(s@) == prefix)
            &&& !spec_utf16_valid(prefix) ==> (r matches Err(e) && e is Utf16)
        },
{
    let mut n: usize = 0;
    while n < LABEL_LEN && buf[n] != 0
        invariant
            n <= LABEL_LEN,
            buf@.len() >= LABEL_LEN,
            forall|j: int| 0 <= j < n ==> buf@[j] != 0u16,
        decreases LABEL_LEN - n,
    {
        n = n + 1;
    }
    if n == LABEL_LEN {
        proof {
            lemma_nul_index_past(buf@, LABEL_LEN as int);
        }
        return Err(Error::NullCharacter);
    }
    proof {
        lemma_nul_index_at(buf@, n as int);
    }
    let prefix = slice_subrange(buf.as_slice(), 0, n);
    assert(prefix@ == buf@.take(n as int));
    match decode_utf16_units(prefix) {
        Ok(s) => Ok(s),
        Err(e) => Err(Error::Utf16(e)),
    }
}

/// The label buffer built from a unit sequence: the units, the
/// terminator, then zero padding out to [`LABEL_LEN`] so the native layer
/// may write a longer answer back in place.
pub open spec fn spec_label_buffer(units: Seq<u16>) -> Seq<u16> {
    if units.len() + 1 >= LABEL_LEN {
        units.push(0u16)
    } else {
        units.push(0u16) + Seq::new((LABEL_LEN - units.len() - 1) as nat, |i: int| 0u16)
    }
}

/// Encode a label into the bounded buffer handed to the native label call:
/// terminated, and padded with zeros out to [`LABEL_LEN`] units.
///
/// Fails with [`Error::NullCharacter`] exactly when the label's encoding
/// holds an embedded zero code unit.
pub fn label_to_wchar(label: &str) -> (r: Result<Vec<u16>, Error>)
    ensures
        spec_utf16_units(label@).contains(0u16) ==> (r matches Err(e) && e is NullCharacter),
        !spec_utf16_units(label@).contains(0u16) ==> (r matches Ok(v)
            && v@ == spec_label_buffer(spec_utf16_units(label@))),
{
    let mut v = match str_to_wchar(label) {
        Ok(v) => v,
        Err(e) => { return Err(e) },
    };
    let ghost terminated = v@;
    while v.len() < LABEL_LEN
        invariant
            v@.len() >= terminated.len(),
            v@.take(terminated.len() as int) == terminated,
            forall|j: int| terminated.len() <= j < v@.len() ==> v@[j] == 0u16,
            v@.len() <= LABEL_LEN || v@ == terminated,
        decreases LABEL_LEN - v@.len(),
    {
        v.push(0);
        assert(v@.take(terminated.len() as int) == terminated);
    }
    assert(v@ == spec_label_buffer(spec_utf16_units(label@)));
    Ok(v)
}

/// The encoding of one character holds a zero unit exactly when the
/// character is NUL: a surrogate pair's units sit far above zero, and a
/// basic-plane character encodes as its own nonzero scalar value.
proof fn lemma_char_units_nul(c: char)
    ensures
        spec_utf16_char(c).contains(0u16) <==> c == '\0',
{
    char_is_scalar(c);
    let v = c as u32;
    if v < 0x10000 {
        assert(spec_utf16_char(c) == seq![v as u16]);
        if spec_utf16_char(c).contains(0u16) {
            assert(v as u16 == 0u16);
            char_u32_cast(c, v);
            assert(('\0' as u32) == 0);
            char_u32_cast('\0', 0);
        }
        if c == '\0' {
            assert(('\0' as u32) == 0);
            assert(spec_utf16_char(c)[0] == 0u16);
        }
    } else {
        assert((v - 0x10000) / 0x400 < 0x400) by (nonlinear_arith)
            requires
                0x10000 <= v <= 0x10FFFF,
        ;
        assert((v - 0x10000) / 0x400 >= 0) by (nonlinear_arith)
            requires
                v >= 0x10000,
        ;
        assert((v - 0x10000) % 0x400 >= 0) by (nonlinear_arith)
            requires
                v >= 0x10000,
        ;
        assert(spec_utf16_char(c)[0] != 0u16);
        assert(spec_utf16_char(c)[1] != 0u16);
        assert(!spec_utf16_char(c).contains(0u16)) by {
            if spec_utf16_char(c).contains(0u16) {
                let j = choose|j: int|
                    0 <= j < spec_utf16_char(c).len() && spec_utf16_char(c)[j] == 0u16;
            }
        }
    }
}

/// Law: a domain string's wide encoding holds an embedded zero code unit
/// exactly when the string itself holds a NUL character, so
/// [`str_to_wchar`] fails on precisely the strings with an embedded NUL.
pub proof fn lemma_nul_unit_iff_nul_char(s: Seq<char>)
    ensures
        spec_utf16_units(s).contains(0u16) <==> s.contains('\0'),
    decreases s.len(),
{
    if s.len() == 0 {
    } else {
        let head = spec_utf16_char(s[0]);
        let tail = spec_utf16_units(s.drop_first());
        lemma_char_units_nul(s[0]);
        lemma_nul_unit_iff_nul_char(s.drop_first());
        assert(spec_utf16_units(s) == head + tail);
        if spec_utf16_units(s).contains(0u16) {
            let j = choose|j: int|
                0 <= j < spec_utf16_units(s).len() && spec_utf16_units(s)[j] == 0u16;
            if j < head.len() {
                assert(head[j] == 0u16);
                assert(head.contains(0u16));
                assert(s.contains('\0'));
            } else {
                assert(tail[j - head.len()] == 0u16);
                assert(tail.contains(0u16));
                let k = choose|k: int|
                    0 <= k < s.drop_first().len() && s.drop_first()[k] == '\0';
                assert(s[k + 1] == '\0');
                assert(s.contains('\0'));
            }
        }
        if s.contains('\0') {
            let k = choose|k: int| 0 <= k < s.len() && s[k] == '\0';
            if k == 0 {
                let j = choose|j: int| 0 <= j < head.len() && head[j] == 0u16;
                assert((head + tail)[j] == 0u16);
                assert(spec_utf16_units(s).contains(0u16));
            } else {
                assert(s.drop_first()[k - 1] == '\0');
                assert(s.drop_first().contains('\0'));
                let j = choose|j: int| 0 <= j < tail.len() && tail[j] == 0u16;
                assert((head + tail)[head.len() + j] == 0u16);
                assert(spec_utf16_units(s).contains(0u16));
            }
        }
    }
}

/// Law: the wide encoding of any character sequence is well-formed
/// UTF-16, so a buffer the library itself built always decodes.
pub proof fn lemma_encoding_valid(s: Seq<char>)
    ensures
        spec_utf16_valid(spec_utf16_units(s)),
    decreases s.len(),
{
    if s.len() > 0 {
        char_is_scalar(s[0]);
        lemma_encoding_valid(s.drop_first());
        let head = spec_utf16_char(s[0]);
        let tail = spec_utf16_units(s.drop_first());
        let v = head + tail;
        let c = s[0] as u32;
        if c < 0x10000 {
            assert(v[0] == c as u16);
            assert(v[0] < 0xD800 || v[0] >= 0xE000);
            assert(v.drop_first() =~= tail);
        } else {
            assert((c - 0x10000) / 0x400 < 0x400) by (nonlinear_arith)
                requires
                    0x10000 <= c <= 0x10FFFF,
            ;
            assert((c - 0x10000) / 0x400 >= 0) by (nonlinear_arith)
                requires
                    c >= 0x10000,
            ;
            assert(0 <= (c - 0x10000) % 0x400 < 0x400) by (nonlinear_arith)
                requires
                    c >= 0x10000,
            ;
            assert(0xD800 <= v[0] < 0xDC00);
            assert(0xDC00 <= v[1] < 0xE000);
            assert(v.skip(2) =~= tail);
        }
    }
}

/// Law: the wide encoding is injective — two character sequences with the
/// same unit sequence are the same, so a decoded buffer identifies the
/// label that was written.
pub proof fn lemma_encoding_injective(s1: Seq<char>, s2: Seq<char>)
    requires
        spec_utf16_units(s1) == spec_utf16_units(s2),
    ensures
        s1 == s2,
    decreases s1.len(),
{
    if s1.len() == 0 || s2.len() == 0 {
        if s1.len() != 0 || s2.len() != 0 {
            let s = if s1.len() != 0 {
                s1
            } else {
                s2
            };
            assert(spec_utf16_units(s).len() >= spec_utf16_char(s[0]).len());
            assert(spec_utf16_char(s[0]).len() >= 1);
            assert(false);
        }
        assert(s1 =~= s2);
    } else {
        char_is_scalar(s1[0]);
        char_is_scalar(s2[0]);
        let c1 = s1[0] as u32;
        let c2 = s2[0] as u32;
        let head1 = spec_utf16_char(s1[0]);
        let head2 = spec_utf16_char(s2[0]);
        let tail1 = spec_utf16_units(s1.drop_first());
        let tail2 = spec_utf16_units(s2.drop_first());
        assert((head1 + tail1)[0] == (head2 + tail2)[0]);
        if c1 < 0x10000 && c2 < 0x10000 {
            assert(head1[0] == c1 as u16 && head2[0] == c2 as u16);
            assert(c1 as u16 == c2 as u16);
            assert(c1 == c2);
            char_u32_cast(s1[0], c1);
            char_u32_cast(s2[0], c2);
            assert(s1[0] == s2[0]);
            assert(tail1 =~= tail2) by {
                assert(forall|j: int|
                    0 <= j < tail1.len() ==> tail1[j] == (head1 + tail1)[j + 1]);
                assert(forall|j: int|
                    0 <= j < tail2.len() ==> tail2[j] == (head2 + tail2)[j + 1]);
            }
        } else if c1 >= 0x10000 && c2 >= 0x10000 {
            lemma_surrogate_pair_bounds(c1);
            lemma_surrogate_pair_bounds(c2);
            assert((head1 + tail1)[1] == (head2 + tail2)[1]);
            assert(head1[0] == head2[0] && head1[1] == head2[1]);
            assert((c1 - 0x10000) / 0x400 == (c2 - 0x10000) / 0x400);
            assert((c1 - 0x10000) % 0x400 == (c2 - 0x10000) % 0x400);
            vstd::arithmetic::div_mod::lemma_fundamental_div_mod(c1 - 0x10000, 0x400);
            vstd::arithmetic::div_mod::lemma_fundamental_div_mod(c2 - 0x10000, 0x400);
            assert(c1 == c2);
            char_u32_cast(s1[0], c1);
            char_u32_cast(s2[0], c2);
            assert(s1[0] == s2[0]);
            assert(tail1 =~= tail2) by {
                assert(forall|j: int|
                    0 <= j < tail1.len() ==> tail1[j] == (head1 + tail1)[j + 2]);
                assert(forall|j: int|
                    0 <= j < tail2.len() ==> tail2[j] == (head2 + tail2)[j + 2]);
            }
        } else {
            let lo = if c1 < 0x10000 {
                c1
            } else {
                c2
            };
            let hi = if c1 < 0x10000 {
                c2
            } else {
                c1
            };
            lemma_surrogate_pair_bounds(hi);
            assert(lo as u16 == lo);
            assert(lo < 0xD800 || lo >= 0xE000);
            assert(false);
        }
        lemma_encoding_injective(s1.drop_first(), s2.drop_first());
        assert(s1 =~= s2) by {
            assert(forall|j: int|
                1 <= j < s1.len() ==> s1[j] == s1.drop_first()[j - 1] && s2[j]
                    == s2.drop_first()[j - 1]);
        }
    }
}

/// The two units of a supplementary character's surrogate pair lie in the
/// high and low surrogate ranges.
proof fn lemma_surrogate_pair_bounds(c: u32)
    requires
        0x10000 <= c <= 0x10FFFF,
    ensures
        0xD800 <= 0xD800 + ((c - 0x10000) / 0x400) < 0xDC00,
        0xDC00 <= 0xDC00 + ((c - 0x10000) % 0x400) < 0xE000,
{
    assert((c - 0x10000) / 0x400 < 0x400) by (nonlinear_arith)
        requires
            0x10000 <= c <= 0x10FFFF,
    ;
    assert((c - 0x10000) / 0x400 >= 0) by (nonlinear_arith)
        requires
            c >= 0x10000,
    ;
    assert(0 <= (c - 0x10000) % 0x400 < 0x400) by (nonlinear_arith)
        requires
            c >= 0x10000,
    ;
}

/// Law: a label without an embedded zero unit, written terminated into the
/// bounded buffer, is read back exactly — the terminator scan stops at the
/// written terminator, the prefix before it decodes, and only the written
/// label decodes to it.  This holds whatever the native layer leaves after
/// the terminator.
pub proof fn lemma_label_round_trip(t: Seq<char>, buf: Seq<u16>)
    requires
        !spec_utf16_units(t).contains(0u16),
        spec_utf16_units(t).len() < LABEL_LEN,
        buf.len() >= LABEL_LEN,
        buf.take(spec_utf16_units(t).len() as int) == spec_utf16_units(t),
        buf[spec_utf16_units(t).len() as int] == 0u16,
    ensures
        spec_nul_index(buf) == spec_utf16_units(t).len(),
        spec_utf16_valid(buf.take(spec_nul_index(buf))),
        forall|s: Seq<char>| spec_utf16_units(s) == buf.take(spec_nul_index(buf)) ==> s == t,
{
    let units = spec_utf16_units(t);
    assert forall|j: int| 0 <= j < units.len() implies buf[j] != 0u16 by {
        assert(buf[j] == buf.take(units.len() as int)[j]);
        if buf[j] == 0u16 {
            assert(units[j] == 0u16);
            assert(units.contains(0u16));
        }
    }
    lemma_nul_index_at(buf, units.len() as int);
    lemma_encoding_valid(t);
    assert(buf.take(spec_nul_index(buf)) == units);
    assert forall|s: Seq<char>|
        spec_utf16_units(s) == buf.take(spec_nul_index(buf)) implies s == t by {
        lemma_encoding_injective(s, t);
    }
}

/// Law: when a domain string has no embedded zero code unit, the buffer
/// [`str_to_wchar`] builds ends in the terminator and holds no other zero
/// unit.
pub proof fn lemma_terminator_unique(s: Seq<char>)
    requires
        !spec_utf16_units(s).contains(0u16),
    ensures
        ({
            let v = spec_utf16_units(s).push(0u16);
            &&& v.len() == spec_utf16_units(s).len() + 1
            &&& v[v.len() - 1] == 0u16
            &&& forall|i: int| 0 <= i < v.len() - 1 ==> v[i] != 0u16
        }),
{
    let units = spec_utf16_units(s);
    let v = units.push(0u16);
    assert forall|i: int| 0 <= i < v.len() - 1 implies v[i] != 0u16 by {
        assert(v[i] == units[i]);
        if units[i] == 0u16 {
            assert(units.contains(0u16));
        }
    }
}

} // verus!
