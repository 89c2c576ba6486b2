//! The byte codec for message payloads.
//!
//! A typed message is stored on the wire as a fixed number of ASCII string
//! fields.  Each field is encoded as a four-byte little-endian length prefix
//! followed by one byte per character; a payload is the concatenation of its
//! fields' encodings, with nothing before, between, or after them.  The
//! encoding of a field list is injective, so a payload determines the fields
//! that produced it.

use vstd::prelude::*;

use vstd::bytes::{
    lemma_auto_spec_u32_to_from_le_bytes, spec_u32_from_le_bytes, spec_u32_to_le_bytes,
    u32_from_le_bytes, u32_to_le_bytes,
};
use vstd::slice::{slice_subrange, slice_to_vec};
use vstd::string::{StrSliceExecFns, StringSliceAdditionalSpecFns};
use vstd::utf8::is_ascii_chars;

use crate::error::Error;

verus! {

broadcast use vstd::string::group_string_axioms;

/// A string can be stored as a field when all of its characters are ASCII and
/// its length fits the four-byte length prefix.
pub open spec fn str_wf(s: Seq<char>) -> bool {
    &&& s.len() <= u32::MAX
    &&& is_ascii_chars(s)
}

/// The payload bytes of an ASCII string: one byte per character.
pub open spec fn ascii_bytes(s: Seq<char>) -> Seq<u8> {
    Seq::new(s.len(), |i: int| s[i] as u8)
}

/// The encoding of one field: a little-endian length prefix, then the bytes
/// of the characters.
pub open spec fn spec_encode_str(s: Seq<char>) -> Seq<u8> {
    spec_u32_to_le_bytes(s.len() as u32) + ascii_bytes(s)
}

/// Every field of the list can be stored.
pub open spec fn fields_wf(fs: Seq<Seq<char>>) -> bool {
    forall|i: int| 0 <= i < fs.len() ==> str_wf(#[trigger] fs[i])
}

/// The encoding of a field list: the fields' encodings, concatenated.
pub open spec fn spec_encode_fields(fs: Seq<Seq<char>>) -> Seq<u8>
    decreases fs.len(),
{
    if fs.len() == 0 {
        Seq::empty()
    } else {
        spec_encode_str(fs[0]) + spec_encode_fields(fs.skip(1))
    }
}

pub proof fn lemma_encode_str_len(s: Seq<char>)
    ensures
        spec_encode_str(s).len() == 4 + s.len(),
{
    lemma_auto_spec_u32_to_from_le_bytes();
}

/// Distinct ASCII strings have distinct payload bytes.
pub proof fn lemma_ascii_bytes_injective(s1: Seq<char>, s2: Seq<char>)
    requires
        str_wf(s1),
        str_wf(s2),
        s1.len() == s2.len(),
        ascii_bytes(s1) == ascii_bytes(s2),
    ensures
        s1 == s2,
{
    assert forall|i: int| 0 <= i < s1.len() implies s1[i] == s2[i] by {
        assert(ascii_bytes(s1)[i] == s1[i] as u8);
        assert(ascii_bytes(s2)[i] == s2[i] as u8);
        assert(ascii_bytes(s1)[i] == ascii_bytes(s2)[i]);
        assert(s1[i] as u8 == s2[i] as u8);
        assert('\0' <= s1[i] <= '\u{7f}');
        assert('\0' <= s2[i] <= '\u{7f}');
        assert((s1[i] as u32) < 128 && (s2[i] as u32) < 128);
        assert(s1[i] as u32 == s2[i] as u32);
        vstd::utf8::char_u32_cast(s1[i], s1[i] as u32);
        vstd::utf8::char_u32_cast(s2[i], s2[i] as u32);
    }
    assert(s1 =~= s2);
}

/// Two field encodings that start at the same position of the same byte
/// sequence encode the same string: the length prefixes are read from the
/// same four bytes, so the lengths agree, and then the payload bytes agree.
pub proof fn lemma_encode_str_prefix_unique(b: Seq<u8>, pos: int, s1: Seq<char>, s2: Seq<char>)
    requires
        str_wf(s1),
        str_wf(s2),
        0 <= pos,
        pos + spec_encode_str(s1).len() <= b.len(),
        pos + spec_encode_str(s2).len() <= b.len(),
        b.subrange(pos, pos + spec_encode_str(s1).len()) == spec_encode_str(s1),
        b.subrange(pos, pos + spec_encode_str(s2).len()) == spec_encode_str(s2),
    ensures
        s1 == s2,
{
    lemma_auto_spec_u32_to_from_le_bytes();
    lemma_encode_str_len(s1);
    lemma_encode_str_len(s2);
    let e1 = spec_encode_str(s1);
    let e2 = spec_encode_str(s2);
    assert(spec_u32_to_le_bytes(s1.len() as u32) =~= b.subrange(pos, pos + 4));
    assert(spec_u32_to_le_bytes(s2.len() as u32) =~= b.subrange(pos, pos + 4));
    assert(s1.len() as u32 == spec_u32_from_le_bytes(b.subrange(pos, pos + 4)));
    assert(s2.len() as u32 == spec_u32_from_le_bytes(b.subrange(pos, pos + 4)));
    assert(s1.len() == s2.len());
    assert(ascii_bytes(s1) =~= ascii_bytes(s2)) by {
        assert forall|i: int| 0 <= i < s1.len() implies ascii_bytes(s1)[i] == ascii_bytes(
            s2,
        )[i] by {
            assert(ascii_bytes(s1)[i] == e1[4 + i] == b[pos + 4 + i]);
            assert(ascii_bytes(s2)[i] == e2[4 + i] == b[pos + 4 + i]);
        }
    }
    lemma_ascii_bytes_injective(s1, s2);
}

/// Encoding distributes over concatenation of field lists.
pub proof fn lemma_encode_fields_concat(a: Seq<Seq<char>>, b: Seq<Seq<char>>)
    ensures
        spec_encode_fields(a + b) == spec_encode_fields(a) + spec_encode_fields(b),
    decreases a.len(),
{
    if a.len() == 0 {
        assert(a + b =~= b);
        assert(spec_encode_fields(a) + spec_encode_fields(b) =~= spec_encode_fields(b));
    } else {
        assert((a + b).len() > 0);
        assert((a + b)[0] == a[0]);
        assert((a + b).skip(1) =~= a.skip(1) + b);
        lemma_encode_fields_concat(a.skip(1), b);
        assert(spec_encode_str(a[0]) + (spec_encode_fields(a.skip(1)) + spec_encode_fields(b))
            =~= (spec_encode_str(a[0]) + spec_encode_fields(a.skip(1))) + spec_encode_fields(b));
    }
}

pub proof fn lemma_encode_fields_take_succ(fs: Seq<Seq<char>>, i: int)
    requires
        0 <= i < fs.len(),
    ensures
        spec_encode_fields(fs.take(i + 1)) == spec_encode_fields(fs.take(i)) + spec_encode_str(
            fs[i],
        ),
{
    assert(fs.take(i + 1) =~= fs.take(i) + seq![fs[i]]);
    lemma_encode_fields_concat(fs.take(i), seq![fs[i]]);
    assert(seq![fs[i]].skip(1) =~= Seq::<Seq<char>>::empty());
    assert(spec_encode_fields(Seq::<Seq<char>>::empty()) =~= Seq::<u8>::empty());
    assert(seq![fs[i]][0] == fs[i]);
    assert(spec_encode_fields(seq![fs[i]]) =~= spec_encode_str(fs[i]));
}

/// Equal-length field lists with the same encoding are the same list.
pub proof fn lemma_encode_fields_injective(fs1: Seq<Seq<char>>, fs2: Seq<Seq<char>>)
    requires
        fields_wf(fs1),
        fields_wf(fs2),
        fs1.len() == fs2.len(),
        spec_encode_fields(fs1) == spec_encode_fields(fs2),
    ensures
        fs1 == fs2,
    decreases fs1.len(),
{
    if fs1.len() > 0 {
        let b = spec_encode_fields(fs1);
        lemma_encode_str_len(fs1[0]);
        lemma_encode_str_len(fs2[0]);
        assert(b.subrange(0, spec_encode_str(fs1[0]).len() as int) =~= spec_encode_str(fs1[0]));
        assert(b.subrange(0, spec_encode_str(fs2[0]).len() as int) =~= spec_encode_str(fs2[0]));
        lemma_encode_str_prefix_unique(b, 0, fs1[0], fs2[0]);
        let k = spec_encode_str(fs1[0]).len() as int;
        assert(spec_encode_fields(fs1.skip(1)) =~= b.subrange(k, b.len() as int));
        assert(spec_encode_fields(fs2.skip(1)) =~= b.subrange(k, b.len() as int));
        assert(fields_wf(fs1.skip(1)));
        assert(fields_wf(fs2.skip(1)));
        lemma_encode_fields_injective(fs1.skip(1), fs2.skip(1));
        assert forall|i: int| 0 <= i < fs1.len() implies fs1[i] == fs2[i] by {
            if i > 0 {
                assert(fs1.skip(1)[i - 1] == fs1[i]);
                assert(fs2.skip(1)[i - 1] == fs2[i]);
            }
        }
        assert(fs1 =~= fs2);
    } else {
        assert(fs1 =~= fs2);
    }
}

/// Whether a string can be stored as a field.
pub fn str_is_wf(s: &str) -> (r: bool)
    ensures
        r == str_wf(s@),
{
    if !s.is_ascii() {
        false
    } else {
        s.unicode_len() <= 0xffff_ffffusize
    }
}

/// Relies on `String::from_utf8`: bytes in the ASCII range decode to the
/// string of exactly the ASCII characters with the same code points.
#[verifier::external_body]
fn string_from_ascii(bytes: Vec<u8>) -> (r: String)
    requires
        forall|i: int| 0 <= i < bytes@.len() ==> bytes@[i] < 128,
    ensures
        r@.len() == bytes@.len(),
        forall|i: int| 0 <= i < r@.len() ==> (#[trigger] r@[i]) as u32 == bytes@[i] as u32,
        is_ascii_chars(r@),
{
    String::from_utf8(bytes).unwrap_or_default()
}

/// Decode one field starting at `pos`.  On success, returns the field and the
/// position just past its encoding.  On failure, no well-formed string has its
/// encoding at `pos`.
pub fn decode_str(bytes: &[u8], pos: usize) -> (r: Result<(String, usize), Error>)
    requires
        pos <= bytes@.len(),
    ensures
        (r matches Ok(sp) ==> {
            &&& str_wf(sp.0@)
            &&& pos + spec_encode_str(sp.0@).len() == sp.1 <= bytes@.len()
            &&& bytes@.subrange(pos as int, sp.1 as int) == spec_encode_str(sp.0@)
        }),
        (r matches Err(e) ==> e is Codec && forall|s: Seq<char>|
            str_wf(s) && pos + spec_encode_str(s).len() <= bytes@.len()
                ==> bytes@.subrange(pos as int, pos + spec_encode_str(s).len())
                != spec_encode_str(s)),
{
    let remaining = bytes.len() - pos;
    if remaining < 4 {
        proof {
            assert forall|s: Seq<char>|
                str_wf(s) && pos + spec_encode_str(s).len() <= bytes@.len() implies bytes@.subrange(
                pos as int,
                pos + spec_encode_str(s).len(),
            ) != spec_encode_str(s) by {
                lemma_encode_str_len(s);
            }
        }
        return Err(Error::Codec { detail: "truncated length prefix".to_owned() });
    }
    let len_slice = slice_subrange(bytes, pos, pos + 4);
    let n32 = u32_from_le_bytes(len_slice);
    let n = n32 as usize;
    proof {
        lemma_auto_spec_u32_to_from_le_bytes();
    }
    if remaining - 4 < n {
        proof {
            assert forall|s: Seq<char>|
                str_wf(s) && pos + spec_encode_str(s).len() <= bytes@.len() implies bytes@.subrange(
                pos as int,
                pos + spec_encode_str(s).len(),
            ) != spec_encode_str(s) by {
                lemma_encode_str_len(s);
                if bytes@.subrange(pos as int, pos + spec_encode_str(s).len()) == spec_encode_str(
                    s,
                ) {
                    assert(spec_u32_to_le_bytes(s.len() as u32) =~= bytes@.subrange(
                        pos as int,
                        pos + 4,
                    ));
                    assert(s.len() as u32 == n32);
                    assert(s.len() == n);
                }
            }
        }
        return Err(Error::Codec { detail: "truncated field".to_owned() });
    }
    let mut buf: Vec<u8> = Vec::new();
    let mut i: usize = 0;
    while i < n
        invariant
            bytes@.len() <= usize::MAX,
            pos + 4 + n <= bytes@.len(),
            i <= n,
            n == n32,
            n32 == spec_u32_from_le_bytes(bytes@.subrange(pos as int, pos + 4)),
            buf@ =~= bytes@.subrange(pos + 4, pos + 4 + i),
            forall|j: int| 0 <= j < buf@.len() ==> buf@[j] < 128,
        decreases n - i,
    {
        let b = bytes[pos + 4 + i];
        if b >= 128 {
            proof {
                lemma_auto_spec_u32_to_from_le_bytes();
                assert forall|s: Seq<char>|
                    str_wf(s) && pos + spec_encode_str(s).len()
                        <= bytes@.len() implies bytes@.subrange(
                    pos as int,
                    pos + spec_encode_str(s).len(),
                ) != spec_encode_str(s) by {
                    lemma_encode_str_len(s);
                    if bytes@.subrange(pos as int, pos + spec_encode_str(s).len())
                        == spec_encode_str(s) {
                        assert(spec_u32_to_le_bytes(s.len() as u32) =~= bytes@.subrange(
                            pos as int,
                            pos + 4,
                        ));
                        assert(s.len() == n);
                        assert(ascii_bytes(s)[i as int] == spec_encode_str(s)[4 + i]);
                        assert(bytes@[pos + 4 + i] == spec_encode_str(s)[4 + i]);
                        assert(s[i as int] as u8 == b);
                        assert('\0' <= s[i as int] <= '\u{7f}');
                        assert((s[i as int] as u32) < 128);
                        assert(false);
                    }
                }
            }
            return Err(Error::Codec { detail: "field byte out of range".to_owned() });
        }
        buf.push(b);
        i += 1;
    }
    let s = string_from_ascii(buf);
    let end = pos + 4 + n;
    proof {
        lemma_auto_spec_u32_to_from_le_bytes();
        assert(s@.len() == n);
        assert(str_wf(s@));
        assert(ascii_bytes(s@) =~= bytes@.subrange(pos + 4, pos + 4 + n)) by {
            assert forall|j: int| 0 <= j < n implies ascii_bytes(s@)[j] == bytes@.subrange(
                pos + 4,
                pos + 4 + n,
            )[j] by {
                assert((s@[j] as u32) == bytes@[pos + 4 + j] as u32);
                assert(s@[j] as u8 == bytes@[pos + 4 + j]);
            }
        }
        assert(spec_u32_to_le_bytes(s@.len() as u32) =~= bytes@.subrange(pos as int, pos + 4));
        assert(bytes@.subrange(pos as int, end as int) =~= spec_encode_str(s@));
    }
    Ok((s, end))
}

/// Append the encoding of one field to `out`.
pub fn encode_str(out: &mut Vec<u8>, s: &str)
    requires
        str_wf(s@),
    ensures
        final(out)@ == old(out)@ + spec_encode_str(s@),
{
    proof {
        vstd::string::is_ascii_spec_bytes(s);
        assert(s.spec_bytes().len() == s@.len());
    }
    let n = s.len();
    assert(n == s@.len());
    let mut len_bytes = u32_to_le_bytes(n as u32);
    out.append(&mut len_bytes);
    let mut payload = slice_to_vec(s.as_bytes());
    assert(payload@ =~= ascii_bytes(s@));
    out.append(&mut payload);
    assert(out@ =~= old(out)@ + spec_encode_str(s@));
}

/// Whether every string of the list can be stored as a field.
pub fn fields_are_wf(fields: &Vec<String>) -> (r: bool)
    ensures
        r == fields_wf(fields.deep_view()),
{
    let mut i: usize = 0;
    while i < fields.len()
        invariant
            i <= fields@.len(),
            forall|j: int| 0 <= j < i ==> str_wf(#[trigger] fields.deep_view()[j]),
        decreases fields@.len() - i,
    {
        if !str_is_wf(fields[i].as_str()) {
            assert(!str_wf(fields.deep_view()[i as int]));
            return false;
        }
        i += 1;
    }
    true
}

/// Encode a field list into a payload.
pub fn encode_fields(fields: &Vec<String>) -> (r: Vec<u8>)
    requires
        fields_wf(fields.deep_view()),
    ensures
        r@ == spec_encode_fields(fields.deep_view()),
{
    let mut out: Vec<u8> = Vec::new();
    let mut i: usize = 0;
    while i < fields.len()
        invariant
            i <= fields@.len(),
            fields_wf(fields.deep_view()),
            out@ == spec_encode_fields(fields.deep_view().take(i as int)),
        decreases fields@.len() - i,
    {
        assert(fields.deep_view()[i as int] == fields@[i as int]@);
        encode_str(&mut out, fields[i].as_str());
        proof {
            lemma_encode_fields_take_succ(fields.deep_view(), i as int);
        }
        i += 1;
    }
    proof {
        assert(fields.deep_view().take(fields.deep_view().len() as int) =~= fields.deep_view());
    }
    out
}

/// Decode a payload into exactly `n` fields.  On success the payload is
/// exactly the encoding of the returned fields; on failure the payload is not
/// the encoding of any well-formed list of `n` fields, and since encoding is
/// injective, any well-formed list of `n` fields whose encoding is the payload
/// is returned on success.
pub fn decode_fields(bytes: &[u8], n: usize) -> (r: Result<Vec<String>, Error>)
    ensures
        (r matches Ok(v) ==> {
            &&& v@.len() == n
            &&& fields_wf(v.deep_view())
            &&& bytes@ == spec_encode_fields(v.deep_view())
        }),
        (forall|fs: Seq<Seq<char>>|
            fields_wf(fs) && fs.len() == n && bytes@ == spec_encode_fields(fs) ==> (r matches Ok(v)
                && v.deep_view() == fs)),
        (r matches Err(e) ==> e is Codec),
{
    let mut acc: Vec<String> = Vec::new();
    let mut pos: usize = 0;
    let mut i: usize = 0;
    while i < n
        invariant
            i <= n,
            pos <= bytes@.len(),
            acc@.len() == i,
            fields_wf(acc.deep_view()),
            bytes@.subrange(0, pos as int) == spec_encode_fields(acc.deep_view()),
            forall|fs: Seq<Seq<char>>|
                fields_wf(fs) && fs.len() == n && bytes@ == spec_encode_fields(fs)
                    ==> #[trigger] fs.take(i as int) == acc.deep_view(),
        decreases n - i,
    {
        let ghost prev = acc.deep_view();
        let ghost opos = pos as int;
        match decode_str(bytes, pos) {
            Ok((s, end)) => {
                proof {
                    assert forall|fs: Seq<Seq<char>>|
                        fields_wf(fs) && fs.len() == n && bytes@ == spec_encode_fields(
                            fs,
                        ) implies #[trigger] fs.take(i + 1) == prev.push(s@) by {
                        lemma_field_at(bytes@, fs, i as int, pos as int, prev);
                        lemma_encode_str_len(fs[i as int]);
                        lemma_encode_str_prefix_unique(bytes@, pos as int, s@, fs[i as int]);
                        assert(fs.take(i + 1) =~= fs.take(i as int).push(fs[i as int]));
                    }
                }
                acc.push(s);
                pos = end;
                proof {
                    assert(acc.deep_view() =~= prev.push(s@));
                    lemma_encode_fields_take_succ(acc.deep_view(), i as int);
                    assert(acc.deep_view().take(i as int) =~= prev);
                    assert(acc.deep_view().take(i + 1) =~= acc.deep_view());
                    assert(bytes@.subrange(0, pos as int) =~= bytes@.subrange(0, opos)
                        + bytes@.subrange(opos, pos as int));
                }
            },
            Err(e) => {
                proof {
                    assert forall|fs: Seq<Seq<char>>|
                        !(fields_wf(fs) && fs.len() == n && bytes@ == spec_encode_fields(
                            fs,
                        )) by {
                        if fields_wf(fs) && fs.len() == n && bytes@ == spec_encode_fields(fs) {
                            lemma_field_at(bytes@, fs, i as int, pos as int, prev);
                            lemma_encode_str_len(fs[i as int]);
                        }
                    }
                }
                return Err(e);
            },
        }
        i += 1;
    }
    if pos != bytes.len() {
        proof {
            assert forall|fs: Seq<Seq<char>>|
                !(fields_wf(fs) && fs.len() == n && bytes@ == spec_encode_fields(fs)) by {
                if fields_wf(fs) && fs.len() == n && bytes@ == spec_encode_fields(fs) {
                    assert(fs.take(i as int) =~= fs);
                    assert(bytes@.subrange(0, pos as int) =~= bytes@);
                }
            }
        }
        return Err(Error::Codec { detail: "trailing bytes after the last field".to_owned() });
    }
    proof {
        assert(bytes@.subrange(0, pos as int) =~= bytes@);
        assert forall|fs: Seq<Seq<char>>|
            fields_wf(fs) && fs.len() == n && bytes@ == spec_encode_fields(
                fs,
            ) implies fs == acc.deep_view() by {
            assert(fs.take(i as int) =~= fs);
        }
    }
    Ok(acc)
}

/// Used while decoding: if the whole payload is the encoding of `fs` and the
/// first `i` fields are already decoded up to `pos`, then the encoding of
/// `fs[i]` lies at `pos`.
proof fn lemma_field_at(b: Seq<u8>, fs: Seq<Seq<char>>, i: int, pos: int, prev: Seq<Seq<char>>)
    requires
        fields_wf(fs),
        0 <= i < fs.len(),
        b == spec_encode_fields(fs),
        fs.take(i) == prev,
        0 <= pos <= b.len(),
        b.subrange(0, pos) == spec_encode_fields(prev),
    ensures
        pos + spec_encode_str(fs[i]).len() <= b.len(),
        b.subrange(pos, pos + spec_encode_str(fs[i]).len()) == spec_encode_str(fs[i]),
        str_wf(fs[i]),
{
    lemma_encode_str_len(fs[i]);
    assert(fs =~= fs.take(i + 1) + fs.skip(i + 1));
    lemma_encode_fields_concat(fs.take(i + 1), fs.skip(i + 1));
    lemma_encode_fields_take_succ(fs, i);
    assert(b == (spec_encode_fields(fs.take(i)) + spec_encode_str(fs[i])) + spec_encode_fields(
        fs.skip(i + 1),
    ));
    assert(spec_encode_fields(fs.take(i)).len() == pos);
    assert(b.subrange(pos, pos + spec_encode_str(fs[i]).len()) =~= spec_encode_str(fs[i]));
}

} // verus!
