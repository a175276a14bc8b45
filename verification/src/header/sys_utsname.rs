//! `sys/utsname.h`: the system identification record and its translation
//! from what Seele reports.

use crate::platform::seele::abi::SystemInfo;
use crate::platform::types::c_char;
use vstd::prelude::*;
use vstd::utf8::{decode_utf8, encode_utf8, pop_first_scalar, valid_utf8};

verus! {

pub const UTSLENGTH: usize = 65;

/// The system identification record of `uname`.
#[derive(Clone, Copy)]
pub struct utsname {
    pub sysname: [c_char; UTSLENGTH],
    pub nodename: [c_char; UTSLENGTH],
    pub release: [c_char; UTSLENGTH],
    pub version: [c_char; UTSLENGTH],
    pub machine: [c_char; UTSLENGTH],
    pub domainname: [c_char; UTSLENGTH],
}

/// The length of `s` before its first NUL (all of it if it has none).
pub open spec fn nul_prefix_len<T>(s: Seq<T>, nul: T) -> nat
    decreases s.len(),
{
    if s.len() == 0 {
        0
    } else if s[0] == nul {
        0
    } else {
        1 + nul_prefix_len(s.drop_first(), nul)
    }
}

/// The number of bytes of `src` that `copy_bytes_to_c_chars` copies into a
/// field of `dst_len` characters: up to the first NUL, leaving room for a
/// terminating NUL.
pub open spec fn copied_len(src: Seq<u8>, dst_len: nat) -> nat {
    let n = nul_prefix_len(src, 0u8);
    let room = if dst_len == 0 {
        0
    } else {
        (dst_len - 1) as nat
    };
    if n < room {
        n
    } else {
        room
    }
}

/// `dst` after the bytes of `src` are copied in as characters.
pub open spec fn copied_chars(dst: Seq<c_char>, src: Seq<u8>) -> Seq<c_char> {
    let n = copied_len(src, dst.len());
    Seq::new(dst.len(), |i: int| if i < n { src[i] as c_char } else { dst[i] })
}

/// A field of `UTSLENGTH` characters holding `src`, NUL-padded.
pub open spec fn c_chars_field(src: Seq<u8>) -> Seq<c_char> {
    copied_chars(Seq::new(UTSLENGTH as nat, |i: int| 0 as c_char), src)
}

/// The bytes of `src` before its first NUL.
pub open spec fn c_string_bytes(src: Seq<c_char>) -> Seq<u8> {
    src.take(nul_prefix_len(src, 0 as c_char) as int).map_values(|c: c_char| c as u8)
}

/// The text that `String::from_utf8_lossy` makes of `bytes`: their UTF-8
/// decoding, with each invalid sequence replaced by U+FFFD.
pub uninterp spec fn utf8_lossy(bytes: Seq<u8>) -> Seq<char>;

/// Calls `String::from_utf8_lossy`. Claimed: the text is `utf8_lossy` of
/// the bytes, and is their decoding where they are valid UTF-8 (std
/// documents that valid input is borrowed unchanged).
#[verifier::external_body]
fn string_from_utf8_lossy(bytes: &[u8]) -> (s: String)
    ensures
        s@ == utf8_lossy(bytes@),
        valid_utf8(bytes@) ==> s@ == decode_utf8(bytes@),
{
    String::from_utf8_lossy(bytes).into_owned()
}

/// The position of the first NUL byte in `s` (its length if it has none).
pub(crate) fn nul_position(s: &[u8]) -> (n: usize)
    ensures
        n == nul_prefix_len(s@, 0u8),
{
    assert(s@.skip(0) =~= s@);
    let mut i: usize = 0;
    while i < s.len()
        invariant
            0 <= i <= s@.len(),
            nul_prefix_len(s@, 0u8) == i + nul_prefix_len(s@.skip(i as int), 0u8),
        decreases s@.len() - i,
    {
        assert(s@.skip(i as int).drop_first() =~= s@.skip(i + 1));
        if s[i] == 0 {
            return i;
        }
        i = i + 1;
    }
    assert(s@.skip(i as int).len() == 0);
    i
}

/// The position of the first NUL character in `s` (its length if it has
/// none).
fn nul_char_position(s: &[c_char]) -> (n: usize)
    ensures
        n == nul_prefix_len(s@, 0 as c_char),
{
    assert(s@.skip(0) =~= s@);
    let mut i: usize = 0;
    while i < s.len()
        invariant
            0 <= i <= s@.len(),
            nul_prefix_len(s@, 0 as c_char) == i + nul_prefix_len(s@.skip(i as int), 0 as c_char),
        decreases s@.len() - i,
    {
        assert(s@.skip(i as int).drop_first() =~= s@.skip(i + 1));
        if s[i] == 0 {
            return i;
        }
        i = i + 1;
    }
    assert(s@.skip(i as int).len() == 0);
    i
}

/// Copies the bytes of `src` before its first NUL into `dst` as characters,
/// as many as fit while leaving room for a terminating NUL; the rest of
/// `dst` is left as it is.
pub fn copy_bytes_to_c_chars(dst: &mut [c_char], src: &[u8])
    ensures
        final(dst)@ == copied_chars(old(dst)@, src@),
{
    let len = nul_position(src);
    proof {
        lemma_nul_prefix_len(src@, 0u8);
    }
    let room = if dst.len() == 0 {
        0
    } else {
        dst.len() - 1
    };
    let len = if len < room {
        len
    } else {
        room
    };
    let mut i: usize = 0;
    while i < len
        invariant
            0 <= i <= len,
            len == copied_len(src@, old(dst)@.len()),
            len <= src@.len(),
            dst@.len() == old(dst)@.len(),
            forall|j: int| 0 <= j < dst@.len() ==> dst@[j] == (if j < i {
                src@[j] as c_char
            } else {
                old(dst)@[j]
            }),
        decreases len - i,
    {
        dst[i] = src[i] as c_char;
        i = i + 1;
    }
    assert(dst@ =~= copied_chars(old(dst)@, src@));
}

/// The text of a NUL-terminated character field: its bytes before the
/// first NUL, decoded as UTF-8 with invalid sequences replaced.
pub fn c_chars_to_string(src: &[c_char]) -> (s: String)
    ensures
        s@ == utf8_lossy(c_string_bytes(src@)),
        valid_utf8(c_string_bytes(src@)) ==> s@ == decode_utf8(c_string_bytes(src@)),
{
    let len = nul_char_position(src);
    proof {
        lemma_nul_prefix_len(src@, 0 as c_char);
    }
    let mut bytes: Vec<u8> = Vec::new();
    let mut i: usize = 0;
    while i < len
        invariant
            0 <= i <= len,
            len == nul_prefix_len(src@, 0 as c_char),
            len <= src@.len(),
            bytes@ == src@.take(i as int).map_values(|c: c_char| c as u8),
        decreases len - i,
    {
        bytes.push(src[i] as u8);
        assert(bytes@ =~= src@.take(i + 1).map_values(|c: c_char| c as u8));
        i = i + 1;
    }
    string_from_utf8_lossy(bytes.as_slice())
}

impl utsname {
    /// The identification record for what Seele reports: the system name
    /// as `sysname`, the version as both `release` and `version`, each cut
    /// to fit with a terminating NUL; everything else empty.
    pub fn from(value: SystemInfo) -> (uts: utsname)
        ensures
            uts.sysname@ == c_chars_field(value.name@),
            uts.release@ == c_chars_field(value.version@),
            uts.version@ == c_chars_field(value.version@),
            uts.nodename@ == Seq::new(UTSLENGTH as nat, |i: int| 0 as c_char),
            uts.machine@ == Seq::new(UTSLENGTH as nat, |i: int| 0 as c_char),
            uts.domainname@ == Seq::new(UTSLENGTH as nat, |i: int| 0 as c_char),
    {
        let mut uts = utsname {
            sysname: [0; UTSLENGTH],
            nodename: [0; UTSLENGTH],
            release: [0; UTSLENGTH],
            version: [0; UTSLENGTH],
            machine: [0; UTSLENGTH],
            domainname: [0; UTSLENGTH],
        };
        assert(uts.sysname@ =~= Seq::new(UTSLENGTH as nat, |i: int| 0 as c_char));
        assert(uts.release@ =~= Seq::new(UTSLENGTH as nat, |i: int| 0 as c_char));
        assert(uts.version@ =~= Seq::new(UTSLENGTH as nat, |i: int| 0 as c_char));
        assert(uts.nodename@ =~= Seq::new(UTSLENGTH as nat, |i: int| 0 as c_char));
        assert(uts.machine@ =~= Seq::new(UTSLENGTH as nat, |i: int| 0 as c_char));
        assert(uts.domainname@ =~= Seq::new(UTSLENGTH as nat, |i: int| 0 as c_char));

        copy_bytes_to_c_chars(&mut uts.sysname, value.name());
        copy_bytes_to_c_chars(&mut uts.release, value.version());
        copy_bytes_to_c_chars(&mut uts.version, value.version());

        uts
    }
}

impl SystemInfo {
    /// What Seele is told for an identification record: the texts of
    /// `sysname` and `release`.
    pub fn from(value: utsname) -> (info: SystemInfo)
        ensures
            info.name@ == encode_utf8(utf8_lossy(c_string_bytes(value.sysname@))),
            info.version@ == encode_utf8(utf8_lossy(c_string_bytes(value.release@))),
            valid_utf8(c_string_bytes(value.sysname@)) ==> info.name@ == c_string_bytes(
                value.sysname@,
            ),
            valid_utf8(c_string_bytes(value.release@)) ==> info.version@ == c_string_bytes(
                value.release@,
            ),
    {
        let name = c_chars_to_string(&value.sysname);
        let release = c_chars_to_string(&value.release);
        proof {
            if valid_utf8(c_string_bytes(value.sysname@)) {
                vstd::utf8::decode_utf8_encode_utf8(c_string_bytes(value.sysname@));
            }
            if valid_utf8(c_string_bytes(value.release@)) {
                vstd::utf8::decode_utf8_encode_utf8(c_string_bytes(value.release@));
            }
        }
        SystemInfo::new(name.as_str(), release.as_str())
    }
}

/// The length before the first NUL: everything before it is not NUL, and
/// it stops at a NUL or at the end.
pub proof fn lemma_nul_prefix_len<T>(s: Seq<T>, nul: T)
    ensures
        nul_prefix_len(s, nul) <= s.len(),
        forall|i: int| 0 <= i < nul_prefix_len(s, nul) ==> s[i] != nul,
        nul_prefix_len(s, nul) < s.len() ==> s[nul_prefix_len(s, nul) as int] == nul,
    decreases s.len(),
{
    if s.len() > 0 && s[0] != nul {
        lemma_nul_prefix_len(s.drop_first(), nul);
        assert forall|i: int| 0 <= i < nul_prefix_len(s, nul) implies s[i] != nul by {
            if i > 0 {
                assert(s[i] == s.drop_first()[i - 1]);
            }
        }
    }
}

/// A name without NULs that fits a field, written into the field, reads
/// back as the same bytes.
pub proof fn lemma_c_chars_field_round_trip(name: Seq<u8>)
    requires
        nul_prefix_len(name, 0u8) == name.len(),
        name.len() < UTSLENGTH,
    ensures
        c_string_bytes(c_chars_field(name)) == name,
{
    lemma_nul_prefix_len(name, 0u8);
    let field = c_chars_field(name);
    let n = name.len();
    assert(copied_len(name, UTSLENGTH as nat) == n);
    assert forall|i: int| 0 <= i < n implies field[i] != 0 as c_char && field[i] as u8 == name[i] by {
        let b = name[i];
        assert(b != 0);
        assert(((b as c_char) as u8) == b && (b as c_char) != 0) by (bit_vector)
            requires
                b != 0,
        ;
    }
    lemma_nul_prefix_len(field, 0 as c_char);
    let m = nul_prefix_len(field, 0 as c_char);
    if m < n {
        assert(field[m as int] == 0 as c_char);
    }
    if m > n {
        assert(field[n as int] != 0 as c_char);
    }
    assert(m == n);
    assert(c_string_bytes(field) =~= name);
}


/// Bytes below 128 (ASCII) are valid UTF-8, and decode to the characters
/// with the same codes.
pub proof fn lemma_ascii_utf8(bytes: Seq<u8>)
    requires
        forall|i: int| 0 <= i < bytes.len() ==> bytes[i] < 128,
    ensures
        valid_utf8(bytes),
        decode_utf8(bytes) == bytes.map_values(|b: u8| b as char),
    decreases bytes.len(),
{
    if bytes.len() > 0 {
        let b = bytes[0];
        assert(b & 0x7f == b) by (bit_vector)
            requires
                b < 128,
        ;
        let rest = bytes.drop_first();
        assert(pop_first_scalar(bytes) =~= rest);
        lemma_ascii_utf8(rest);
        assert(bytes.map_values(|b: u8| b as char) =~= seq![b as char] + rest.map_values(
            |b: u8| b as char,
        ));
    }
}

/// An ASCII name without NULs that fits a field, written into a field of
/// NULs, reads back as the same text: `c_chars_to_string` of the field
/// gives the name's characters.
pub proof fn lemma_c_chars_field_ascii_round_trip(name: Seq<u8>)
    requires
        forall|i: int| 0 <= i < name.len() ==> 1 <= #[trigger] name[i] <= 127,
        name.len() < UTSLENGTH,
    ensures
        c_string_bytes(c_chars_field(name)) == name,
        valid_utf8(c_string_bytes(c_chars_field(name))),
        decode_utf8(c_string_bytes(c_chars_field(name))) == name.map_values(|b: u8| b as char),
{
    lemma_nul_prefix_len(name, 0u8);
    if nul_prefix_len(name, 0u8) < name.len() {
        assert(name[nul_prefix_len(name, 0u8) as int] == 0u8);
    }
    lemma_c_chars_field_round_trip(name);
    lemma_ascii_utf8(name);
}

} // verus!
