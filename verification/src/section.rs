//! The shared section-header convention consumed before nearly every MAP
//! record: a numeric id and a name.  If the decoded name is literally
//! "Version", an extra numeric field is consumed and discarded and a second
//! name is read in its place — the inline map-texture short-name convention.
use vstd::prelude::*;

use crate::err::{DecodeError, ErrorKind};
use crate::prim::{decodes, latin1, read_cstring, read_name, read_u32, sp_cstring, sp_name, sp_u32};

verus! {

broadcast use crate::prim::lemma_vec_u8_deep_view;

/// The raw bytes of the literal name "Version" that triggers the inline
/// short-name convention.
pub open spec fn version_label() -> Seq<u8> {
    seq![0x56u8, 0x65u8, 0x72u8, 0x73u8, 0x69u8, 0x6fu8, 0x6eu8]
}

/// The short form of a section header: a 32-bit id, then a name; a name
/// equal to "Version" makes the reader discard one more 32-bit value and
/// take a second name in its place.
pub open spec fn sp_section_header_short(s: Seq<u8>, pos: int) -> Result<
    ((u32, Seq<char>), int),
    ErrorKind,
> {
    match sp_u32(s, pos) {
        Err(k) => Err(k),
        Ok((id, p1)) => match sp_cstring(s, p1) {
            Err(k) => Err(k),
            Ok((name, p2)) => if name == version_label() {
                match sp_u32(s, p2) {
                    Err(k) => Err(k),
                    Ok((_ver, p3)) => match sp_name(s, p3) {
                        Err(k) => Err(k),
                        Ok((name2, p4)) => Ok(((id, name2), p4)),
                    },
                }
            } else {
                Ok(((id, latin1(name)), p2))
            },
        },
    }
}

/// The long form: a 32-bit byte size, read and discarded (the format never
/// uses it for bounds checking), then the short form.
pub open spec fn sp_section_header(s: Seq<u8>, pos: int) -> Result<
    ((u32, Seq<char>), int),
    ErrorKind,
> {
    match sp_u32(s, pos) {
        Err(k) => Err(k),
        Ok((_size, p)) => sp_section_header_short(s, p),
    }
}

/// Does this decoded string hold exactly the bytes of "Version"?
fn is_version_label(v: &Vec<u8>) -> (b: bool)
    ensures
        b == (v@ == version_label()),
{
    let r = v.len() == 7 && v[0] == 0x56 && v[1] == 0x65 && v[2] == 0x72 && v[3] == 0x73 && v[4]
        == 0x69 && v[5] == 0x6f && v[6] == 0x6e;
    proof {
        assert(version_label().len() == 7);
        if r {
            assert(v@ =~= version_label());
        }
    }
    r
}

/// Read the short form of a section header, returning the id and the
/// resolved (non-"Version") name.
pub fn section_header_short(s: &[u8], pos: usize) -> (r: Result<((u32, String), usize), DecodeError>)
    ensures
        decodes(r, sp_section_header_short(s@, pos as int)),
{
    let (id, p1) = match read_u32(s, pos) {
        Ok(x) => x,
        Err(e) => {
            return Err(e.context("failed to read section id"));
        },
    };
    let (name, p2) = match read_cstring(s, p1) {
        Ok(x) => x,
        Err(e) => {
            return Err(e.context("section header name"));
        },
    };
    if is_version_label(&name) {
        let (_ver, p3) = match read_u32(s, p2) {
            Ok(x) => x,
            Err(e) => {
                return Err(e.context("version number"));
            },
        };
        match read_name(s, p3) {
            Ok((name2, p4)) => Ok(((id, name2), p4)),
            Err(e) => Err(e.context("texture short name")),
        }
    } else {
        let text = crate::prim::latin1_to_utf8(name.as_slice());
        Ok(((id, text), p2))
    }
}

/// Read the long form: discard the section byte size, then the short form.
pub fn section_header(s: &[u8], pos: usize) -> (r: Result<((u32, String), usize), DecodeError>)
    ensures
        decodes(r, sp_section_header(s@, pos as int)),
{
    match read_u32(s, pos) {
        Ok((_size, p)) => section_header_short(s, p),
        Err(e) => Err(e.context("failed to read section size")),
    }
}

} // verus!
