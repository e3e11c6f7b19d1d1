//! The primitive reader: little-endian scalar reads, boolean decoding, and
//! length-prefixed string decoding with the Latin-1 byte-for-code-point
//! remapping.
//!
//! Each executable reader mirrors a specification-level parser over
//! `Seq<u8>`.  A parser takes the whole buffer and a position and yields
//! either the decoded value with the position just past it, or the kind of
//! failure.  The relation [`decodes`] ties an executable result to its
//! specification parser.
use vstd::prelude::*;

use crate::err::{DecodeError, ErrorKind};

verus! {

/// An executable reader result mirrors its specification parser: same
/// success or failure, same decoded value (through its deep view), same
/// final position, and on failure the same kind.
pub open spec fn decodes<T: DeepView>(
    r: Result<(T, usize), DecodeError>,
    m: Result<(T::V, int), ErrorKind>,
) -> bool {
    match (r, m) {
        (Ok((v, p)), Ok((mv, mp))) => v.deep_view() == mv && p as int == mp,
        (Err(e), Err(k)) => e.kind == k,
        _ => false,
    }
}

/// For a vector of bytes the deep view and the plain view coincide.
pub broadcast proof fn lemma_vec_u8_deep_view(v: Vec<u8>)
    ensures
        #[trigger] v.deep_view() == v@,
{
    assert(v.deep_view() =~= v@);
}

/// For a vector of 16-bit integers the deep view and the plain view coincide.
pub broadcast proof fn lemma_vec_u16_deep_view(v: Vec<u16>)
    ensures
        #[trigger] v.deep_view() == v@,
{
    assert(v.deep_view() =~= v@);
}

/// For a vector of 32-bit integers the deep view and the plain view coincide.
pub broadcast proof fn lemma_vec_u32_deep_view(v: Vec<u32>)
    ensures
        #[trigger] v.deep_view() == v@,
{
    assert(v.deep_view() =~= v@);
}

/// For a vector of 16-bit triples the deep view and the plain view coincide.
pub broadcast proof fn lemma_vec_u16_trip_deep_view(v: Vec<(u16, u16, u16)>)
    ensures
        #[trigger] v.deep_view() == v@,
{
    assert(v.deep_view() =~= v@);
}

/// The little-endian 16-bit value whose two bytes sit at `pos`.
pub open spec fn le16(s: Seq<u8>, pos: int) -> u16 {
    (s[pos] + s[pos + 1] * 0x100) as u16
}

/// The little-endian 32-bit value whose four bytes sit at `pos`.
pub open spec fn le32(s: Seq<u8>, pos: int) -> u32 {
    (s[pos] + s[pos + 1] * 0x100 + s[pos + 2] * 0x1_0000 + s[pos + 3] * 0x100_0000) as u32
}

/// One byte at `pos`.
pub open spec fn sp_u8(s: Seq<u8>, pos: int) -> Result<(u8, int), ErrorKind> {
    if 0 <= pos && pos + 1 <= s.len() {
        Ok((s[pos], pos + 1))
    } else {
        Err(ErrorKind::TruncatedInput)
    }
}

/// A little-endian unsigned 16-bit integer at `pos`.
pub open spec fn sp_u16(s: Seq<u8>, pos: int) -> Result<(u16, int), ErrorKind> {
    if 0 <= pos && pos + 2 <= s.len() {
        Ok((le16(s, pos), pos + 2))
    } else {
        Err(ErrorKind::TruncatedInput)
    }
}

/// A little-endian unsigned 32-bit integer at `pos`.
pub open spec fn sp_u32(s: Seq<u8>, pos: int) -> Result<(u32, int), ErrorKind> {
    if 0 <= pos && pos + 4 <= s.len() {
        Ok((le32(s, pos), pos + 4))
    } else {
        Err(ErrorKind::TruncatedInput)
    }
}

/// Three consecutive little-endian 16-bit integers, the triple idiom of
/// face-index and texture-index records.
pub open spec fn sp_u16_trip(s: Seq<u8>, pos: int) -> Result<((u16, u16, u16), int), ErrorKind> {
    if 0 <= pos && pos + 6 <= s.len() {
        Ok(((le16(s, pos), le16(s, pos + 2), le16(s, pos + 4)), pos + 6))
    } else {
        Err(ErrorKind::TruncatedInput)
    }
}

/// A boolean: byte value 1 is true, any other byte is false, never a failure
/// beyond truncation.
pub open spec fn sp_bool(s: Seq<u8>, pos: int) -> Result<(bool, int), ErrorKind> {
    match sp_u8(s, pos) {
        Ok((b, p)) => Ok((b == 1, p)),
        Err(k) => Err(k),
    }
}

/// The Latin-1 remap: each byte becomes the identically-valued code point.
pub open spec fn latin1(s: Seq<u8>) -> Seq<char> {
    s.map_values(|b: u8| b as char)
}

/// A length-prefixed string: a 32-bit length L (L < 1 is a failure), then
/// exactly L bytes of which the final terminator byte is stripped, yielding
/// L - 1 content bytes.
pub open spec fn sp_cstring(s: Seq<u8>, pos: int) -> Result<(Seq<u8>, int), ErrorKind> {
    match sp_u32(s, pos) {
        Err(k) => Err(k),
        Ok((len, p)) => if len < 1 {
            Err(ErrorKind::EmptyString)
        } else if p + len <= s.len() {
            Ok((s.subrange(p, p + len - 1), p + len))
        } else {
            Err(ErrorKind::TruncatedInput)
        },
    }
}

/// A length-prefixed string decoded to text through the Latin-1 remap.
pub open spec fn sp_name(s: Seq<u8>, pos: int) -> Result<(Seq<char>, int), ErrorKind> {
    match sp_cstring(s, pos) {
        Err(k) => Err(k),
        Ok((bytes, p)) => Ok((latin1(bytes), p)),
    }
}

/// Read one byte.
pub fn read_u8(s: &[u8], pos: usize) -> (r: Result<(u8, usize), DecodeError>)
    ensures
        decodes(r, sp_u8(s@, pos as int)),
{
    if pos < s.len() {
        Ok((s[pos], pos + 1))
    } else {
        Err(DecodeError::new(ErrorKind::TruncatedInput))
    }
}

/// Read a little-endian unsigned 16-bit integer.
pub fn read_u16(s: &[u8], pos: usize) -> (r: Result<(u16, usize), DecodeError>)
    ensures
        decodes(r, sp_u16(s@, pos as int)),
{
    if s.len() >= 2 && pos <= s.len() - 2 {
        let v = s[pos] as u16 + s[pos + 1] as u16 * 0x100;
        Ok((v, pos + 2))
    } else {
        Err(DecodeError::new(ErrorKind::TruncatedInput))
    }
}

/// Read a little-endian unsigned 32-bit integer.
pub fn read_u32(s: &[u8], pos: usize) -> (r: Result<(u32, usize), DecodeError>)
    ensures
        decodes(r, sp_u32(s@, pos as int)),
{
    if s.len() >= 4 && pos <= s.len() - 4 {
        let v = s[pos] as u32 + s[pos + 1] as u32 * 0x100 + s[pos + 2] as u32 * 0x1_0000 + s[pos
            + 3] as u32 * 0x100_0000;
        Ok((v, pos + 4))
    } else {
        Err(DecodeError::new(ErrorKind::TruncatedInput))
    }
}

/// Read a 32-bit IEEE-754 float as its raw little-endian bit pattern.  The
/// decoded tree stores every float this way; consumers reinterpret the bits.
pub fn read_f32_bits(s: &[u8], pos: usize) -> (r: Result<(u32, usize), DecodeError>)
    ensures
        decodes(r, sp_u32(s@, pos as int)),
{
    read_u32(s, pos)
}

/// Read a boolean: byte value 1 is true, anything else is false.
pub fn read_bool(s: &[u8], pos: usize) -> (r: Result<(bool, usize), DecodeError>)
    ensures
        decodes(r, sp_bool(s@, pos as int)),
{
    match read_u8(s, pos) {
        Ok((b, p)) => Ok((b == 1, p)),
        Err(e) => Err(e),
    }
}

/// Read a length-prefixed string as its raw Latin-1 content bytes, with the
/// trailing terminator byte stripped.
pub fn read_cstring(s: &[u8], pos: usize) -> (r: Result<(Vec<u8>, usize), DecodeError>)
    ensures
        decodes(r, sp_cstring(s@, pos as int)),
{
    let (len, p) = match read_u32(s, pos) {
        Ok(x) => x,
        Err(e) => {
            return Err(e);
        },
    };
    if len < 1 {
        return Err(DecodeError::new(ErrorKind::EmptyString));
    }
    if (len as u64) > (s.len() - p) as u64 {
        return Err(DecodeError::new(ErrorKind::TruncatedInput));
    }
    let slen = s.len();
    let count = (len - 1) as usize;
    let mut content: Vec<u8> = Vec::new();
    let mut i: usize = 0;
    while i < count
        invariant
            count == len - 1,
            1 <= len,
            p + len <= s@.len(),
            slen == s@.len(),
            i <= count,
            content@ =~= s@.subrange(p as int, p as int + i as int),
        decreases count - i,
    {
        content.push(s[p + i]);
        i = i + 1;
    }
    assert(content@ =~= s@.subrange(p as int, p as int + len - 1));
    assert(content.deep_view() =~= content@);
    Ok((content, p + len as usize))
}

/// Convert raw Latin-1 bytes to text: each byte value maps directly to the
/// identically-valued code point, preserving accented characters exactly.
pub fn latin1_to_utf8(s: &[u8]) -> (r: String)
    ensures
        r@ == latin1(s@),
{
    let mut r = String::new();
    let mut i: usize = 0;
    while i < s.len()
        invariant
            i <= s@.len(),
            r@ =~= latin1(s@).take(i as int),
        decreases s@.len() - i,
    {
        push_char(&mut r, s[i] as char);
        assert(r@ =~= latin1(s@).take(i as int + 1));
        i = i + 1;
    }
    assert(r@ =~= latin1(s@));
    r
}

/// Relies on String::push from std: it appends exactly the one given
/// character to the end of the string.
#[verifier::external_body]
fn push_char(s: &mut String, c: char)
    ensures
        final(s)@ == old(s)@.push(c),
{
    s.push(c);
}

/// A homogeneous list of `n` records, each read by the element parser `f`,
/// one after the other.  Every repeated-list section of both formats is an
/// instance: a count field, then exactly that many records.
pub open spec fn sp_many<T>(
    s: Seq<u8>,
    pos: int,
    n: nat,
    f: spec_fn(Seq<u8>, int) -> Result<(T, int), ErrorKind>,
) -> Result<(Seq<T>, int), ErrorKind>
    decreases n,
{
    if n == 0 {
        Ok((Seq::empty(), pos))
    } else {
        match f(s, pos) {
            Err(k) => Err(k),
            Ok((v, p)) => match sp_many(s, p, (n - 1) as nat, f) {
                Err(k) => Err(k),
                Ok((vs, p2)) => Ok((seq![v] + vs, p2)),
            },
        }
    }
}

/// One unfolding of [`sp_many`] at the front.
pub proof fn lemma_sp_many_step<T>(
    s: Seq<u8>,
    pos: int,
    n: nat,
    f: spec_fn(Seq<u8>, int) -> Result<(T, int), ErrorKind>,
)
    requires
        n > 0,
    ensures
        f(s, pos) matches Err(k) ==> sp_many(s, pos, n, f) == Err::<(Seq<T>, int), ErrorKind>(k),
        f(s, pos) matches Ok(r1) ==> (match sp_many(s, r1.1, (n - 1) as nat, f) {
            Err(k) => sp_many(s, pos, n, f) == Err::<(Seq<T>, int), ErrorKind>(k),
            Ok(r2) => sp_many(s, pos, n, f) == Ok::<(Seq<T>, int), ErrorKind>(
                (seq![r1.0] + r2.0, r2.1),
            ),
        }),
{
}

/// The list-length law: whenever a repeated list of `n` records decodes,
/// the decoded collection has exactly `n` elements — the element count
/// always equals the count field read immediately before the list.
pub proof fn lemma_sp_many_len<T>(
    s: Seq<u8>,
    pos: int,
    n: nat,
    f: spec_fn(Seq<u8>, int) -> Result<(T, int), ErrorKind>,
)
    ensures
        sp_many(s, pos, n, f) matches Ok(r) ==> r.0.len() == n,
    decreases n,
{
    if n > 0 {
        match f(s, pos) {
            Err(_) => {},
            Ok((v, p)) => {
                lemma_sp_many_len(s, p, (n - 1) as nat, f);
            },
        }
    }
}

/// Growing a decoded list by one at the back: if the first `i` records
/// decode to `vs` ending at `p`, the list of `i + 1` records is decided by
/// one more application of the element parser at `p`.
pub proof fn lemma_sp_many_snoc<T>(
    s: Seq<u8>,
    pos: int,
    i: nat,
    f: spec_fn(Seq<u8>, int) -> Result<(T, int), ErrorKind>,
    vs: Seq<T>,
    p: int,
)
    requires
        sp_many(s, pos, i, f) == Ok::<(Seq<T>, int), ErrorKind>((vs, p)),
    ensures
        f(s, p) matches Err(k) ==> sp_many(s, pos, i + 1, f) == Err::<(Seq<T>, int), ErrorKind>(
            k,
        ),
        f(s, p) matches Ok(r1) ==> sp_many(s, pos, i + 1, f) == Ok::<(Seq<T>, int), ErrorKind>(
            (vs.push(r1.0), r1.1),
        ),
    decreases i,
{
    if i == 0 {
        assert(vs == Seq::<T>::empty() && p == pos);
        lemma_sp_many_step(s, pos, 1, f);
        match f(s, p) {
            Err(_) => {},
            Ok((v, p1)) => {
                assert(seq![v] + Seq::<T>::empty() =~= vs.push(v));
            },
        }
    } else {
        lemma_sp_many_step(s, pos, i, f);
        match f(s, pos) {
            Err(_) => {
                assert(false);
            },
            Ok((v0, p0)) => {
                match sp_many(s, p0, (i - 1) as nat, f) {
                    Err(_) => {
                        assert(false);
                    },
                    Ok((vs1, p1)) => {
                        assert(vs == seq![v0] + vs1 && p == p1);
                        lemma_sp_many_snoc(s, p0, (i - 1) as nat, f, vs1, p1);
                        lemma_sp_many_step(s, pos, i + 1, f);
                        match f(s, p) {
                            Err(_) => {},
                            Ok((v, p2)) => {
                                assert(seq![v0] + vs1.push(v) =~= (seq![v0] + vs1).push(v));
                            },
                        }
                    },
                }
            },
        }
    }
}

/// A failure of a shorter list is a failure of every longer list over the
/// same start position: the records before the failing one parse the same
/// way in both.
pub proof fn lemma_sp_many_err_mono<T>(
    s: Seq<u8>,
    pos: int,
    m: nat,
    n: nat,
    f: spec_fn(Seq<u8>, int) -> Result<(T, int), ErrorKind>,
)
    requires
        m <= n,
        sp_many(s, pos, m, f) is Err,
    ensures
        sp_many(s, pos, n, f) == sp_many(s, pos, m, f),
    decreases m,
{
    if m == 0 {
        assert(false);
    } else {
        lemma_sp_many_step(s, pos, m, f);
        lemma_sp_many_step(s, pos, n, f);
        match f(s, pos) {
            Err(_) => {},
            Ok((v, p)) => {
                lemma_sp_many_err_mono(s, p, (m - 1) as nat, (n - 1) as nat, f);
            },
        }
    }
}

/// The element parser of a plain 32-bit value, as a named closure so that
/// list specifications and loop invariants speak of one function value.
pub open spec fn sp_u32_f() -> spec_fn(Seq<u8>, int) -> Result<(u32, int), ErrorKind> {
    |s: Seq<u8>, pos: int| sp_u32(s, pos)
}

/// The element parser of a plain 16-bit value.
pub open spec fn sp_u16_f() -> spec_fn(Seq<u8>, int) -> Result<(u16, int), ErrorKind> {
    |s: Seq<u8>, pos: int| sp_u16(s, pos)
}

/// The element parser of a 16-bit triple.
pub open spec fn sp_u16_trip_f() -> spec_fn(Seq<u8>, int) -> Result<((u16, u16, u16), int), ErrorKind> {
    |s: Seq<u8>, pos: int| sp_u16_trip(s, pos)
}

/// Read `n` consecutive 32-bit integers.
pub fn read_u32_array(s: &[u8], pos: usize, n: u32) -> (r: Result<
    (Vec<u32>, usize),
    DecodeError,
>)
    ensures
        decodes(r, sp_many(s@, pos as int, n as nat, sp_u32_f())),
{
    let mut items: Vec<u32> = Vec::new();
    let mut p = pos;
    let mut i: u32 = 0;
    assert(items.deep_view() =~= Seq::<u32>::empty());
    while i < n
        invariant
            i <= n,
            sp_many(s@, pos as int, i as nat, sp_u32_f()) == Ok::<(Seq<u32>, int), ErrorKind>(
                (items.deep_view(), p as int),
            ),
        decreases n - i,
    {
        proof {
            lemma_sp_many_snoc(s@, pos as int, i as nat, sp_u32_f(), items.deep_view(), p as int);
        }
        match read_u32(s, p) {
            Ok((v, p2)) => {
                let ghost old_dv = items.deep_view();
                items.push(v);
                assert(items.deep_view() =~= old_dv.push(v));
                p = p2;
                i = i + 1;
            },
            Err(e) => {
                proof {
                    lemma_sp_many_err_mono(s@, pos as int, i as nat + 1, n as nat, sp_u32_f());
                }
                return Err(e);
            },
        }
    }
    Ok((items, p))
}

/// Read `n` consecutive 32-bit floats as their raw bit patterns.
pub fn read_f32_bits_array(s: &[u8], pos: usize, n: u32) -> (r: Result<
    (Vec<u32>, usize),
    DecodeError,
>)
    ensures
        decodes(r, sp_many(s@, pos as int, n as nat, sp_u32_f())),
{
    read_u32_array(s, pos, n)
}

/// Read `n` consecutive 16-bit integers.
pub fn read_u16_array(s: &[u8], pos: usize, n: u32) -> (r: Result<(Vec<u16>, usize), DecodeError>)
    ensures
        decodes(r, sp_many(s@, pos as int, n as nat, sp_u16_f())),
{
    let mut items: Vec<u16> = Vec::new();
    let mut p = pos;
    let mut i: u32 = 0;
    assert(items.deep_view() =~= Seq::<u16>::empty());
    while i < n
        invariant
            i <= n,
            sp_many(s@, pos as int, i as nat, sp_u16_f()) == Ok::<(Seq<u16>, int), ErrorKind>(
                (items.deep_view(), p as int),
            ),
        decreases n - i,
    {
        proof {
            lemma_sp_many_snoc(s@, pos as int, i as nat, sp_u16_f(), items.deep_view(), p as int);
        }
        match read_u16(s, p) {
            Ok((v, p2)) => {
                let ghost old_dv = items.deep_view();
                items.push(v);
                assert(items.deep_view() =~= old_dv.push(v));
                p = p2;
                i = i + 1;
            },
            Err(e) => {
                proof {
                    lemma_sp_many_err_mono(s@, pos as int, i as nat + 1, n as nat, sp_u16_f());
                }
                return Err(e);
            },
        }
    }
    Ok((items, p))
}

/// The element parser of one length-prefixed Latin-1 string.
pub open spec fn sp_name_f() -> spec_fn(Seq<u8>, int) -> Result<(Seq<char>, int), ErrorKind> {
    |s: Seq<u8>, pos: int| sp_name(s, pos)
}

/// Read `n` consecutive length-prefixed Latin-1 strings.
#[verifier::loop_isolation(false)]
pub fn read_name_array(s: &[u8], pos: usize, n: u32) -> (r: Result<
    (Vec<String>, usize),
    DecodeError,
>)
    ensures
        decodes(r, sp_many(s@, pos as int, n as nat, sp_name_f())),
{
    let mut items: Vec<String> = Vec::new();
    let mut p = pos;
    let mut i: u32 = 0;
    assert(items.deep_view() =~= Seq::<Seq<char>>::empty());
    while i < n
        invariant
            i <= n,
            sp_many(s@, pos as int, i as nat, sp_name_f()) == Ok::<
                (Seq<Seq<char>>, int),
                ErrorKind,
            >((items.deep_view(), p as int)),
        decreases n - i,
    {
        proof {
            lemma_sp_many_snoc(s@, pos as int, i as nat, sp_name_f(), items.deep_view(), p as int);
        }
        match read_name(s, p) {
            Ok((v, p2)) => {
                let ghost old_dv = items.deep_view();
                items.push(v);
                assert(items.deep_view() =~= old_dv.push(v@));
                p = p2;
                i = i + 1;
            },
            Err(e) => {
                proof {
                    lemma_sp_many_err_mono(s@, pos as int, i as nat + 1, n as nat, sp_name_f());
                }
                return Err(e);
            },
        }
    }
    Ok((items, p))
}

/// Read one 16-bit triple.
pub fn read_u16_trip(s: &[u8], pos: usize) -> (r: Result<((u16, u16, u16), usize), DecodeError>)
    ensures
        decodes(r, sp_u16_trip(s@, pos as int)),
{
    let (a, p1) = match read_u16(s, pos) {
        Ok(x) => x,
        Err(e) => {
            return Err(e);
        },
    };
    let (b, p2) = match read_u16(s, p1) {
        Ok(x) => x,
        Err(e) => {
            return Err(e);
        },
    };
    match read_u16(s, p2) {
        Ok((c, p3)) => Ok(((a, b, c), p3)),
        Err(e) => Err(e),
    }
}

/// Read `n` consecutive 16-bit triples.
pub fn read_u16_trip_array(s: &[u8], pos: usize, n: u32) -> (r: Result<
    (Vec<(u16, u16, u16)>, usize),
    DecodeError,
>)
    ensures
        decodes(r, sp_many(s@, pos as int, n as nat, sp_u16_trip_f())),
{
    let mut items: Vec<(u16, u16, u16)> = Vec::new();
    let mut p = pos;
    let mut i: u32 = 0;
    assert(items.deep_view() =~= Seq::<(u16, u16, u16)>::empty());
    while i < n
        invariant
            i <= n,
            sp_many(s@, pos as int, i as nat, sp_u16_trip_f()) == Ok::<
                (Seq<(u16, u16, u16)>, int),
                ErrorKind,
            >((items.deep_view(), p as int)),
        decreases n - i,
    {
        proof {
            lemma_sp_many_snoc(
                s@,
                pos as int,
                i as nat,
                sp_u16_trip_f(),
                items.deep_view(),
                p as int,
            );
        }
        match read_u16_trip(s, p) {
            Ok((v, p2)) => {
                let ghost old_dv = items.deep_view();
                items.push(v);
                assert(items.deep_view() =~= old_dv.push(v));
                p = p2;
                i = i + 1;
            },
            Err(e) => {
                proof {
                    lemma_sp_many_err_mono(
                        s@,
                        pos as int,
                        i as nat + 1,
                        n as nat,
                        sp_u16_trip_f(),
                    );
                }
                return Err(e);
            },
        }
    }
    Ok((items, p))
}

/// Read a length-prefixed string and decode it through the Latin-1 remap.
pub fn read_name(s: &[u8], pos: usize) -> (r: Result<(String, usize), DecodeError>)
    ensures
        decodes(r, sp_name(s@, pos as int)),
{
    match read_cstring(s, pos) {
        Ok((bytes, p)) => {
            assert(bytes.deep_view() =~= bytes@);
            Ok((latin1_to_utf8(bytes.as_slice()), p))
        },
        Err(e) => Err(e),
    }
}

} // verus!
