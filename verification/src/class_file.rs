//! The class file as a whole: marker, versions, constant pool and the scalar
//! fields that follow the pool.
//!
//! Decoding is one pass over the input, in the order of the wire format, and
//! stops at the first field that cannot be read. What follows the
//! `interfaces_count` field is not looked at.

use vstd::prelude::*;
use vstd::slice::slice_subrange;
use crate::constant::{ConstEntry, ConstEntryView};
use crate::error::DecodeError;
use crate::model::{agree_on_prefix, refines};
use crate::pool::{
    lemma_pool_bounds, lemma_pool_reads_own_bytes, lemma_pool_truncated, parse_pool, pool_view,
    spec_parse_pool,
};
use crate::scalar::{be_u16_at, read_u16};

verus! {

/// The decoded head of a class file.
///
/// `const_pool_size` counts an unused slot 0, so a pool of that declared size
/// holds `const_pool_size - 1` entries, with indices from 1 on: the entry at
/// position `i` of `const_pool` has index `i + 1`.
#[derive(Clone, Debug, PartialEq, Eq)]
pub struct ClassFile {
    pub minor_version: u16,
    pub major_version: u16,
    pub const_pool_size: u16,
    pub const_pool: Vec<ConstEntry>,
    pub access_flags: u16,
    pub this_class: u16,
    pub super_class: u16,
    pub interfaces_count: u16,
}

/// What a [`ClassFile`] stands for.
pub struct ClassFileView {
    pub minor_version: u16,
    pub major_version: u16,
    pub const_pool_size: u16,
    pub const_pool: Seq<ConstEntryView>,
    pub access_flags: u16,
    pub this_class: u16,
    pub super_class: u16,
    pub interfaces_count: u16,
}

impl ClassFileView {
    /// The pool holds one entry for each index from 1 up to the declared size.
    pub open spec fn wf(self) -> bool {
        self.const_pool.len() == self.const_pool_size - 1
    }
}

impl View for ClassFile {
    type V = ClassFileView;

    open spec fn view(&self) -> ClassFileView {
        ClassFileView {
            minor_version: self.minor_version,
            major_version: self.major_version,
            const_pool_size: self.const_pool_size,
            const_pool: pool_view(self.const_pool@),
            access_flags: self.access_flags,
            this_class: self.this_class,
            super_class: self.super_class,
            interfaces_count: self.interfaces_count,
        }
    }
}

impl ClassFile {
    /// The pool holds one entry for each index from 1 up to the declared size.
    pub open spec fn wf(&self) -> bool {
        self@.wf()
    }
}

/// The four bytes that every class file begins with.
pub open spec fn spec_magic() -> Seq<u8> {
    seq![0xCAu8, 0xFEu8, 0xBAu8, 0xBEu8]
}

/// Model of [`magic_ident`]. Input that differs from the marker in any byte
/// it has is a mismatch; input that agrees with the marker but ends before
/// its fourth byte is truncated.
pub open spec fn spec_magic_ident(s: Seq<u8>) -> Result<(int, Seq<u8>), DecodeError> {
    let have = if s.len() < 4 {
        s.len() as int
    } else {
        4
    };
    if s.take(have) != spec_magic().take(have) {
        Err(DecodeError::MarkerMismatch)
    } else if have < 4 {
        Err(DecodeError::Truncated)
    } else {
        Ok((4, spec_magic()))
    }
}

/// Model of [`parse_classfile`]: the fields of the wire format in order, each
/// at the offset where the one before it ended.
pub open spec fn spec_parse_classfile(s: Seq<u8>) -> Result<(int, ClassFileView), DecodeError> {
    match spec_magic_ident(s) {
        Err(e) => Err(e),
        Ok(_) => if s.len() < 10 {
            Err(DecodeError::Truncated)
        } else if be_u16_at(s, 8) == 0 {
            Err(DecodeError::InvalidPoolSize)
        } else {
            match spec_parse_pool(s.skip(10), (be_u16_at(s, 8) - 1) as nat) {
                Err(e) => Err(e),
                Ok((used, entries)) => {
                    let tail = 10 + used;
                    if s.len() < tail + 8 {
                        Err(DecodeError::Truncated)
                    } else {
                        Ok(
                            (
                                tail + 8,
                                ClassFileView {
                                    minor_version: be_u16_at(s, 4),
                                    major_version: be_u16_at(s, 6),
                                    const_pool_size: be_u16_at(s, 8),
                                    const_pool: entries,
                                    access_flags: be_u16_at(s, tail),
                                    this_class: be_u16_at(s, tail + 2),
                                    super_class: be_u16_at(s, tail + 4),
                                    interfaces_count: be_u16_at(s, tail + 6),
                                },
                            ),
                        )
                    }
                },
            }
        },
    }
}

/// Model of [`decode`]: [`spec_parse_classfile`] without the count of bytes used.
pub open spec fn spec_decode(s: Seq<u8>) -> Result<ClassFileView, DecodeError> {
    match spec_parse_classfile(s) {
        Ok((_, class_file)) => Ok(class_file),
        Err(e) => Err(e),
    }
}

/// Every class file that decodes holds one pool entry for each index from 1
/// up to its declared pool size, and ends within the input.
pub proof fn lemma_decoded_pool_length(s: Seq<u8>)
    ensures
        spec_parse_classfile(s) matches Ok((used, class_file)) ==> class_file.wf() && 18 <= used
            <= s.len(),
{
    if s.len() >= 10 && be_u16_at(s, 8) != 0 {
        lemma_pool_bounds(s.skip(10), (be_u16_at(s, 8) - 1) as nat);
    }
}

/// Decoding is a function of the bytes: two results that meet the contract of
/// [`parse_classfile`] on equal input are both failures with the same error,
/// or both successes with the same class file and the same remaining input.
pub proof fn lemma_decode_deterministic(
    a: &[u8],
    b: &[u8],
    ra: Result<(&[u8], ClassFile), DecodeError>,
    rb: Result<(&[u8], ClassFile), DecodeError>,
)
    requires
        a@ == b@,
        refines(ra, a@, spec_parse_classfile(a@)),
        refines(rb, b@, spec_parse_classfile(b@)),
    ensures
        match (ra, rb) {
            (Ok((rest_a, class_a)), Ok((rest_b, class_b))) => class_a@ == class_b@ && rest_a@
                == rest_b@,
            (Err(ea), Err(eb)) => ea == eb,
            _ => false,
        },
{
}

/// Input whose first bytes differ from the marker is rejected as a mismatch,
/// whatever its length and whatever follows.
pub proof fn lemma_marker_mismatch(s: Seq<u8>, i: int)
    requires
        0 <= i < 4,
        i < s.len(),
        s[i] != spec_magic()[i],
    ensures
        spec_parse_classfile(s) == Err::<(int, ClassFileView), DecodeError>(
            DecodeError::MarkerMismatch,
        ),
{
    let have = if s.len() < 4 {
        s.len() as int
    } else {
        4
    };
    assert(s.take(have)[i] != spec_magic().take(have)[i]);
}

/// Decoding reads no byte past the `interfaces_count` field: input that holds
/// the same bytes up to the end of that field decodes to the same class file,
/// however much or little follows.
pub proof fn lemma_decode_reads_head_only(a: Seq<u8>, b: Seq<u8>)
    requires
        spec_parse_classfile(a) matches Ok((used, _)) && agree_on_prefix(a, b, used),
    ensures
        spec_parse_classfile(b) == spec_parse_classfile(a),
{
    lemma_decoded_pool_length(a);
    let used = spec_parse_classfile(a)->Ok_0.0;
    let count = (be_u16_at(a, 8) - 1) as nat;
    assert(a.take(4) =~= b.take(4));
    lemma_pool_bounds(a.skip(10), count);
    assert(agree_on_prefix(a.skip(10), b.skip(10), used - 18));
    lemma_pool_reads_own_bytes(a.skip(10), b.skip(10), count);
}

/// A class file cut short fails as truncated: if `s` decodes, then every
/// proper prefix of the bytes that decoding used fails with `Truncated`.
pub proof fn lemma_decode_truncated(s: Seq<u8>, k: int)
    requires
        spec_parse_classfile(s) matches Ok((used, _)) && 0 <= k < used,
    ensures
        spec_parse_classfile(s.take(k)) == Err::<(int, ClassFileView), DecodeError>(
            DecodeError::Truncated,
        ),
{
    lemma_decoded_pool_length(s);
    let t = s.take(k);
    let have = if k < 4 {
        k
    } else {
        4
    };
    assert(t.take(have) =~= spec_magic().take(have));
    if k >= 10 {
        let count = (be_u16_at(s, 8) - 1) as nat;
        lemma_pool_bounds(s.skip(10), count);
        let used = spec_parse_pool(s.skip(10), count)->Ok_0.0;
        assert(t.skip(10) =~= s.skip(10).take(k - 10));
        if k - 10 < used {
            lemma_pool_truncated(s.skip(10), count, k - 10);
        } else {
            lemma_pool_reads_own_bytes(s.skip(10), t.skip(10), count);
        }
    }
}

/// Checks that `input` begins with the marker `CA FE BA BE`, and returns the
/// input after the marker together with the marker bytes themselves.
pub fn magic_ident<'a>(input: &'a [u8]) -> (r: Result<(&'a [u8], &'a [u8]), DecodeError>)
    ensures
        refines(r, input@, spec_magic_ident(input@)),
{
    let marker: [u8; 4] = [0xCA, 0xFE, 0xBA, 0xBE];
    assert(marker@ =~= spec_magic());
    let have: usize = if input.len() < 4 {
        input.len()
    } else {
        4
    };
    let mut i: usize = 0;
    while i < have
        invariant
            i <= have <= 4,
            have <= input@.len(),
            marker@ == spec_magic(),
            forall|j: int| 0 <= j < i ==> input@[j] == marker@[j],
        decreases have - i,
    {
        if input[i] != marker[i] {
            assert(input@.take(have as int)[i as int] != marker@.take(have as int)[i as int]);
            return Err(DecodeError::MarkerMismatch);
        }
        i = i + 1;
    }
    assert(input@.take(have as int) =~= marker@.take(have as int));
    if have < 4 {
        return Err(DecodeError::Truncated);
    }
    let found = slice_subrange(input, 0, 4);
    let rest = slice_subrange(input, 4, input.len());
    assert(found@ =~= marker@);
    Ok((rest, found))
}

/// Decodes the head of a class file from the front of `input`: the marker,
/// the two version fields, the declared pool size, the pool, and the four
/// scalar fields after it. Returns the class file with the input that
/// follows `interfaces_count`, which is left unread.
///
/// A declared pool size of zero is rejected with `InvalidPoolSize`.
pub fn parse_classfile<'a>(input: &'a [u8]) -> (r: Result<(&'a [u8], ClassFile), DecodeError>)
    ensures
        refines(r, input@, spec_parse_classfile(input@)),
        r matches Ok((_, class_file)) ==> class_file.wf(),
{
    let (after_magic, _) = magic_ident(input)?;
    let (after_minor, minor_version) = read_u16(after_magic)?;
    let (after_major, major_version) = read_u16(after_minor)?;
    let (after_size, const_pool_size) = read_u16(after_major)?;
    assert(after_size@ =~= input@.skip(10));
    if const_pool_size == 0 {
        return Err(DecodeError::InvalidPoolSize);
    }
    let count: usize = (const_pool_size - 1) as usize;
    proof {
        lemma_pool_bounds(input@.skip(10), count as nat);
    }
    let (after_pool, const_pool) = parse_pool(after_size, count)?;
    let ghost tail = 10 + spec_parse_pool(input@.skip(10), count as nat)->Ok_0.0;
    let (after_flags, access_flags) = read_u16(after_pool)?;
    let (after_this, this_class) = read_u16(after_flags)?;
    let (after_super, super_class) = read_u16(after_this)?;
    let (rest, interfaces_count) = read_u16(after_super)?;
    assert(rest@ =~= input@.skip(tail + 8));
    Ok(
        (
            rest,
            ClassFile {
                minor_version,
                major_version,
                const_pool_size,
                const_pool,
                access_flags,
                this_class,
                super_class,
                interfaces_count,
            },
        ),
    )
}

/// Decodes the head of a class file from `bytes`. Bytes after the
/// `interfaces_count` field are ignored.
pub fn decode(bytes: &[u8]) -> (r: Result<ClassFile, DecodeError>)
    ensures
        match spec_decode(bytes@) {
            Ok(class_file) => r matches Ok(c) && c@ == class_file,
            Err(e) => r matches Err(f) && f == e,
        },
        r matches Ok(c) ==> c.wf(),
{
    match parse_classfile(bytes) {
        Ok((_, class_file)) => Ok(class_file),
        Err(e) => Err(e),
    }
}

} // verus!
