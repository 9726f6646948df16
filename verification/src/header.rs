//! The ten-byte header: its layout, the bytes written on creation, and the
//! validation routine run on open.
//!
//! A well-formed file starts with the eight big-endian bytes of its magic
//! number, then the two big-endian bytes of its version, and carries opaque
//! payload from byte offset ten on.

use vstd::prelude::*;

use crate::codec::{
    lemma_u16_be_bytes_inverse, lemma_u16_be_bytes_roundtrip, lemma_u64_be_bytes_inverse,
    lemma_u64_be_bytes_roundtrip, spec_u16_from_be_bytes, spec_u16_to_be_bytes,
    spec_u64_from_be_bytes, spec_u64_to_be_bytes, u16_from_be_bytes, u16_to_be_bytes,
    u64_from_be_bytes, u64_to_be_bytes,
};
use crate::errors::BinFileError;
use crate::HEADER_LEN;

verus! {

/// The ten header bytes for a given magic and version: the magic's eight
/// big-endian bytes followed by the version's two.
pub open spec fn spec_header_bytes(magic: u64, version: u16) -> Seq<u8> {
    spec_u64_to_be_bytes(magic) + spec_u16_to_be_bytes(version)
}

/// The payload of a file: everything after the ten-byte header.
pub open spec fn spec_payload(content: Seq<u8>) -> Seq<u8>
    recommends
        content.len() >= HEADER_LEN,
{
    content.subrange(HEADER_LEN as int, content.len() as int)
}

/// What validating a file's bytes against a configured magic and version
/// decides.
///
/// `Truncated` stands for a file too short to hold the field under scrutiny;
/// such a file is surfaced to callers as the byte stream's own short-read
/// failure, not as a mismatch. The magic is inspected first, so a file of at
/// least eight bytes whose magic is wrong is rejected for its magic even when
/// the version bytes are missing.
pub enum HeaderVerdict {
    /// The header matches the configured magic and version.
    Accept,
    /// The file ends before the field being checked is complete.
    Truncated,
    /// The first eight bytes decode to `actual`, not to the configured magic.
    RejectMagic {
        /// The configured magic number.
        expected: u64,
        /// The magic number the file starts with.
        actual: u64,
    },
    /// The magic matches but bytes eight and nine decode to `actual`, not to
    /// the configured version.
    RejectVersion {
        /// The configured version.
        expected: u16,
        /// The version the file carries.
        actual: u16,
    },
}

/// The validation algorithm shared by every open: check the first eight bytes
/// against the magic, then the next two against the version.
pub open spec fn spec_validate(magic: u64, version: u16, content: Seq<u8>) -> HeaderVerdict {
    if content.len() < 8 {
        HeaderVerdict::Truncated
    } else if content.subrange(0, 8) != spec_u64_to_be_bytes(magic) {
        HeaderVerdict::RejectMagic {
            expected: magic,
            actual: spec_u64_from_be_bytes(content.subrange(0, 8)),
        }
    } else if content.len() < HEADER_LEN {
        HeaderVerdict::Truncated
    } else if content.subrange(8, HEADER_LEN as int) != spec_u16_to_be_bytes(version) {
        HeaderVerdict::RejectVersion {
            expected: version,
            actual: spec_u16_from_be_bytes(content.subrange(8, HEADER_LEN as int)),
        }
    } else {
        HeaderVerdict::Accept
    }
}

/// Builds the ten header bytes to write at the start of a newly created file.
pub fn encode_header(magic: u64, version: u16) -> (h: Vec<u8>)
    ensures
        h@ == spec_header_bytes(magic, version),
        h@.len() == HEADER_LEN,
{
    let mut h = u64_to_be_bytes(magic);
    let mut v = u16_to_be_bytes(version);
    h.append(&mut v);
    proof {
        assert(h@ =~= spec_header_bytes(magic, version));
    }
    h
}

/// The payload region of a file's bytes: everything after the ten-byte
/// header, exactly what reading to the end from offset ten returns.
pub fn payload_of<'a>(content: &'a [u8]) -> (p: &'a [u8])
    requires
        content@.len() >= HEADER_LEN,
    ensures
        p@ == spec_payload(content@),
{
    let (_, p) = content.split_at(HEADER_LEN);
    proof {
        assert(p@ =~= spec_payload(content@));
    }
    p
}

/// Checks the first eight bytes of a file against the configured magic
/// number. Returns `Ok` exactly when the bytes are the magic's big-endian
/// encoding; otherwise reports the configured magic and the value the bytes
/// decode to.
pub fn check_magic(expected: u64, bytes: &[u8], filename: &str) -> (r: Result<(), BinFileError>)
    requires
        bytes@.len() == 8,
    ensures
        r is Ok <==> bytes@ == spec_u64_to_be_bytes(expected),
        r is Err ==> ({
            &&& r->Err_0 matches BinFileError::InvalidMagic { filename: f, expected: e, actual: a }
            &&& f@ == filename@
            &&& e == expected
            &&& a == spec_u64_from_be_bytes(bytes@)
        }),
{
    let actual = u64_from_be_bytes(bytes);
    proof {
        lemma_u64_be_bytes_roundtrip(expected);
        lemma_u64_be_bytes_inverse(bytes@);
    }
    if actual == expected {
        Ok(())
    } else {
        Err(
            BinFileError::InvalidMagic {
                filename: filename.to_owned(),
                expected,
                actual,
            },
        )
    }
}

/// Checks bytes eight and nine of a file against the configured version.
/// Returns `Ok` exactly when the bytes are the version's big-endian encoding;
/// otherwise reports the configured version and the value the bytes decode
/// to.
pub fn check_version(expected: u16, bytes: &[u8], filename: &str) -> (r: Result<(), BinFileError>)
    requires
        bytes@.len() == 2,
    ensures
        r is Ok <==> bytes@ == spec_u16_to_be_bytes(expected),
        r is Err ==> ({
            &&& r->Err_0 matches BinFileError::InvalidVersion {
                filename: f,
                expected: e,
                actual: a,
            }
            &&& f@ == filename@
            &&& e == expected
            &&& a == spec_u16_from_be_bytes(bytes@)
        }),
{
    let actual = u16_from_be_bytes(bytes);
    proof {
        lemma_u16_be_bytes_roundtrip(expected);
        lemma_u16_be_bytes_inverse(bytes@);
    }
    if actual == expected {
        Ok(())
    } else {
        Err(
            BinFileError::InvalidVersion {
                filename: filename.to_owned(),
                expected,
                actual,
            },
        )
    }
}

/// Validates a complete ten-byte header: the magic first, then the version.
/// The result follows `spec_validate` on those ten bytes; a full header is
/// never `Truncated`.
pub fn check_header(magic: u64, version: u16, header: &[u8], filename: &str) -> (r: Result<
    (),
    BinFileError,
>)
    requires
        header@.len() == HEADER_LEN,
    ensures
        r is Ok <==> spec_validate(magic, version, header@) is Accept,
        spec_validate(magic, version, header@) matches HeaderVerdict::RejectMagic {
            expected: e,
            actual: a,
        } ==> ({
            &&& r matches Err(
                BinFileError::InvalidMagic { filename: f, expected: e2, actual: a2 },
            )
            &&& f@ == filename@
            &&& e2 == e
            &&& a2 == a
        }),
        spec_validate(magic, version, header@) matches HeaderVerdict::RejectVersion {
            expected: e,
            actual: a,
        } ==> ({
            &&& r matches Err(
                BinFileError::InvalidVersion { filename: f, expected: e2, actual: a2 },
            )
            &&& f@ == filename@
            &&& e2 == e
            &&& a2 == a
        }),
{
    let (magic_bytes, version_bytes) = header.split_at(8);
    let magic_check = check_magic(magic, magic_bytes, filename);
    proof {
        assert(magic_bytes@ == header@.subrange(0, 8));
        assert(version_bytes@ == header@.subrange(8, HEADER_LEN as int));
    }
    match magic_check {
        Err(e) => Err(e),
        Ok(()) => check_version(version, version_bytes, filename),
    }
}

/// Round trip: a file written as the header for `magic` and `version`
/// followed by any payload is ten bytes of header plus the payload, its
/// first ten bytes are exactly that header, validation accepts it, and its
/// payload region reads back byte for byte. In particular the payload begins
/// at byte offset ten.
pub proof fn lemma_header_round_trip(magic: u64, version: u16, payload: Seq<u8>)
    ensures
        spec_header_bytes(magic, version).len() == HEADER_LEN,
        (spec_header_bytes(magic, version) + payload).len() == HEADER_LEN + payload.len(),
        (spec_header_bytes(magic, version) + payload).subrange(0, HEADER_LEN as int)
            == spec_header_bytes(magic, version),
        spec_validate(magic, version, spec_header_bytes(magic, version) + payload)
            == HeaderVerdict::Accept,
        spec_payload(spec_header_bytes(magic, version) + payload) == payload,
{
    let content = spec_header_bytes(magic, version) + payload;
    lemma_u64_be_bytes_roundtrip(magic);
    lemma_u16_be_bytes_roundtrip(version);
    assert(content.subrange(0, HEADER_LEN as int) =~= spec_header_bytes(magic, version));
    assert(content.subrange(0, 8) =~= spec_u64_to_be_bytes(magic));
    assert(content.subrange(8, HEADER_LEN as int) =~= spec_u16_to_be_bytes(version));
    assert(spec_payload(content) =~= payload);
}

/// Magic mismatch detection: a file written with one magic number and opened
/// against another is rejected for its magic, whatever the two versions and
/// the payload, and the verdict carries the configured magic as expected and
/// the written magic as actual.
pub proof fn lemma_magic_mismatch(
    written_magic: u64,
    written_version: u16,
    magic: u64,
    version: u16,
    payload: Seq<u8>,
)
    requires
        written_magic != magic,
    ensures
        spec_validate(magic, version, spec_header_bytes(written_magic, written_version) + payload)
            == (HeaderVerdict::RejectMagic { expected: magic, actual: written_magic }),
{
    let content = spec_header_bytes(written_magic, written_version) + payload;
    lemma_u64_be_bytes_roundtrip(written_magic);
    lemma_u64_be_bytes_roundtrip(magic);
    assert(content.subrange(0, 8) =~= spec_u64_to_be_bytes(written_magic));
    assert(content.subrange(0, 8) != spec_u64_to_be_bytes(magic)) by {
        if content.subrange(0, 8) == spec_u64_to_be_bytes(magic) {
            assert(spec_u64_from_be_bytes(spec_u64_to_be_bytes(written_magic))
                == spec_u64_from_be_bytes(spec_u64_to_be_bytes(magic)));
        }
    }
}

/// Version mismatch detection: a file written with the right magic but
/// another version is rejected for its version, whatever the payload, and
/// the verdict carries the configured version as expected and the written
/// version as actual.
pub proof fn lemma_version_mismatch(
    magic: u64,
    written_version: u16,
    version: u16,
    payload: Seq<u8>,
)
    requires
        written_version != version,
    ensures
        spec_validate(magic, version, spec_header_bytes(magic, written_version) + payload) == (
        HeaderVerdict::RejectVersion { expected: version, actual: written_version }),
{
    let content = spec_header_bytes(magic, written_version) + payload;
    lemma_u64_be_bytes_roundtrip(magic);
    lemma_u16_be_bytes_roundtrip(written_version);
    lemma_u16_be_bytes_roundtrip(version);
    assert(content.subrange(0, 8) =~= spec_u64_to_be_bytes(magic));
    assert(content.subrange(8, HEADER_LEN as int) =~= spec_u16_to_be_bytes(written_version));
    assert(content.subrange(8, HEADER_LEN as int) != spec_u16_to_be_bytes(version)) by {
        if content.subrange(8, HEADER_LEN as int) == spec_u16_to_be_bytes(version) {
            assert(spec_u16_from_be_bytes(spec_u16_to_be_bytes(written_version))
                == spec_u16_from_be_bytes(spec_u16_to_be_bytes(version)));
        }
    }
}

/// Read-write continuity: appending bytes to a well-formed file leaves the
/// header untouched and still valid, and the payload afterwards is the old
/// payload followed by the new bytes.
pub proof fn lemma_append_keeps_header(magic: u64, version: u16, payload: Seq<u8>, extra: Seq<u8>)
    ensures
        spec_validate(magic, version, (spec_header_bytes(magic, version) + payload) + extra)
            == HeaderVerdict::Accept,
        ((spec_header_bytes(magic, version) + payload) + extra).subrange(0, HEADER_LEN as int)
            == spec_header_bytes(magic, version),
        spec_payload((spec_header_bytes(magic, version) + payload) + extra) == payload + extra,
{
    assert((spec_header_bytes(magic, version) + payload) + extra =~= spec_header_bytes(
        magic,
        version,
    ) + (payload + extra));
    lemma_header_round_trip(magic, version, payload + extra);
}

} // verus!
