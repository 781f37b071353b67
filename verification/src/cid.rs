//! Content identifiers: decoding, the upgrade of the legacy encoding to
//! the canonical one, and the canonical text.
//!
//! The text codecs are those of the `libipld` crate. This module holds an
//! identifier as plain values (version, codec, hash code, digest), so that
//! the upgrade is ordinary verified code; only decoding and encoding of
//! text go through `libipld`.

use vstd::pervasive::unreached;
use vstd::prelude::*;
use crate::failure::Failure;
use crate::failure::FailureKind;
use crate::failure::is_diagnostic;

verus! {

/// The codec of a legacy identifier: a protobuf-encoded graph node.
pub const DAG_PB: u64 = 0x70;

/// The longest digest an identifier holds, in bytes.
pub const MAX_DIGEST_LEN: usize = 64;

/// The encoding version of an identifier.
#[derive(Clone, Copy, Debug, PartialEq, Eq, Structural)]
pub enum CidVersion {
    /// The legacy encoding.
    V0,
    /// The canonical encoding.
    V1,
}

/// A content identifier.
#[derive(Debug)]
pub struct ContentIdentifier {
    version: CidVersion,
    codec: u64,
    hash_code: u64,
    digest: Vec<u8>,
}

/// The mathematical value of a `ContentIdentifier`.
pub struct ContentIdentifierView {
    pub version: CidVersion,
    pub codec: u64,
    pub hash_code: u64,
    pub digest: Seq<u8>,
}

impl ContentIdentifierView {
    /// The canonical form: a legacy identifier of the legacy codec becomes
    /// a version 1 identifier of the same codec and hash; a legacy
    /// identifier of another codec has none; a canonical one is its own.
    pub open spec fn upgraded(self) -> Option<ContentIdentifierView> {
        match self.version {
            CidVersion::V0 => if self.codec == DAG_PB {
                Some(ContentIdentifierView { version: CidVersion::V1, ..self })
            } else {
                None
            },
            CidVersion::V1 => Some(self),
        }
    }
}

impl View for ContentIdentifier {
    type V = ContentIdentifierView;

    closed spec fn view(&self) -> ContentIdentifierView {
        ContentIdentifierView {
            version: self.version,
            codec: self.codec,
            hash_code: self.hash_code,
            digest: self.digest@,
        }
    }
}

/// What `libipld` decodes a text to: the identifier it stands for, or
/// nothing where the text is no valid identifier.
pub uninterp spec fn cid_decoding(text: Seq<char>) -> Option<ContentIdentifierView>;

/// The text `libipld` prints for the version 1 identifier of this codec
/// and hash.
pub uninterp spec fn cid_v1_text(codec: u64, hash_code: u64, digest: Seq<u8>) -> Seq<char>;

/// The canonical text of the identifier that `text` stands for.
pub open spec fn spec_canonical_identifier(text: Seq<char>) -> Option<Seq<char>> {
    match cid_decoding(text) {
        Some(c) => match c.upgraded() {
            Some(u) => Some(cid_v1_text(u.codec, u.hash_code, u.digest)),
            None => None,
        },
        None => None,
    }
}

/// Upgrading is idempotent: the canonical form of a canonical form is
/// that form itself, for an identifier in either encoding.
pub proof fn lemma_upgrade_idempotent(c: ContentIdentifierView)
    requires
        c.upgraded() is Some,
    ensures
        c.upgraded()->0.upgraded() == c.upgraded(),
        c.upgraded()->0.version == CidVersion::V1,
{
}

/// Where `libipld` reads the canonical text of `text` back as the canonical
/// form of the identifier, that text is its own canonical text: bringing
/// an identifier to its canonical text twice gives what once gives.
pub proof fn lemma_canonical_text_idempotent_where_read_back(text: Seq<char>)
    requires
        spec_canonical_identifier(text) is Some,
        cid_decoding(spec_canonical_identifier(text)->0) == cid_decoding(text)->0.upgraded(),
    ensures
        spec_canonical_identifier(spec_canonical_identifier(text)->0) == spec_canonical_identifier(
            text,
        ),
{
    lemma_upgrade_idempotent(cid_decoding(text)->0);
}

/// Upgrading changes the version only: codec and hash stay.
pub proof fn lemma_upgrade_keeps_hash(c: ContentIdentifierView)
    requires
        c.upgraded() is Some,
    ensures
        c.upgraded()->0.codec == c.codec,
        c.upgraded()->0.hash_code == c.hash_code,
        c.upgraded()->0.digest == c.digest,
{
}

/// `libipld::cid::Error`: why a text is no identifier. It is carried as
/// it is, and only its two texts are read.
#[verifier::external_type_specification]
#[verifier::external_body]
pub struct ExCidError(libipld::cid::Error);

/// `libipld::Cid::try_from(&str)`: decodes a text. The result is a
/// function of the text alone, named `cid_decoding`; a digest that was
/// decoded is at most `MAX_DIGEST_LEN` bytes long, the size `libipld::Cid`
/// allocates for it.
#[verifier::external_body]
fn decode_cid(text: &str) -> (r: Result<ContentIdentifier, libipld::cid::Error>)
    ensures
        r is Ok <==> cid_decoding(text@) is Some,
        r matches Ok(c) ==> cid_decoding(text@) == Some(c@) && c@.digest.len() <= MAX_DIGEST_LEN,
{
    match libipld::Cid::try_from(text) {
        Ok(cid) => Ok(
            ContentIdentifier {
                version: match cid.version() {
                    libipld::cid::Version::V0 => CidVersion::V0,
                    libipld::cid::Version::V1 => CidVersion::V1,
                },
                codec: cid.codec(),
                hash_code: cid.hash().code(),
                digest: cid.hash().digest().to_vec(),
            },
        ),
        Err(e) => Err(e),
    }
}

/// `libipld::Cid::new_v1` and its `Display`: the text of the version 1
/// identifier of this codec and hash, named `cid_v1_text`. There is none
/// where the digest is longer than `libipld::Multihash::wrap` takes.
#[verifier::external_body]
fn encode_cid_v1(codec: u64, hash_code: u64, digest: &[u8]) -> (r: Option<String>)
    ensures
        r is Some <==> digest@.len() <= MAX_DIGEST_LEN,
        r matches Some(s) ==> s@ == cid_v1_text(codec, hash_code, digest@),
{
    match libipld::Multihash::wrap(hash_code, digest) {
        Ok(hash) => Some(libipld::Cid::new_v1(codec, hash).to_string()),
        Err(_) => None,
    }
}

/// `libipld::cid::Error::InvalidCidV0Codec`: the error with which
/// `libipld` refuses a legacy identifier of a codec other than the legacy
/// one. Nothing is claimed of it.
#[verifier::external_body]
fn invalid_v0_codec() -> (e: libipld::cid::Error) {
    libipld::cid::Error::InvalidCidV0Codec
}

/// `Display` of `libipld::cid::Error`. Nothing is claimed of the text.
#[verifier::external_body]
fn cid_error_shown(e: &libipld::cid::Error) -> (r: String) {
    format!("{}", e)
}

/// `Debug` of `libipld::cid::Error`. Nothing is claimed of the text.
#[verifier::external_body]
fn cid_error_debugged(e: &libipld::cid::Error) -> (r: String) {
    format!("{:?}", e)
}

/// The validation failure that reports `e`.
fn validation_failure(e: &libipld::cid::Error) -> (f: Failure)
    ensures
        f@.kind == FailureKind::Validation,
        is_diagnostic(f@.detail),
{
    let shown = cid_error_shown(e);
    let debugged = cid_error_debugged(e);
    Failure::describe(FailureKind::Validation, shown.as_str(), debugged.as_str())
}

impl ContentIdentifier {
    #[verifier::type_invariant]
    spec fn digest_fits(self) -> bool {
        self.digest@.len() <= MAX_DIGEST_LEN
    }

    /// An identifier of these parts; none where the digest is longer than
    /// `MAX_DIGEST_LEN` bytes.
    pub fn new(version: CidVersion, codec: u64, hash_code: u64, digest: Vec<u8>) -> (r: Option<
        ContentIdentifier,
    >)
        ensures
            r is Some <==> digest@.len() <= MAX_DIGEST_LEN,
            r matches Some(c) ==> c@ == (ContentIdentifierView {
                version,
                codec,
                hash_code,
                digest: digest@,
            }),
    {
        if digest.len() <= MAX_DIGEST_LEN {
            Some(ContentIdentifier { version, codec, hash_code, digest })
        } else {
            None
        }
    }

    /// The encoding version.
    pub fn version(&self) -> (r: CidVersion)
        ensures
            r == self@.version,
    {
        self.version
    }

    /// The codec of the content.
    pub fn codec(&self) -> (r: u64)
        ensures
            r == self@.codec,
    {
        self.codec
    }

    /// The code of the hash function.
    pub fn hash_code(&self) -> (r: u64)
        ensures
            r == self@.hash_code,
    {
        self.hash_code
    }

    /// The digest.
    pub fn digest(&self) -> (r: &[u8])
        ensures
            r@ == self@.digest,
            r@.len() <= MAX_DIGEST_LEN,
    {
        proof {
            use_type_invariant(self);
        }
        self.digest.as_slice()
    }

    /// Decodes a text; a text that is no identifier is a validation failure.
    pub fn parse(text: &str) -> (r: Result<ContentIdentifier, Failure>)
        ensures
            r is Ok <==> cid_decoding(text@) is Some,
            r matches Ok(c) ==> cid_decoding(text@) == Some(c@),
            r matches Err(f) ==> f@.kind == FailureKind::Validation && is_diagnostic(f@.detail),
    {
        match decode_cid(text) {
            Ok(c) => Ok(c),
            Err(e) => Err(validation_failure(&e)),
        }
    }

    /// Upgrades to the canonical encoding. Fails, as a validation failure,
    /// for a legacy identifier whose codec is not the legacy codec: such
    /// an identifier has no canonical form.
    pub fn into_v1(self) -> (r: Result<ContentIdentifier, Failure>)
        ensures
            r is Ok <==> self@.upgraded() is Some,
            r matches Ok(c) ==> self@.upgraded() == Some(c@),
            r matches Err(f) ==> f@.kind == FailureKind::Validation && is_diagnostic(f@.detail),
    {
        proof {
            use_type_invariant(&self);
        }
        match self.version {
            CidVersion::V0 => {
                if self.codec == DAG_PB {
                    Ok(
                        ContentIdentifier {
                            version: CidVersion::V1,
                            codec: self.codec,
                            hash_code: self.hash_code,
                            digest: self.digest,
                        },
                    )
                } else {
                    Err(validation_failure(&invalid_v0_codec()))
                }
            },
            CidVersion::V1 => Ok(self),
        }
    }

    /// The text of the version 1 identifier of this codec and hash: for a
    /// canonical identifier, its own text.
    pub fn v1_text(&self) -> (r: String)
        ensures
            r@ == cid_v1_text(self@.codec, self@.hash_code, self@.digest),
    {
        proof {
            use_type_invariant(self);
        }
        match encode_cid_v1(self.codec, self.hash_code, self.digest.as_slice()) {
            Some(s) => s,
            None => unreached(),
        }
    }
}

/// Validates `text` as a content identifier and gives its canonical text:
/// decode, upgrade, print. Either step's failure is a validation failure.
pub fn canonical_identifier(text: &str) -> (r: Result<String, Failure>)
    ensures
        r is Ok <==> spec_canonical_identifier(text@) is Some,
        r matches Ok(s) ==> spec_canonical_identifier(text@) == Some(s@),
        r matches Err(f) ==> f@.kind == FailureKind::Validation && is_diagnostic(f@.detail),
{
    match ContentIdentifier::parse(text) {
        Ok(c) => match c.into_v1() {
            Ok(u) => Ok(u.v1_text()),
            Err(f) => Err(f),
        },
        Err(f) => Err(f),
    }
}

} // verus!
