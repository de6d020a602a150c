//! What identifies one run: the stream's address, a fingerprint of that
//! address used to name and group its output, and the caller's identifiers.

use vstd::prelude::*;
use vstd::utf8::*;
use crate::text::{hex_lower, hex_text};

verus! {

/// The MD5 digest of a byte string, as `md5::compute` gives it.
pub uninterp spec fn md5_of(data: Seq<u8>) -> Seq<u8>;

/// Calls `md5::compute` and takes the sixteen bytes out of its `Digest`.
/// Trusted: the bytes returned are the digest of `data`, the same for the same
/// bytes on every call.
#[verifier::external_body]
fn md5_digest(data: &[u8]) -> (digest: [u8; 16])
    ensures
        digest@ == md5_of(data@),
{
    md5::compute(data).0
}

/// The fingerprint of an address: the MD5 digest of its UTF-8 bytes in
/// lower-case hexadecimal.
pub open spec fn fingerprint_of(url: Seq<char>) -> Seq<char> {
    hex_lower(md5_of(encode_utf8(url)))
}

/// Computes the fingerprint of `url`: thirty-two hexadecimal characters.
pub fn url_fingerprint(url: &str) -> (fingerprint: String)
    ensures
        fingerprint@ == fingerprint_of(url@),
        fingerprint@.len() == 32,
{
    let digest: [u8; 16] = md5_digest(url.as_bytes());
    hex_text(digest.as_slice())
}

/// One run over one stream. Immutable once made.
pub struct StreamSession {
    url: String,
    fingerprint: String,
    uuid: String,
    project_uuid: String,
    organization_uuid: String,
    budget_nanos: u128,
}

/// The mathematical content of a [`StreamSession`].
pub struct StreamSessionView {
    pub url: Seq<char>,
    pub fingerprint: Seq<char>,
    pub uuid: Seq<char>,
    pub project_uuid: Seq<char>,
    pub organization_uuid: Seq<char>,
    pub budget_nanos: nat,
}

impl View for StreamSession {
    type V = StreamSessionView;

    closed spec fn view(&self) -> StreamSessionView {
        StreamSessionView {
            url: self.url@,
            fingerprint: self.fingerprint@,
            uuid: self.uuid@,
            project_uuid: self.project_uuid@,
            organization_uuid: self.organization_uuid@,
            budget_nanos: self.budget_nanos as nat,
        }
    }
}

impl StreamSession {
    /// Starts a session on `url` for the given subject, project and
    /// organization, bounded by `budget_nanos` of wall-clock time. The
    /// fingerprint is derived from the address.
    pub fn open(
        url: &str,
        uuid: &str,
        project_uuid: &str,
        organization_uuid: &str,
        budget_nanos: u128,
    ) -> (session: StreamSession)
        ensures
            session@ == (StreamSessionView {
                url: url@,
                fingerprint: fingerprint_of(url@),
                uuid: uuid@,
                project_uuid: project_uuid@,
                organization_uuid: organization_uuid@,
                budget_nanos: budget_nanos as nat,
            }),
    {
        StreamSession {
            url: url.to_owned(),
            fingerprint: url_fingerprint(url),
            uuid: uuid.to_owned(),
            project_uuid: project_uuid.to_owned(),
            organization_uuid: organization_uuid.to_owned(),
            budget_nanos,
        }
    }

    pub fn url(&self) -> (url: &str)
        ensures
            url@ == self@.url,
    {
        self.url.as_str()
    }

    pub fn fingerprint(&self) -> (fingerprint: &str)
        ensures
            fingerprint@ == self@.fingerprint,
    {
        self.fingerprint.as_str()
    }

    pub fn uuid(&self) -> (uuid: &str)
        ensures
            uuid@ == self@.uuid,
    {
        self.uuid.as_str()
    }

    pub fn project_uuid(&self) -> (project_uuid: &str)
        ensures
            project_uuid@ == self@.project_uuid,
    {
        self.project_uuid.as_str()
    }

    pub fn organization_uuid(&self) -> (organization_uuid: &str)
        ensures
            organization_uuid@ == self@.organization_uuid,
    {
        self.organization_uuid.as_str()
    }

    pub fn budget_nanos(&self) -> (budget_nanos: u128)
        ensures
            budget_nanos == self@.budget_nanos,
    {
        self.budget_nanos
    }
}

} // verus!
