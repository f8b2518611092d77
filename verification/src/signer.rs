//! Canonical request signing for the storage backend.
//!
//! The signer builds the canonical signing string from the request line and
//! the agreed header subset (`date (request-target) host`), computes a
//! keyed digest of it with the credential's private key, and yields the two
//! signature headers: the timestamp header and an authorization header
//! carrying the key id (tenancy, user and fingerprint) and the encoded
//! signature. Signing is pure apart from the timestamp input, which the
//! host reads from its clock once per operation and hands in as a value.

use vstd::prelude::*;
use vstd::string::*;
use vstd::utf8::encode_utf8;

use crate::chain::Credential;
use crate::crypto::base64_standard;
use crate::crypto::base64_encode;
use crate::crypto::rsa_sha256_sign;
use crate::crypto::rsa_sha256_signature;

verus! {

/// The HTTP method of an outbound request.
#[derive(Debug, PartialEq, Eq, Structural, Clone, Copy)]
pub enum Method {
    /// Read an object or a listing.
    Get,
    /// Probe an object.
    Head,
}

/// The lower-case name of a method, as the canonical request line wants it.
pub open spec fn method_lower_spec(m: Method) -> Seq<char> {
    match m {
        Method::Get => "get"@,
        Method::Head => "head"@,
    }
}

/// Render the lower-case method name for the canonical request line.
pub fn method_lower(m: &Method) -> (r: &'static str)
    ensures
        r@ == method_lower_spec(*m),
{
    match m {
        Method::Get => "get",
        Method::Head => "head",
    }
}

/// An unsigned outbound request: a value, never mutated by the signer.
#[derive(Debug, PartialEq, Eq)]
pub struct RequestDescriptor {
    /// Method of the request.
    pub method: Method,
    /// Host the request goes to.
    pub host: String,
    /// Path and query of the request, as sent on the wire.
    pub path_and_query: String,
}

impl Clone for RequestDescriptor {
    fn clone(&self) -> (r: Self)
        ensures
            r == *self,
    {
        RequestDescriptor {
            method: self.method,
            host: self.host.clone(),
            path_and_query: self.path_and_query.clone(),
        }
    }
}

/// A signed request: the untouched descriptor plus the signature header
/// set. Produced by [`sign_request`], never assembled by callers.
#[derive(Debug, PartialEq, Eq)]
pub struct SignedRequest {
    /// The descriptor that was signed, unchanged.
    pub descriptor: RequestDescriptor,
    /// Value of the timestamp header that was signed.
    pub date: String,
    /// Value of the authorization header: key id, algorithm and signature.
    pub authorization: String,
}

/// Why one signing attempt failed. Either way nothing of the descriptor is
/// changed: signing is all-or-nothing.
#[derive(Debug, PartialEq, Eq, Structural, Clone, Copy)]
pub enum SignError {
    /// The credential's key material could not be read or used.
    MalformedCredential,
    /// A value destined for the canonical string cannot be safely encoded.
    UnsupportedHeader,
}

/// A value may enter the canonical signing string only if it holds no
/// control character: one could forge header boundaries inside the string.
pub open spec fn header_value_safe(s: Seq<char>) -> bool {
    forall|i: int| 0 <= i < s.len() ==> (s[i] as u32) >= 0x20
}

/// Check that a value is safe for the canonical signing string.
pub fn check_header_value(s: &String) -> (r: bool)
    ensures
        r == header_value_safe(s@),
{
    let n = s.as_str().unicode_len();
    let mut i: usize = 0;
    while i < n
        invariant
            n == s@.len(),
            i <= n,
            forall|j: int| 0 <= j < i ==> (s@[j] as u32) >= 0x20,
        decreases n - i,
    {
        let c = s.as_str().get_char(i);
        if (c as u32) < 0x20 {
            return false;
        }
        i = i + 1;
    }
    true
}

/// The canonical signing string: the timestamp line, the request line and
/// the host line, in the agreed order.
pub open spec fn string_to_sign_spec(desc: RequestDescriptor, date: Seq<char>) -> Seq<char> {
    "date: "@ + date + "\n(request-target): "@ + method_lower_spec(desc.method) + " "@
        + desc.path_and_query@ + "\nhost: "@ + desc.host@
}

/// The key id that lets the backend locate the matching public key:
/// tenancy, user and key fingerprint.
pub open spec fn key_id_spec(cred: Credential) -> Seq<char> {
    cred.tenancy@ + "/"@ + cred.user@ + "/"@ + cred.fingerprint@
}

/// The authorization header value for a given key id and encoded signature.
pub open spec fn auth_header_spec(cred: Credential, sig64: Seq<char>) -> Seq<char> {
    "Signature version=\"1\",headers=\"date (request-target) host\",keyId=\""@ + key_id_spec(cred)
        + "\",algorithm=\"rsa-sha256\",signature=\""@ + sig64 + "\""@
}

/// The inputs woven into the canonical string must all be safe.
pub open spec fn signing_inputs_safe(desc: RequestDescriptor, date: Seq<char>) -> bool {
    &&& header_value_safe(date)
    &&& header_value_safe(desc.host@)
    &&& header_value_safe(desc.path_and_query@)
}

/// The signature the key in `key_pem` produces over the canonical string
/// of `desc` and `date`, if it produces one.
pub open spec fn signature_of(desc: RequestDescriptor, key_pem: Seq<u8>, date: Seq<char>)
    -> Option<Seq<u8>> {
    rsa_sha256_signature(key_pem, encode_utf8(string_to_sign_spec(desc, date)))
}

/// What a signed request must look like for given inputs: the descriptor
/// untouched, the timestamp header equal to the timestamp input, and the
/// authorization header carrying the key id and the encoded signature over
/// the canonical string.
pub open spec fn signed_request_matches(
    sr: SignedRequest,
    desc: RequestDescriptor,
    cred: Credential,
    key_pem: Seq<u8>,
    date: Seq<char>,
) -> bool {
    &&& sr.descriptor == desc
    &&& sr.date@ == date
    &&& signature_of(desc, key_pem, date) is Some
    &&& sr.authorization@ == auth_header_spec(
        cred,
        base64_standard(signature_of(desc, key_pem, date)->Some_0),
    )
}

/// Build the canonical signing string.
fn build_string_to_sign(desc: &RequestDescriptor, date: &String) -> (r: String)
    ensures
        r@ == string_to_sign_spec(*desc, date@),
{
    let mut s = String::from_str("date: ");
    s.append(date.as_str());
    s.append("\n(request-target): ");
    s.append(method_lower(&desc.method));
    s.append(" ");
    s.append(desc.path_and_query.as_str());
    s.append("\nhost: ");
    s.append(desc.host.as_str());
    proof {
        assert(s@ =~= string_to_sign_spec(*desc, date@));
    }
    s
}

/// Build the authorization header value from the credential's key id and
/// the encoded signature.
fn build_auth_header(cred: &Credential, sig64: &String) -> (r: String)
    ensures
        r@ == auth_header_spec(*cred, sig64@),
{
    let mut s = String::from_str(
        "Signature version=\"1\",headers=\"date (request-target) host\",keyId=\"",
    );
    s.append(cred.tenancy.as_str());
    s.append("/");
    s.append(cred.user.as_str());
    s.append("/");
    s.append(cred.fingerprint.as_str());
    s.append("\",algorithm=\"rsa-sha256\",signature=\"");
    s.append(sig64.as_str());
    s.append("\"");
    proof {
        assert(s@ =~= auth_header_spec(*cred, sig64@));
    }
    s
}

/// Sign one request: all-or-nothing, deterministic given the descriptor,
/// the credential's key material and the timestamp.
///
/// Fails with `UnsupportedHeader` when a value destined for the canonical
/// string cannot be safely encoded, and with `MalformedCredential` when
/// the key material cannot be read or used; exactly otherwise it succeeds,
/// and the signed request carries the descriptor unchanged.
pub fn sign_request(
    desc: RequestDescriptor,
    cred: &Credential,
    key_pem: &Vec<u8>,
    date: &String,
) -> (r: Result<SignedRequest, SignError>)
    ensures
        r matches Ok(sr) ==> signed_request_matches(sr, desc, *cred, key_pem@, date@),
        r is Ok <==> signing_inputs_safe(desc, date@) && signature_of(desc, key_pem@, date@)
            is Some,
        r == Err::<SignedRequest, SignError>(SignError::UnsupportedHeader) <==> !signing_inputs_safe(
            desc,
            date@,
        ),
        r == Err::<SignedRequest, SignError>(SignError::MalformedCredential) <==> (
        signing_inputs_safe(desc, date@) && signature_of(desc, key_pem@, date@) is None),
{
    if !(check_header_value(date) && check_header_value(&desc.host) && check_header_value(
        &desc.path_and_query,
    )) {
        return Err(SignError::UnsupportedHeader);
    }
    let string_to_sign = build_string_to_sign(&desc, date);
    let sig = match rsa_sha256_sign(key_pem.as_slice(), string_to_sign.as_str().as_bytes()) {
        Some(sig) => sig,
        None => {
            return Err(SignError::MalformedCredential);
        },
    };
    let sig64 = base64_encode(&sig);
    let authorization = build_auth_header(cred, &sig64);
    Ok(SignedRequest { descriptor: desc, date: date.clone(), authorization })
}

/// Signing is deterministic: two signed requests produced from one
/// descriptor, one credential, one key and one timestamp agree on every
/// header.
pub proof fn lemma_signing_deterministic(
    sr1: SignedRequest,
    sr2: SignedRequest,
    desc: RequestDescriptor,
    cred: Credential,
    key_pem: Seq<u8>,
    date: Seq<char>,
)
    requires
        signed_request_matches(sr1, desc, cred, key_pem, date),
        signed_request_matches(sr2, desc, cred, key_pem, date),
    ensures
        sr1.descriptor == sr2.descriptor,
        sr1.date@ == sr2.date@,
        sr1.authorization@ == sr2.authorization@,
{
}

/// Two signings that differ only in the timestamp produce different
/// signature header values: the timestamp header, which is part of the
/// signed header set, differs, and so does the canonical string that was
/// signed.
pub proof fn lemma_timestamp_distinguishes(
    sr1: SignedRequest,
    sr2: SignedRequest,
    desc: RequestDescriptor,
    cred: Credential,
    key_pem: Seq<u8>,
    date1: Seq<char>,
    date2: Seq<char>,
)
    requires
        signed_request_matches(sr1, desc, cred, key_pem, date1),
        signed_request_matches(sr2, desc, cred, key_pem, date2),
        date1 != date2,
    ensures
        sr1.date@ != sr2.date@,
        string_to_sign_spec(desc, date1) != string_to_sign_spec(desc, date2),
{
    lemma_string_to_sign_injective_in_date(desc, date1, date2);
}

/// The canonical string determines the timestamp that went into it.
proof fn lemma_string_to_sign_injective_in_date(
    desc: RequestDescriptor,
    date1: Seq<char>,
    date2: Seq<char>,
)
    requires
        date1 != date2,
    ensures
        string_to_sign_spec(desc, date1) != string_to_sign_spec(desc, date2),
{
    reveal_strlit("date: ");
    let s1 = string_to_sign_spec(desc, date1);
    let s2 = string_to_sign_spec(desc, date2);
    let p = "date: "@;
    if date1.len() == date2.len() {
        assert(exists|i: int| 0 <= i < date1.len() && date1[i] != date2[i]) by {
            if forall|i: int| 0 <= i < date1.len() ==> date1[i] == date2[i] {
                assert(date1 =~= date2);
            }
        }
        let i = choose|i: int| 0 <= i < date1.len() && date1[i] != date2[i];
        assert(s1[p.len() + i] == date1[i]);
        assert(s2[p.len() + i] == date2[i]);
        assert(s1 != s2);
    } else {
        assert(s1.len() != s2.len());
    }
}

} // verus!
