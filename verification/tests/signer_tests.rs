use pdf_gateway::chain::Credential;
use pdf_gateway::signer::Method;
use pdf_gateway::signer::RequestDescriptor;
use pdf_gateway::signer::SignError;
use pdf_gateway::signer::sign_request;

use rsa::pkcs8::EncodePrivateKey;
use rsa::pkcs8::LineEnding;

/// A small deterministic generator, good enough to grow a test key.
struct TestRng(u64);

impl rsa::rand_core::RngCore for TestRng {
    fn next_u32(&mut self) -> u32 {
        self.next_u64() as u32
    }

    fn next_u64(&mut self) -> u64 {
        let mut x = self.0;
        x ^= x << 13;
        x ^= x >> 7;
        x ^= x << 17;
        self.0 = x;
        x
    }

    fn fill_bytes(&mut self, dest: &mut [u8]) {
        for chunk in dest.chunks_mut(8) {
            let bytes = self.next_u64().to_le_bytes();
            chunk.copy_from_slice(&bytes[..chunk.len()]);
        }
    }

    fn try_fill_bytes(&mut self, dest: &mut [u8]) -> Result<(), rsa::rand_core::Error> {
        self.fill_bytes(dest);
        Ok(())
    }
}

impl rsa::rand_core::CryptoRng for TestRng {}

fn test_key() -> (rsa::RsaPrivateKey, Vec<u8>) {
    let mut rng = TestRng(0x1234_5678_9abc_def1);
    let key = rsa::RsaPrivateKey::new(&mut rng, 1024).expect("key generation");
    let pem = key.to_pkcs8_pem(LineEnding::LF).expect("pem encoding");
    (key, pem.as_bytes().to_vec())
}

fn test_cred() -> Credential {
    Credential {
        tenancy: "ocid1.tenancy.oc1..t".to_string(),
        user: "ocid1.user.oc1..u".to_string(),
        key_file: "/keys/key.pem".to_string(),
        fingerprint: "12:34:56".to_string(),
        region: None,
    }
}

fn descriptor() -> RequestDescriptor {
    RequestDescriptor {
        method: Method::Get,
        host: "objectstorage.eu-amsterdam-1.oraclecloud.com".to_string(),
        path_and_query: "/n/axazr4elhg0l/b/pdfstore/o/report.pdf".to_string(),
    }
}

const DATE_A: &str = "Thu, 05 Jan 2023 21:31:40 GMT";
const DATE_B: &str = "Thu, 05 Jan 2023 21:31:41 GMT";

#[test]
fn signing_succeeds_and_attaches_signature_headers() {
    let (_, pem) = test_key();
    let signed = sign_request(descriptor(), &test_cred(), &pem, &DATE_A.to_string()).unwrap();
    assert_eq!(signed.descriptor, descriptor());
    assert_eq!(signed.date, DATE_A);
    let auth = &signed.authorization;
    assert!(auth.starts_with("Signature version=\"1\","));
    assert!(auth.contains("headers=\"date (request-target) host\""));
    assert!(auth.contains("keyId=\"ocid1.tenancy.oc1..t/ocid1.user.oc1..u/12:34:56\""));
    assert!(auth.contains("algorithm=\"rsa-sha256\""));
    assert!(auth.contains("signature=\""));
}

#[test]
fn signing_is_deterministic_for_fixed_inputs() {
    let (_, pem) = test_key();
    let first = sign_request(descriptor(), &test_cred(), &pem, &DATE_A.to_string()).unwrap();
    let second = sign_request(descriptor(), &test_cred(), &pem, &DATE_A.to_string()).unwrap();
    assert_eq!(first.date, second.date);
    assert_eq!(first.authorization, second.authorization);
    assert_eq!(first.descriptor, second.descriptor);
}

#[test]
fn different_timestamps_produce_different_signature_headers() {
    let (_, pem) = test_key();
    let first = sign_request(descriptor(), &test_cred(), &pem, &DATE_A.to_string()).unwrap();
    let second = sign_request(descriptor(), &test_cred(), &pem, &DATE_B.to_string()).unwrap();
    assert_ne!(first.date, second.date);
    assert_ne!(first.authorization, second.authorization);
}

#[test]
fn signature_verifies_under_the_public_key() {
    let (key, pem) = test_key();
    let signed = sign_request(descriptor(), &test_cred(), &pem, &DATE_A.to_string()).unwrap();

    // Extract the base64 signature from the authorization header.
    let auth = &signed.authorization;
    let marker = "signature=\"";
    let start = auth.find(marker).expect("signature field") + marker.len();
    let rest = &auth[start..];
    let end = rest.find('"').expect("closing quote");
    let sig_b64 = &rest[..end];
    let sig_bytes =
        base64::Engine::decode(&base64::engine::general_purpose::STANDARD, sig_b64).unwrap();

    let expected_string_to_sign = format!(
        "date: {}\n(request-target): get {}\nhost: {}",
        DATE_A,
        descriptor().path_and_query,
        descriptor().host,
    );

    let verifying_key =
        rsa::pkcs1v15::VerifyingKey::<rsa::sha2::Sha256>::new(rsa::RsaPublicKey::from(&key));
    let signature = rsa::pkcs1v15::Signature::try_from(sig_bytes.as_slice()).unwrap();
    rsa::signature::Verifier::verify(
        &verifying_key,
        expected_string_to_sign.as_bytes(),
        &signature,
    )
    .expect("the attached signature must verify over the canonical string");
}

#[test]
fn unreadable_key_material_is_malformed_credential() {
    let pem = b"not a key at all".to_vec();
    let r = sign_request(descriptor(), &test_cred(), &pem, &DATE_A.to_string());
    assert_eq!(r.unwrap_err(), SignError::MalformedCredential);
}

#[test]
fn control_characters_in_signed_values_are_unsupported() {
    let (_, pem) = test_key();
    let date = "Thu, 05 Jan 2023\n21:31:40 GMT".to_string();
    let r = sign_request(descriptor(), &test_cred(), &pem, &date);
    assert_eq!(r.unwrap_err(), SignError::UnsupportedHeader);

    let mut desc = descriptor();
    desc.host = "evil\nhost".to_string();
    let r = sign_request(desc, &test_cred(), &pem, &DATE_A.to_string());
    assert_eq!(r.unwrap_err(), SignError::UnsupportedHeader);
}
