//! Declarations and trusted wrappers for the pieces of the HTTP transport
//! that the library configures and inspects: building the underlying
//! client (optionally with an extra root certificate), parsing
//! certificates, and reading a response's status code. Performing a
//! request is left to the caller; nothing here touches the network.
use vstd::prelude::*;

verus! {

/// reqwest's error type, carried opaquely inside the error taxonomy.
#[verifier::external_type_specification]
#[verifier::external_body]
pub struct ExReqwestError(reqwest::Error);

/// A root certificate for the transport, carried opaquely.
#[verifier::external_type_specification]
#[verifier::external_body]
pub struct ExCertificate(reqwest::Certificate);

/// The blocking HTTP client the library configures and owns.
#[verifier::external_type_specification]
#[verifier::external_body]
pub struct ExBlockingClient(reqwest::blocking::Client);

/// The builder the transport is assembled on before it is finalized.
#[verifier::external_type_specification]
#[verifier::external_body]
pub struct ExBlockingClientBuilder(reqwest::blocking::ClientBuilder);

/// A raw HTTP response; the library reads only its status code.
#[verifier::external_type_specification]
#[verifier::external_body]
pub struct ExBlockingResponse(reqwest::blocking::Response);

/// serde_json's error type, carried opaquely when a body fails to decode.
#[verifier::external_type_specification]
#[verifier::external_body]
pub struct ExJsonError(serde_json::Error);

/// Relies on reqwest::blocking::Client::builder: a fresh transport builder
/// with default settings.
#[verifier::external_body]
pub(crate) fn client_builder() -> reqwest::blocking::ClientBuilder {
    reqwest::blocking::Client::builder()
}

/// Relies on reqwest::blocking::ClientBuilder::add_root_certificate:
/// registers an additional trusted root on the transport being built.
#[verifier::external_body]
pub(crate) fn builder_add_root_certificate(
    builder: reqwest::blocking::ClientBuilder,
    cert: reqwest::Certificate,
) -> reqwest::blocking::ClientBuilder {
    builder.add_root_certificate(cert)
}

/// Relies on reqwest::blocking::ClientBuilder::build: finalizes the
/// transport; fails if the underlying TLS backend cannot be initialized.
#[verifier::external_body]
pub(crate) fn builder_build(builder: reqwest::blocking::ClientBuilder) -> Result<
    reqwest::blocking::Client,
    reqwest::Error,
> {
    builder.build()
}

/// How many certificates the given bytes hold as PEM sections, or `None`
/// when a section is malformed. Bytes with no certificate section at all
/// parse as zero certificates, not as an error.
pub uninterp spec fn spec_pem_certs(pem: Seq<u8>) -> Option<nat>;

/// Whether the given bytes hold at least one well-formed PEM certificate
/// section: what the library accepts as CA certificate material.
pub open spec fn spec_ca_parses(pem: Seq<u8>) -> bool {
    spec_pem_certs(pem) matches Some(n) && n > 0
}

/// Relies on reqwest::Certificate::from_pem_bundle: parses every PEM
/// certificate section of the bytes eagerly, failing on a malformed
/// section; the outcome depends on the bytes alone.
#[verifier::external_body]
pub(crate) fn certificates_from_pem_bundle(pem: &Vec<u8>) -> (r: Result<
    Vec<reqwest::Certificate>,
    reqwest::Error,
>)
    ensures
        r is Ok <==> spec_pem_certs(pem@) is Some,
        r matches Ok(certs) ==> Some(certs@.len() as nat) == spec_pem_certs(pem@),
{
    reqwest::Certificate::from_pem_bundle(pem)
}

/// The first certificate of a PEM bundle, when the bytes hold at least
/// one well-formed PEM certificate section; `None` otherwise.
pub(crate) fn first_certificate_of_pem(pem: &Vec<u8>) -> (r: Option<reqwest::Certificate>)
    ensures
        r is Some <==> spec_ca_parses(pem@),
{
    match certificates_from_pem_bundle(pem) {
        Ok(mut certificates) => {
            if certificates.len() > 0 {
                Some(certificates.remove(0))
            } else {
                None
            }
        },
        Err(_) => None,
    }
}

/// Relies on reqwest::blocking::Response::status, converted to its numeric
/// code with http's StatusCode::as_u16.
#[verifier::external_body]
pub(crate) fn response_status(response: &reqwest::blocking::Response) -> u16 {
    response.status().as_u16()
}

} // verus!
