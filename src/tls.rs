use vstd::prelude::*;
use vstd::string::*;
use crate::error::Error;

verus! {

#[verifier::external_type_specification]
#[verifier::external_body]
pub struct ExCertificateError(rcgen::RcgenError);

/// Relies on rcgen::generate_simple_self_signed, with Certificate::pem and
/// KeyPair::serialize_pem: a fresh self-signed certificate for the given
/// names and its private key, both in PEM. The key is random, so nothing
/// more is stated of the result.
#[verifier::external_body]
fn self_signed(names: Vec<String>) -> (r: Result<(String, String), rcgen::RcgenError>)
{
    rcgen::generate_simple_self_signed(names).map(|c| (c.cert.pem(), c.key_pair.serialize_pem()))
}

/// The TLS identity of the internal proxy: a certificate for `localhost`,
/// made at start-up and trusted explicitly by the process's own clients.
#[derive(Debug)]
pub struct TlsIdentity {
    /// The certificate, in PEM
    pub certificate: String,
    /// Its private key, in PEM
    pub signing_key: String,
}

/// The names that the proxy's certificate is valid for: `localhost` alone.
pub fn localhost_names() -> (r: Vec<String>)
    ensures
        r@.len() == 1,
        r@[0]@ == "localhost"@,
{
    let mut names: Vec<String> = Vec::new();
    names.push(String::from_str("localhost"));
    names
}

impl TlsIdentity {
    /// Generates a self-signed identity valid for `localhost`; a failure of
    /// the generator is reported as a certificate error.
    pub fn generate() -> (r: Result<TlsIdentity, Error>)
        ensures
            r is Err ==> r->Err_0 is Certificate,
    {
        match self_signed(localhost_names()) {
            Ok((certificate, signing_key)) => Ok(TlsIdentity { certificate, signing_key }),
            Err(e) => Err(Error::Certificate(e)),
        }
    }
}

} // verus!
