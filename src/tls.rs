//! Where the server's certificate chain and private key are read from.

use vstd::prelude::*;

verus! {

#[derive(Clone)]
pub struct TLSPaths {
    cert_path: String,
    key_path: String,
}

impl TLSPaths {
    pub closed spec fn spec_cert_path(&self) -> String {
        self.cert_path
    }

    pub closed spec fn spec_key_path(&self) -> String {
        self.key_path
    }

    pub fn from_paths(cert_path: impl Into<String>, key_path: impl Into<String>) -> (r: Self)
        ensures
            call_ensures(<_ as Into<String>>::into, (cert_path,), r.spec_cert_path()),
            call_ensures(<_ as Into<String>>::into, (key_path,), r.spec_key_path()),
    {
        TLSPaths { cert_path: cert_path.into(), key_path: key_path.into() }
    }

    /// The path of the PEM file that holds the certificate chain.
    pub fn cert_path(&self) -> (r: &String)
        ensures
            *r == self.spec_cert_path(),
    {
        &self.cert_path
    }

    /// The path of the PEM file that holds the private key.
    pub fn key_path(&self) -> (r: &String)
        ensures
            *r == self.spec_key_path(),
    {
        &self.key_path
    }
}

} // verus!
