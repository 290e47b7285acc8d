use vstd::prelude::*;

verus! {

/// The failure taxonomy of one authentication attempt. Every failure of the
/// protocol core is reported as one of these values; the core never panics
/// and never terminates the process.
#[derive(Debug, Clone, PartialEq, Eq)]
pub enum AuthnError {
    /// The transport failed: unreachable host, timeout, connection error.
    NetworkError,
    /// A response body could not be decoded into the expected shape, or a
    /// field that the protocol requires was absent.
    ProtocolError,
    /// The primary authentication response carried a status value that the
    /// protocol core does not recognize.
    UnsupportedAuthnState { status: String },
    /// The factor list offered no usable hardware-key factor.
    NoSuitableFactor,
    /// Challenge or credential-id material was not valid base64.
    DecodeError,
    /// The hardware authenticator failed, was absent, or was cancelled.
    DeviceError,
    /// The secret store could not produce or accept the credential.
    CredentialStoreError,
}

impl AuthnError {
    /// A short diagnostic label for the error, for the caller's reporting.
    pub fn label(&self) -> (r: &'static str)
        ensures
            r@ == self.label_spec(),
    {
        match self {
            AuthnError::NetworkError => "network error",
            AuthnError::ProtocolError => "malformed or incomplete response",
            AuthnError::UnsupportedAuthnState { .. } => "unsupported authentication status",
            AuthnError::NoSuitableFactor => "no suitable factor",
            AuthnError::DecodeError => "invalid base64 material",
            AuthnError::DeviceError => "hardware authenticator error",
            AuthnError::CredentialStoreError => "credential store error",
        }
    }

    pub open spec fn label_spec(&self) -> Seq<char> {
        match self {
            AuthnError::NetworkError => "network error"@,
            AuthnError::ProtocolError => "malformed or incomplete response"@,
            AuthnError::UnsupportedAuthnState { .. } => "unsupported authentication status"@,
            AuthnError::NoSuitableFactor => "no suitable factor"@,
            AuthnError::DecodeError => "invalid base64 material"@,
            AuthnError::DeviceError => "hardware authenticator error"@,
            AuthnError::CredentialStoreError => "credential store error"@,
        }
    }
}

} // verus!
