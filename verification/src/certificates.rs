//! Signing-certificate verdicts, as plain data; extraction is a caller
//! concern.

use vstd::prelude::*;

verus! {

/// Verdict on a package's signing certificate. Certificates are a method of
/// prevention and awareness rather than a real security assurance: a
/// matching certificate does not certify that a package is harmless.
#[derive(Debug, Clone, Copy, PartialEq, Eq, Structural)]
pub enum CertificateState {
    UnmodifiedCertState,
    ModifiedCertState,
    UnknownCertState,
}

/// The note shown for a certificate verdict.
pub open spec fn certificate_note(c: CertificateState) -> Seq<char> {
    match c {
        CertificateState::UnmodifiedCertState => "\n\nunmodified apk."@,
        CertificateState::ModifiedCertState => "\n\nmodified apk. WARNING: either the apk has been modified by a non-vendor issuer,maliciously changed, or the certificate is wrong\n            (can also be all of them at the same time)"@,
        CertificateState::UnknownCertState => "\n\nCertificate not known. NOTE: contribution welcomed"@,
    }
}

/// Renders the note for a certificate verdict.
pub fn match_certificate(certificate: CertificateState) -> (r: String)
    ensures
        r@ == certificate_note(certificate),
{
    match certificate {
        CertificateState::UnmodifiedCertState => String::from_str("\n\nunmodified apk."),
        CertificateState::ModifiedCertState => String::from_str(
            "\n\nmodified apk. WARNING: either the apk has been modified by a non-vendor issuer,maliciously changed, or the certificate is wrong\n            (can also be all of them at the same time)",
        ),
        CertificateState::UnknownCertState => String::from_str(
            "\n\nCertificate not known. NOTE: contribution welcomed",
        ),
    }
}

} // verus!
