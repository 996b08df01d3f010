//! Verification of Intel SGX remote attestation evidence.
//!
//! Two kinds of evidence are understood: the report of the Intel Attestation
//! Service inside an attestation certificate, and the ECDSA quote with its
//! chain of platform certificates. Either is verified against a pinned
//! authority and comes out as a summary of the attested enclave, or is
//! rejected for a stated reason. The collateral by which the state of a
//! platform is judged can be validated and reduced to what later checks need.
//!
//! Nothing here keeps state or reads a clock: the caller supplies the time.

pub mod asn1;
pub mod bytes;
pub mod collateral;
pub mod crl;
pub mod dcap;
pub mod error;
pub mod hexadecimal;
pub mod ias;
pub mod netscape;
pub mod pem;
pub mod primitives;
pub mod quote;
pub mod report;
pub mod search;
pub mod summary;
pub mod x509;

pub use crate::asn1::as_asn1;
pub use crate::crl::parse_crl;
pub use crate::dcap::verify_dcap_quote;
pub use crate::error::ValidationError;
pub use crate::ias::verify_ias_report;
pub use crate::netscape::CertDer;
pub use crate::pem::extract_certs;
pub use crate::quote::{
    DcapQuote, DcapQuoteHeader, EcdsaQuoteSignature, QeAuthenticationData, QeCertificationData,
};
pub use crate::report::{SGXAttributes, SgxQuote, SgxReportBody, SgxReportData};
pub use crate::summary::{SgxReport, SgxStatus};
pub use crate::x509::{verify_certificate_chain, verify_server_cert, verify_signature};
