//! Out-of-band setup messages of the RPKI (RFC 8183) and the signature
//! algorithm identifiers used by RPKI objects.
pub mod error;
pub mod handle;
pub mod idexchange;
pub mod signature;
pub mod text;
pub mod uri;
pub mod xml;
