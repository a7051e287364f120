//! Client-side building blocks for a document management service: envelope
//! encryption of per-resource data keys, and construction of the HTTP
//! requests the service understands.

pub mod auth;
pub mod client;
pub mod crypto;
pub mod error;
pub mod models;
pub mod text;
pub mod transport;
pub mod xor;

pub use auth::{AuthToken, AuthTokenStore};
pub use client::DmsClient;
pub use crypto::{
    generate_dek, unwrap_dek_for_principal, wrap_dek_for_principal, CryptoError,
    DataEncryptionKey, EncryptedDek, KeyWrapper, PrincipalType,
};
pub use error::{SdkError, SdkResult};
pub use transport::{HttpRequest, HttpResponse, HttpTransport};
