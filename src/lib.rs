//! Authentication and authorization core of a sensor-data backend that
//! delegates credential storage and token issuance to a managed identity
//! provider.
//!
//! The modules hold the logic; the network calls and the HTTP plumbing live
//! around this library and hand it plain values.

pub mod auth;
pub mod key_refresh;
pub mod middleware;
pub mod secret_hash;
pub mod sensor;
pub mod token_check;

pub use secret_hash::generate_secret_hash;
pub use sensor::{
    filter_db_record, ConfirmSignUpBody, CurrentUser, Get_id_data, NoteModel, NoteModelResponse,
    SignInBody, SignUpBody, TokenInformation,
};
