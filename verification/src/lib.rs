pub mod codec;
pub mod engine;
pub mod errors;
pub mod identity;
pub mod login;
pub mod registration;
pub mod setup;
pub mod suite;
pub mod text;

pub use codec::{decode, encode};
pub use errors::{Context, Error};
pub use identity::get_optional_string;
pub use login::{
    opaque_finish_client_login, opaque_finish_server_login, opaque_start_client_login,
    opaque_start_server_login, FinishClientLoginParams, FinishClientLoginResult,
    FinishServerLoginParams, FinishServerLoginResult, StartClientLoginParams,
    StartClientLoginResult, StartServerLoginParams, StartServerLoginResult,
};
pub use registration::{
    opaque_create_server_registration_response, opaque_finish_client_registration,
    opaque_finish_server_registration, opaque_start_client_registration,
    CreateServerRegistrationResponseParams, CreateServerRegistrationResponseResult,
    FinishClientRegistrationParams, FinishClientRegistrationResult,
    StartClientRegistrationParams, StartClientRegistrationResult,
};
pub use setup::{opaque_create_server_setup, opaque_get_server_public_key};
