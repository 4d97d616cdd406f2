mod errors;
mod flows;
mod hasher;
mod laws;
pub mod models;
pub mod records;
mod store;
mod token;
mod validation;

pub use errors::AppError;
pub use errors::MSG_BAD_EXPIRY;
pub use errors::MSG_DUPLICATE;
pub use errors::MSG_HASHING_FAILED;
pub use errors::MSG_INTERNAL;
pub use errors::MSG_INVALID_CREDENTIALS;
pub use errors::MSG_INVALID_EMAIL;
pub use errors::MSG_INVALID_TOKEN;
pub use errors::MSG_PASSWORD_TOO_SHORT;
pub use errors::MSG_SECRET_MISSING;
pub use errors::MSG_USERNAME_TOO_SHORT;
pub use flows::LoginResponse;
pub use flows::RegisterResponse;
pub use flows::login_at;
pub use flows::login_user;
pub use flows::register_at;
pub use flows::register_user;
pub use hasher::hash_password;
pub use hasher::verify_password;
pub use laws::lemma_login_rejections_indistinguishable;
pub use laws::lemma_second_registration_conflicts;
pub use laws::lemma_token_validity_window;
pub use store::User;
pub use store::UserStore;
pub use token::AuthConfig;
pub use token::TOKEN_TTL_SECONDS;
pub use token::issue_token;
pub use token::validate_token;
pub use validation::LoginPayload;
pub use validation::RegisterPayload;
pub use validation::validate_login;
pub use validation::validate_register;
