use vstd::prelude::*;

mod credential;
mod error;
mod locale;
mod user;

pub use credential::Password;
pub use credential::PasswordCypher;
pub use credential::argon2_digest;
pub use credential::encodes;
pub use credential::lemma_encode_then_verify;
pub use credential::lemma_verify_idempotent;
pub use credential::lemma_verify_rejects_mismatch;
pub use credential::verification_result;
pub use error::ApplicationError;
pub use locale::Language;
pub use locale::lemma_code_identifies_language;
pub use locale::lemma_code_round_trip;
pub use user::User;
pub use user::UserBuildError;
pub use user::UserBuilder;
pub use user::lemma_record_identity;
