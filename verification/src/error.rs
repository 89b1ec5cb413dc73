use vstd::prelude::*;

verus! {

/// Errors surfaced by the credential-hashing core and the locale parser.
#[derive(Debug)]
pub enum ApplicationError {
    /// A locale code string matched no recognized language.
    LanguageNotFound,
    /// The underlying password-hashing primitive reported a failure;
    /// the string carries the primitive's own description of it.
    PasswordHash(String),
}

impl ApplicationError {
    /// A human-readable description of the error, in place of `Display`.
    pub fn message(&self) -> (r: String)
        ensures
            self is LanguageNotFound ==> r@ == "Language Not Found"@,
            self matches ApplicationError::PasswordHash(detail) ==> r@ == detail@,
    {
        match self {
            ApplicationError::LanguageNotFound => "Language Not Found".to_owned(),
            ApplicationError::PasswordHash(detail) => detail.clone(),
        }
    }
}

} // verus!
