use vstd::prelude::*;

use crate::credential::Password;
use crate::credential::PasswordCypher;
use crate::credential::verification_result;
use crate::error::ApplicationError;
use crate::locale::Language;

verus! {

use vstd::string::StringSliceAdditionalSpecFns;

/// A user record: identity metadata bound to one stored credential. Two
/// records are equal exactly when their identifiers are equal; the other
/// fields do not enter the comparison. The credential has no accessor, and
/// the record deliberately has no derived textual form that could leak it.
#[derive(Clone)]
pub struct User {
    id: i64,
    username: String,
    email: String,
    password: Password,
    language: Language,
}

impl User {
    /// The numeric identifier, the sole carrier of record identity.
    pub closed spec fn spec_id(&self) -> i64 {
        self.id
    }

    /// The username characters.
    pub closed spec fn spec_username(&self) -> Seq<char> {
        self.username@
    }

    /// The email characters.
    pub closed spec fn spec_email(&self) -> Seq<char> {
        self.email@
    }

    /// The stored credential.
    pub closed spec fn spec_password(&self) -> Password {
        self.password
    }

    /// The preferred language.
    pub closed spec fn spec_language(&self) -> Language {
        self.language
    }

    /// The numeric identifier.
    pub fn id(&self) -> (r: &i64)
        ensures
            *r == self.spec_id(),
    {
        &self.id
    }

    /// The username.
    pub fn username(&self) -> (r: &String)
        ensures
            r@ == self.spec_username(),
    {
        &self.username
    }

    /// The email address.
    pub fn email(&self) -> (r: &String)
        ensures
            r@ == self.spec_email(),
    {
        &self.email
    }

    /// The preferred language.
    pub fn language(&self) -> (r: &Language)
        ensures
            *r == self.spec_language(),
    {
        &self.language
    }

    /// Checks the candidate plaintext against this record's stored
    /// credential, delegating to the hasher. The verdict is `true` exactly
    /// when the digest recomputed from the candidate and the stored salt
    /// equals the stored digest; only a failure of the hashing primitive is
    /// an error.
    pub fn try_password_with(&self, cypher: &PasswordCypher, raw_password: &str) -> (r: Result<
        bool,
        ApplicationError,
    >)
        ensures
            match r {
                Ok(b) => b == verification_result(self.spec_password(), raw_password.spec_bytes()),
                Err(e) => e is PasswordHash,
            },
            raw_password.spec_bytes().len() <= u32::MAX ==> r is Ok,
    {
        cypher.try_password(&self.password, raw_password)
    }
}

impl PartialEq for User {
    /// Record identity: equality is identifier equality alone.
    fn eq(&self, other: &Self) -> (r: bool) {
        self.id == other.id
    }
}

impl vstd::std_specs::cmp::PartialEqSpecImpl for User {
    open spec fn obeys_eq_spec() -> bool {
        true
    }

    open spec fn eq_spec(&self, other: &User) -> bool {
        self.spec_id() == other.spec_id()
    }
}

/// Two records with the same identifier are equal whatever their other
/// fields hold; two records with different identifiers are never equal.
pub proof fn lemma_record_identity(a: User, b: User)
    ensures
        vstd::std_specs::cmp::PartialEqSpec::eq_spec(&a, &b) <==> a.spec_id() == b.spec_id(),
{
}

/// The first field still missing from a builder when construction was
/// attempted, in the order the builder asks for them.
#[derive(Debug, Clone, PartialEq, Eq, Structural)]
pub enum UserBuildError {
    MissingId,
    MissingUsername,
    MissingEmail,
    MissingPassword,
    MissingLanguage,
}

/// Collects the fields of a user record one by one; construction succeeds
/// only once every field has been supplied.
pub struct UserBuilder {
    id: Option<i64>,
    username: Option<String>,
    email: Option<String>,
    password: Option<Password>,
    language: Option<Language>,
}

impl UserBuilder {
    /// The identifier supplied so far, if any.
    pub closed spec fn spec_id(&self) -> Option<i64> {
        self.id
    }

    /// The username supplied so far, if any.
    pub closed spec fn spec_username(&self) -> Option<Seq<char>> {
        match self.username {
            Some(u) => Some(u@),
            None => None,
        }
    }

    /// The email supplied so far, if any.
    pub closed spec fn spec_email(&self) -> Option<Seq<char>> {
        match self.email {
            Some(e) => Some(e@),
            None => None,
        }
    }

    /// The credential supplied so far, if any.
    pub closed spec fn spec_password(&self) -> Option<Password> {
        self.password
    }

    /// The language supplied so far, if any.
    pub closed spec fn spec_language(&self) -> Option<Language> {
        self.language
    }

    /// Whether every field has been supplied, so that `build` succeeds.
    pub open spec fn spec_complete(&self) -> bool {
        &&& self.spec_id() is Some
        &&& self.spec_username() is Some
        &&& self.spec_email() is Some
        &&& self.spec_password() is Some
        &&& self.spec_language() is Some
    }

    /// An empty builder: no field supplied yet.
    pub fn new() -> (r: Self)
        ensures
            r.spec_id() is None,
            r.spec_username() is None,
            r.spec_email() is None,
            r.spec_password() is None,
            r.spec_language() is None,
    {
        UserBuilder { id: None, username: None, email: None, password: None, language: None }
    }

    /// Supplies the identifier.
    pub fn id(self, id: i64) -> (r: Self)
        ensures
            r.spec_id() == Some(id),
            r.spec_username() == self.spec_username(),
            r.spec_email() == self.spec_email(),
            r.spec_password() == self.spec_password(),
            r.spec_language() == self.spec_language(),
    {
        UserBuilder { id: Some(id), ..self }
    }

    /// Supplies the username.
    pub fn username(self, username: String) -> (r: Self)
        ensures
            r.spec_id() == self.spec_id(),
            r.spec_username() == Some(username@),
            r.spec_email() == self.spec_email(),
            r.spec_password() == self.spec_password(),
            r.spec_language() == self.spec_language(),
    {
        UserBuilder { username: Some(username), ..self }
    }

    /// Supplies the email address.
    pub fn email(self, email: String) -> (r: Self)
        ensures
            r.spec_id() == self.spec_id(),
            r.spec_username() == self.spec_username(),
            r.spec_email() == Some(email@),
            r.spec_password() == self.spec_password(),
            r.spec_language() == self.spec_language(),
    {
        UserBuilder { email: Some(email), ..self }
    }

    /// Supplies the stored credential.
    pub fn password(self, password: Password) -> (r: Self)
        ensures
            r.spec_id() == self.spec_id(),
            r.spec_username() == self.spec_username(),
            r.spec_email() == self.spec_email(),
            r.spec_password() == Some(password),
            r.spec_language() == self.spec_language(),
    {
        UserBuilder { password: Some(password), ..self }
    }

    /// Supplies the preferred language.
    pub fn language(self, language: Language) -> (r: Self)
        ensures
            r.spec_id() == self.spec_id(),
            r.spec_username() == self.spec_username(),
            r.spec_email() == self.spec_email(),
            r.spec_password() == self.spec_password(),
            r.spec_language() == Some(language),
    {
        UserBuilder { language: Some(language), ..self }
    }

    /// Builds the record. Succeeds exactly when every field was supplied,
    /// carrying the supplied values over unchanged; otherwise fails naming
    /// the first missing field, in the order identifier, username, email,
    /// credential, language.
    pub fn build(self) -> (r: Result<User, UserBuildError>)
        ensures
            r is Ok <==> self.spec_complete(),
            match r {
                Ok(u) => {
                    &&& Some(u.spec_id()) == self.spec_id()
                    &&& Some(u.spec_username()) == self.spec_username()
                    &&& Some(u.spec_email()) == self.spec_email()
                    &&& Some(u.spec_password()) == self.spec_password()
                    &&& Some(u.spec_language()) == self.spec_language()
                },
                Err(e) => match e {
                    UserBuildError::MissingId => self.spec_id() is None,
                    UserBuildError::MissingUsername => {
                        &&& self.spec_id() is Some
                        &&& self.spec_username() is None
                    },
                    UserBuildError::MissingEmail => {
                        &&& self.spec_id() is Some
                        &&& self.spec_username() is Some
                        &&& self.spec_email() is None
                    },
                    UserBuildError::MissingPassword => {
                        &&& self.spec_id() is Some
                        &&& self.spec_username() is Some
                        &&& self.spec_email() is Some
                        &&& self.spec_password() is None
                    },
                    UserBuildError::MissingLanguage => {
                        &&& self.spec_id() is Some
                        &&& self.spec_username() is Some
                        &&& self.spec_email() is Some
                        &&& self.spec_password() is Some
                        &&& self.spec_language() is None
                    },
                },
            },
    {
        let UserBuilder { id, username, email, password, language } = self;
        let id = match id {
            Some(id) => id,
            None => {
                return Err(UserBuildError::MissingId);
            },
        };
        let username = match username {
            Some(username) => username,
            None => {
                return Err(UserBuildError::MissingUsername);
            },
        };
        let email = match email {
            Some(email) => email,
            None => {
                return Err(UserBuildError::MissingEmail);
            },
        };
        let password = match password {
            Some(password) => password,
            None => {
                return Err(UserBuildError::MissingPassword);
            },
        };
        let language = match language {
            Some(language) => language,
            None => {
                return Err(UserBuildError::MissingLanguage);
            },
        };
        Ok(User { id, username, email, password, language })
    }
}

impl Default for UserBuilder {
    /// The empty builder, as `new` gives it.
    fn default() -> (r: Self)
        ensures
            r.spec_id() is None,
            r.spec_username() is None,
            r.spec_email() is None,
            r.spec_password() is None,
            r.spec_language() is None,
    {
        UserBuilder::new()
    }
}

} // verus!
