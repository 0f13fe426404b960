//! Users, profiles and single-use tokens.
//!
//! A user carries credentials and a soft-delete mark; a profile is its
//! one-to-one companion with contact data and an access level; a user
//! token is a single-use, time-limited code for email confirmation or a
//! password reset. Passwords are hashed and checked through `bcrypt`
//! behind trusted wrappers; every other rule is verified.

use vstd::prelude::*;
use crate::app_error::AppError;
use crate::ids::Id;
use crate::product::clone_opt_string;
use crate::tenant::Tenant;
use crate::validation::{
    Date,
    ValidationError,
    parse_date,
    validate_birth_date,
    validate_document,
    validate_email,
    validate_length,
    validate_password,
    validate_phone,
    validate_url,
    is_valid_email,
    is_valid_password,
    is_valid_phone,
    is_valid_document,
    is_valid_birth_date,
    is_valid_url,
    date_year,
    date_month,
    date_day,
};

verus! {

/// Whether `bcrypt::verify` accepts the password against the hash; a
/// function of the two texts alone.
pub uninterp spec fn bcrypt_verifies(password: Seq<char>, hashed: Seq<char>) -> bool;

/// Relies on bcrypt::verify: a deterministic check of a password against
/// a bcrypt hash; an error on a malformed hash counts as a mismatch.
#[verifier::external_body]
fn bcrypt_verify(password: &str, hashed: &str) -> (r: bool)
    ensures
        r == bcrypt_verifies(password@, hashed@),
{
    bcrypt::verify(password, hashed).unwrap_or(false)
}

/// Relies on bcrypt::hash at the crate's default cost: a fresh random
/// salt each call; the crate documents that the produced hash verifies
/// against the password that made it.
#[verifier::external_body]
fn bcrypt_hash(password: &str) -> (r: Option<String>)
    ensures
        r matches Some(h) ==> bcrypt_verifies(password@, h@),
{
    bcrypt::hash(password, bcrypt::DEFAULT_COST).ok()
}

// ===== AUTH MODELS =====
#[derive(Debug, Clone)]
pub struct LoginRequest {
    pub email: String,
    pub password: String,
}

impl LoginRequest {
    pub open spec fn is_acceptable(self) -> bool {
        is_valid_email(self.email@) && is_valid_password(self.password@)
    }

    pub fn validate(&self) -> (r: Result<(), ValidationError>)
        ensures
            r is Ok <==> self.is_acceptable(),
    {
        match validate_email(self.email.as_str()) {
            Ok(_) => {},
            Err(e) => {
                return Err(e);
            },
        }
        match validate_password(self.password.as_str()) {
            Ok(_) => {},
            Err(e) => {
                return Err(e);
            },
        }
        Ok(())
    }
}

#[derive(Debug, Clone)]
pub struct ForgotPasswordRequest {
    pub email: String,
}

impl ForgotPasswordRequest {
    pub open spec fn is_acceptable(self) -> bool {
        is_valid_email(self.email@)
    }

    pub fn validate(&self) -> (r: Result<(), ValidationError>)
        ensures
            r is Ok <==> self.is_acceptable(),
    {
        match validate_email(self.email.as_str()) {
            Ok(_) => Ok(()),
            Err(e) => Err(e),
        }
    }
}

#[derive(Debug, Clone)]
pub struct ChangePasswordRequest {
    pub code: String,
    pub password: String,
}

impl ChangePasswordRequest {
    pub open spec fn is_acceptable(self) -> bool {
        is_valid_password(self.password@)
    }

    pub fn validate(&self) -> (r: Result<(), ValidationError>)
        ensures
            r is Ok <==> self.is_acceptable(),
    {
        match validate_password(self.password.as_str()) {
            Ok(_) => Ok(()),
            Err(e) => Err(e),
        }
    }
}

// ===== USER TOKEN MODELS =====
#[derive(Debug, Clone)]
pub struct UserToken {
    pub id: Id,
    pub user_id: Id,
    pub code: String,
    pub token_type: String,
    /// Expiry as seconds since the Unix epoch.
    pub expires_at: i64,
    pub consumed: bool,
    pub dt_created: i64,
}

impl UserToken {
    /// A fresh token: unconsumed, created at `now`, expiring an hour
    /// later.
    pub fn new(id: Id, user_id: Id, code: String, token_type: String, now: i64) -> (r: UserToken)
        requires
            now + 3600 <= i64::MAX,
        ensures
            r.id == id,
            r.user_id == user_id,
            r.code == code,
            r.token_type == token_type,
            r.expires_at == now + 3600,
            r.consumed == false,
            r.dt_created == now,
    {
        UserToken { id, user_id, code, token_type, expires_at: now + 3600, consumed: false, dt_created: now }
    }

    /// Whether the token may still be redeemed at `now`: never consumed
    /// and not yet expired, the rule the repository's lookup applies.
    pub fn is_usable(&self, now: i64) -> (r: bool)
        ensures
            r == (!self.consumed && self.expires_at > now),
    {
        !self.consumed && self.expires_at > now
    }
}

// ===== PROFILE MODELS =====
#[derive(Debug, Clone)]
pub struct Profile {
    pub id: Id,
    pub user_id: Id,
    pub bio: Option<String>,
    pub birth_date: Option<Date>,
    pub phone: Option<String>,
    pub document: Option<String>,
    pub profession: Option<String>,
    pub avatar: Option<String>,
    pub confirm_email: bool,
    pub unsubscribe: bool,
    pub access_level: String,
    pub dt_updated: i64,
    pub dt_created: i64,
}

impl Profile {
    /// The empty profile a plain signup creates: everything unset, the
    /// `user` access level, email unconfirmed.
    pub fn new(id: Id, user_id: Id, now: i64) -> (r: Profile)
        ensures
            r.id == id,
            r.user_id == user_id,
            r.bio is None,
            r.birth_date is None,
            r.phone is None,
            r.document is None,
            r.profession is None,
            r.avatar is None,
            r.confirm_email == false,
            r.unsubscribe == false,
            r.access_level@ == "user"@,
            r.dt_created == now,
            r.dt_updated == now,
    {
        Profile {
            id,
            user_id,
            bio: None,
            birth_date: None,
            phone: None,
            document: None,
            profession: None,
            avatar: None,
            confirm_email: false,
            unsubscribe: false,
            access_level: "user".to_owned(),
            dt_updated: now,
            dt_created: now,
        }
    }

    /// The profile a signup request yields: the request's fields when one
    /// was sent (an unparsable birth date is dropped, missing flags
    /// default to false, a missing access level to `user`), or the empty
    /// profile.
    pub fn from_request(id: Id, user_id: Id, req: Option<ProfileRequest>, now: i64) -> (r: Profile)
        ensures
            r.id == id,
            r.user_id == user_id,
            r.dt_created == now,
            r.dt_updated == now,
            match req {
                Some(p) => {
                    &&& r.bio == p.bio
                    &&& r.birth_date == (match p.birth_date {
                        Some(b) => if is_valid_birth_date(b@) {
                            Some(
                                Date {
                                    year: date_year(b@) as u32,
                                    month: date_month(b@) as u32,
                                    day: date_day(b@) as u32,
                                },
                            )
                        } else {
                            None
                        },
                        None => None,
                    })
                    &&& r.phone == p.phone
                    &&& r.document == p.document
                    &&& r.profession == p.profession
                    &&& r.avatar == p.avatar
                    &&& r.confirm_email == (match p.confirm_email {
                        Some(c) => c,
                        None => false,
                    })
                    &&& r.unsubscribe == (match p.unsubscribe {
                        Some(u) => u,
                        None => false,
                    })
                    &&& r.access_level@ == (match p.access_level {
                        Some(a) => a@,
                        None => "user"@,
                    })
                },
                None => {
                    &&& r.bio is None
                    &&& r.birth_date is None
                    &&& r.phone is None
                    &&& r.document is None
                    &&& r.profession is None
                    &&& r.avatar is None
                    &&& r.confirm_email == false
                    &&& r.unsubscribe == false
                    &&& r.access_level@ == "user"@
                },
            },
    {
        match req {
            Some(p) => {
                let birth_date = match &p.birth_date {
                    Some(b) => parse_date(b.as_str()),
                    None => None,
                };
                Profile {
                    id,
                    user_id,
                    bio: p.bio,
                    birth_date,
                    phone: p.phone,
                    document: p.document,
                    profession: p.profession,
                    avatar: p.avatar,
                    confirm_email: match p.confirm_email {
                        Some(c) => c,
                        None => false,
                    },
                    unsubscribe: match p.unsubscribe {
                        Some(u) => u,
                        None => false,
                    },
                    access_level: match p.access_level {
                        Some(a) => a,
                        None => "user".to_owned(),
                    },
                    dt_updated: now,
                    dt_created: now,
                }
            },
            None => Profile::new(id, user_id, now),
        }
    }

    /// The profile after a partial update: each given field replaces the
    /// old one, everything else keeps its value.
    pub fn apply_update(self, request: UpdateProfileRequest) -> (r: Profile)
        ensures
            r.id == self.id,
            r.user_id == self.user_id,
            r.bio == (match request.bio {
                Some(b) => Some(b),
                None => self.bio,
            }),
            r.phone == (match request.phone {
                Some(p) => Some(p),
                None => self.phone,
            }),
            r.birth_date == (match request.birth_date {
                Some(b) => Some(b),
                None => self.birth_date,
            }),
            r.profession == (match request.profession {
                Some(p) => Some(p),
                None => self.profession,
            }),
            r.document == (match request.document {
                Some(d) => Some(d),
                None => self.document,
            }),
            r.avatar == (match request.avatar {
                Some(a) => Some(a),
                None => self.avatar,
            }),
            r.confirm_email == self.confirm_email,
            r.unsubscribe == self.unsubscribe,
            r.access_level == self.access_level,
            r.dt_created == self.dt_created,
            r.dt_updated == self.dt_updated,
    {
        Profile {
            bio: match request.bio {
                Some(b) => Some(b),
                None => self.bio,
            },
            phone: match request.phone {
                Some(p) => Some(p),
                None => self.phone,
            },
            birth_date: match request.birth_date {
                Some(b) => Some(b),
                None => self.birth_date,
            },
            profession: match request.profession {
                Some(p) => Some(p),
                None => self.profession,
            },
            document: match request.document {
                Some(d) => Some(d),
                None => self.document,
            },
            avatar: match request.avatar {
                Some(a) => Some(a),
                None => self.avatar,
            },
            ..self
        }
    }

    /// A field-for-field copy.
    pub fn clone_record(&self) -> (r: Profile)
        ensures
            r == *self,
    {
        Profile {
            id: self.id,
            user_id: self.user_id,
            bio: clone_opt_string(&self.bio),
            birth_date: self.birth_date,
            phone: clone_opt_string(&self.phone),
            document: clone_opt_string(&self.document),
            profession: clone_opt_string(&self.profession),
            avatar: clone_opt_string(&self.avatar),
            confirm_email: self.confirm_email,
            unsubscribe: self.unsubscribe,
            access_level: self.access_level.clone(),
            dt_updated: self.dt_updated,
            dt_created: self.dt_created,
        }
    }
}

#[derive(Debug, Clone)]
pub struct ProfileRequest {
    pub bio: Option<String>,
    pub birth_date: Option<String>,
    pub phone: Option<String>,
    pub document: Option<String>,
    pub profession: Option<String>,
    pub avatar: Option<String>,
    pub confirm_email: Option<bool>,
    pub unsubscribe: Option<bool>,
    pub access_level: Option<String>,
}

impl ProfileRequest {
    pub open spec fn is_acceptable(self) -> bool {
        &&& match self.bio {
            Some(b) => 3 <= b@.len() <= 500,
            None => true,
        }
        &&& match self.birth_date {
            Some(b) => is_valid_birth_date(b@),
            None => true,
        }
        &&& match self.phone {
            Some(p) => is_valid_phone(p@),
            None => true,
        }
        &&& match self.document {
            Some(d) => is_valid_document(d@),
            None => true,
        }
        &&& match self.profession {
            Some(p) => 2 <= p@.len() <= 100,
            None => true,
        }
        &&& match self.avatar {
            Some(a) => is_valid_url(a@),
            None => true,
        }
        &&& match self.access_level {
            Some(a) => 2 <= a@.len() <= 50,
            None => true,
        }
    }

    pub fn validate(&self) -> (r: Result<(), ValidationError>)
        ensures
            r is Ok <==> self.is_acceptable(),
    {
        match &self.bio {
            Some(b) => match validate_length(
                b.as_str(),
                3,
                500,
                "A bio deve ter entre 3 e 500 caracteres",
            ) {
                Ok(_) => {},
                Err(e) => {
                    return Err(e);
                },
            },
            None => {},
        }
        match &self.birth_date {
            Some(b) => match validate_birth_date(b.as_str()) {
                Ok(_) => {},
                Err(e) => {
                    return Err(e);
                },
            },
            None => {},
        }
        match &self.phone {
            Some(p) => match validate_phone(p.as_str()) {
                Ok(_) => {},
                Err(e) => {
                    return Err(e);
                },
            },
            None => {},
        }
        match &self.document {
            Some(d) => match validate_document(d.as_str()) {
                Ok(_) => {},
                Err(e) => {
                    return Err(e);
                },
            },
            None => {},
        }
        match &self.profession {
            Some(p) => match validate_length(
                p.as_str(),
                2,
                100,
                "A profissão deve ter entre 2 e 100 caracteres",
            ) {
                Ok(_) => {},
                Err(e) => {
                    return Err(e);
                },
            },
            None => {},
        }
        match &self.avatar {
            Some(a) => match validate_url(a.as_str(), "URL do avatar inválida") {
                Ok(_) => {},
                Err(e) => {
                    return Err(e);
                },
            },
            None => {},
        }
        match &self.access_level {
            Some(a) => match validate_length(
                a.as_str(),
                2,
                50,
                "O nível de acesso deve ter entre 2 e 50 caracteres",
            ) {
                Ok(_) => {},
                Err(e) => {
                    return Err(e);
                },
            },
            None => {},
        }
        Ok(())
    }
}

#[derive(Debug, Clone)]
pub struct UpdateProfileRequest {
    pub bio: Option<String>,
    pub phone: Option<String>,
    pub birth_date: Option<Date>,
    pub profession: Option<String>,
    pub document: Option<String>,
    pub avatar: Option<String>,
}

impl UpdateProfileRequest {
    pub open spec fn is_acceptable(self) -> bool {
        &&& match self.bio {
            Some(b) => 3 <= b@.len() <= 500,
            None => true,
        }
        &&& match self.phone {
            Some(p) => is_valid_phone(p@),
            None => true,
        }
        &&& match self.profession {
            Some(p) => 2 <= p@.len() <= 100,
            None => true,
        }
        &&& match self.document {
            Some(d) => is_valid_document(d@),
            None => true,
        }
        &&& match self.avatar {
            Some(a) => is_valid_url(a@),
            None => true,
        }
    }

    pub fn validate(&self) -> (r: Result<(), ValidationError>)
        ensures
            r is Ok <==> self.is_acceptable(),
    {
        match &self.bio {
            Some(b) => match validate_length(
                b.as_str(),
                3,
                500,
                "A bio deve ter entre 3 e 500 caracteres",
            ) {
                Ok(_) => {},
                Err(e) => {
                    return Err(e);
                },
            },
            None => {},
        }
        match &self.phone {
            Some(p) => match validate_phone(p.as_str()) {
                Ok(_) => {},
                Err(e) => {
                    return Err(e);
                },
            },
            None => {},
        }
        match &self.profession {
            Some(p) => match validate_length(
                p.as_str(),
                2,
                100,
                "A profissão deve ter entre 2 e 100 caracteres",
            ) {
                Ok(_) => {},
                Err(e) => {
                    return Err(e);
                },
            },
            None => {},
        }
        match &self.document {
            Some(d) => match validate_document(d.as_str()) {
                Ok(_) => {},
                Err(e) => {
                    return Err(e);
                },
            },
            None => {},
        }
        match &self.avatar {
            Some(a) => match validate_url(a.as_str(), "URL do avatar inválida") {
                Ok(_) => {},
                Err(e) => {
                    return Err(e);
                },
            },
            None => {},
        }
        Ok(())
    }
}

// ===== USER MODELS =====
#[derive(Debug, Clone)]
pub struct User {
    pub id: Id,
    pub username: String,
    pub email: String,
    pub first_name: String,
    pub last_name: String,
    /// The bcrypt hash, never the clear password.
    pub password: String,
    pub dt_created: i64,
    pub dt_updated: i64,
    pub dt_deleted: Option<i64>,
}

impl User {
    /// A fresh user: a new identifier, the given names, the password
    /// hashed; hashing can fail only inside the bcrypt crate, and is
    /// reported as an internal error.
    pub fn new(username: &str, email: &str, first_name: &str, last_name: &str, password: &str) -> (r:
        Result<User, AppError>)
        ensures
            r matches Ok(u) ==> {
                &&& u.username@ == username@
                &&& u.email@ == email@
                &&& u.first_name@ == first_name@
                &&& u.last_name@ == last_name@
                &&& bcrypt_verifies(password@, u.password@)
                &&& u.dt_updated == u.dt_created
                &&& u.dt_deleted is None
            },
            r matches Err(e) ==> (e matches AppError::InternalError(_) && e.message()
                matches Some(m) && m@ == "Erro ao hashear senha"@),
    {
        let hashed = match bcrypt_hash(password) {
            Some(h) => h,
            None => {
                return Err(AppError::internal("Erro ao hashear senha"));
            },
        };
        let now = crate::clock::now_ts();
        Ok(
            User {
                id: crate::ids::fresh_id(),
                username: username.to_owned(),
                email: email.to_owned(),
                first_name: first_name.to_owned(),
                last_name: last_name.to_owned(),
                password: hashed,
                dt_created: now,
                dt_updated: now,
                dt_deleted: None,
            },
        )
    }

    /// Whether the clear password matches this user's stored hash.
    pub fn verify_password(&self, input: &str) -> (r: bool)
        ensures
            r == bcrypt_verifies(input@, self.password@),
    {
        bcrypt_verify(input, self.password.as_str())
    }

    /// The user after a partial update: a given name replaces the old
    /// one, a missing one keeps its value, and `dt_updated` becomes `now`.
    pub fn apply_update(self, request: UpdateUserRequest, now: i64) -> (r: User)
        ensures
            r.id == self.id,
            r.username == self.username,
            r.email == self.email,
            r.first_name == (match request.first_name {
                Some(f) => f,
                None => self.first_name,
            }),
            r.last_name == (match request.last_name {
                Some(l) => l,
                None => self.last_name,
            }),
            r.password == self.password,
            r.dt_created == self.dt_created,
            r.dt_updated == now,
            r.dt_deleted == self.dt_deleted,
    {
        User {
            first_name: match request.first_name {
                Some(f) => f,
                None => self.first_name,
            },
            last_name: match request.last_name {
                Some(l) => l,
                None => self.last_name,
            },
            dt_updated: now,
            ..self
        }
    }

    /// A field-for-field copy.
    pub fn clone_record(&self) -> (r: User)
        ensures
            r == *self,
    {
        User {
            id: self.id,
            username: self.username.clone(),
            email: self.email.clone(),
            first_name: self.first_name.clone(),
            last_name: self.last_name.clone(),
            password: self.password.clone(),
            dt_created: self.dt_created,
            dt_updated: self.dt_updated,
            dt_deleted: self.dt_deleted,
        }
    }
}

#[derive(Debug, Clone)]
pub struct UserRequest {
    pub email: String,
    pub first_name: String,
    pub last_name: String,
    pub password: String,
    pub profile: Option<ProfileRequest>,
    pub tenant_id: Option<Id>,
}

impl UserRequest {
    pub open spec fn is_acceptable(self) -> bool {
        &&& is_valid_email(self.email@)
        &&& 2 <= self.first_name@.len() <= 50
        &&& 2 <= self.last_name@.len() <= 50
        &&& is_valid_password(self.password@)
        &&& match self.profile {
            Some(p) => p.is_acceptable(),
            None => true,
        }
    }

    pub fn validate(&self) -> (r: Result<(), ValidationError>)
        ensures
            r is Ok <==> self.is_acceptable(),
    {
        match validate_email(self.email.as_str()) {
            Ok(_) => {},
            Err(e) => {
                return Err(e);
            },
        }
        match validate_length(
            self.first_name.as_str(),
            2,
            50,
            "O nome deve ter entre 2 e 50 caracteres",
        ) {
            Ok(_) => {},
            Err(e) => {
                return Err(e);
            },
        }
        match validate_length(
            self.last_name.as_str(),
            2,
            50,
            "O sobrenome deve ter entre 2 e 50 caracteres",
        ) {
            Ok(_) => {},
            Err(e) => {
                return Err(e);
            },
        }
        match validate_password(self.password.as_str()) {
            Ok(_) => {},
            Err(e) => {
                return Err(e);
            },
        }
        match &self.profile {
            Some(p) => match p.validate() {
                Ok(_) => {},
                Err(e) => {
                    return Err(e);
                },
            },
            None => {},
        }
        Ok(())
    }
}

#[derive(Debug, Clone)]
pub struct UserWithProfile {
    pub id: Id,
    pub username: String,
    pub email: String,
    pub first_name: String,
    pub last_name: String,
    pub profile: Profile,
    pub tenant: Tenant,
}

impl UserWithProfile {
    /// Combines a user with its profile and tenant.
    pub fn from_user_and_profile_ref(user: &User, profile: &Profile, tenant: &Tenant) -> (r:
        UserWithProfile)
        ensures
            r.id == user.id,
            r.username == user.username,
            r.email == user.email,
            r.first_name == user.first_name,
            r.last_name == user.last_name,
            r.profile == *profile,
            r.tenant == *tenant,
    {
        UserWithProfile {
            id: user.id,
            username: user.username.clone(),
            email: user.email.clone(),
            first_name: user.first_name.clone(),
            last_name: user.last_name.clone(),
            profile: profile.clone_record(),
            tenant: tenant.clone_record(),
        }
    }
}

#[derive(Debug, Clone)]
pub struct UserResponse {
    pub user: UserWithProfile,
    pub expires_in: String,
    pub token: String,
}

impl UserResponse {
    /// Packs the session answer: the combined user, the token and the
    /// remaining lifetime.
    pub fn from(user_with_profile: UserWithProfile, token: String, expires_in: String) -> (r:
        UserResponse)
        ensures
            r.user == user_with_profile,
            r.token == token,
            r.expires_in == expires_in,
    {
        UserResponse { user: user_with_profile, token, expires_in }
    }
}

#[derive(Debug, Clone)]
pub struct UpdateUserRequest {
    pub first_name: Option<String>,
    pub last_name: Option<String>,
}

impl UpdateUserRequest {
    pub open spec fn is_acceptable(self) -> bool {
        &&& match self.first_name {
            Some(f) => 2 <= f@.len() <= 50,
            None => true,
        }
        &&& match self.last_name {
            Some(l) => 2 <= l@.len() <= 50,
            None => true,
        }
    }

    pub fn validate(&self) -> (r: Result<(), ValidationError>)
        ensures
            r is Ok <==> self.is_acceptable(),
    {
        match &self.first_name {
            Some(f) => match validate_length(
                f.as_str(),
                2,
                50,
                "O nome deve ter entre 2 e 50 caracteres",
            ) {
                Ok(_) => {},
                Err(e) => {
                    return Err(e);
                },
            },
            None => {},
        }
        match &self.last_name {
            Some(l) => match validate_length(
                l.as_str(),
                2,
                50,
                "O sobrenome deve ter entre 2 e 50 caracteres",
            ) {
                Ok(_) => {},
                Err(e) => {
                    return Err(e);
                },
            },
            None => {},
        }
        Ok(())
    }
}

pub struct UserService;

impl UserService {
    /// The login rule: an unknown email or a password that does not
    /// verify are both answered with the same refusal.
    pub fn check_credentials(user: &Option<User>, password: &str) -> (r: Result<(), AppError>)
        ensures
            r is Ok <==> (user matches Some(u) && bcrypt_verifies(password@, u.password@)),
            r matches Err(e) ==> (e matches AppError::Unauthorized(_) && e.message()
                matches Some(m) && m@ == "Credenciais inválidas"@),
    {
        match user {
            Some(u) => {
                if u.verify_password(password) {
                    Ok(())
                } else {
                    Err(AppError::unauthorized("Credenciais inválidas"))
                }
            },
            None => Err(AppError::unauthorized("Credenciais inválidas")),
        }
    }

    /// A profile must exist for the user the flow already found.
    pub fn require_profile(profile: Option<Profile>) -> (r: Result<Profile, AppError>)
        ensures
            profile matches Some(p) ==> (r matches Ok(q) && q == p),
            profile is None ==> (r matches Err(e) && e matches AppError::NotFound(_) && e.message()
                matches Some(m) && m@ == "Perfil não encontrado"@),
    {
        match profile {
            Some(p) => Ok(p),
            None => Err(AppError::not_found("Perfil não encontrado")),
        }
    }

    /// A reset or confirmation code must name a token that is still
    /// usable.
    pub fn require_valid_token(token: Option<UserToken>) -> (r: Result<UserToken, AppError>)
        ensures
            token matches Some(t) ==> (r matches Ok(q) && q == t),
            token is None ==> (r matches Err(e) && e matches AppError::BadRequest(_) && e.message()
                matches Some(m) && m@ == "Token inválido ou expirado"@),
    {
        match token {
            Some(t) => Ok(t),
            None => Err(AppError::bad_request("Token inválido ou expirado")),
        }
    }

    /// The page a user listing answers: the rows, the total count and the
    /// paging that produced them.
    pub fn build_user_page(count: i64, users: Vec<User>, limit: i64, offset: i64) -> (r:
        crate::pagination::PaginatedResponse<User>)
        ensures
            r.count == count,
            r.results == users,
            r.limit == limit,
            r.offset == offset,
    {
        crate::pagination::PaginatedResponse { count, results: users, limit, offset }
    }
}

} // verus!
