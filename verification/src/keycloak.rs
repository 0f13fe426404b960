//! Login through an external identity provider.
//!
//! The surrounding application sends the provider token to the identity
//! server for introspection and hands the parsed answer here. What the
//! library decides is verified: the URLs of the provider's endpoints,
//! the extraction of a user record from the introspection answer, the
//! mapping of provider roles to the application's access levels, and the
//! local user and profile created on a first login.

use vstd::prelude::*;
use crate::app_error::AppError;
use crate::formatter::{generate_username_from_email, username_of};
use crate::ids::Id;
use crate::text::{str_concat, str_eq};
use crate::user::{Profile, User, UserWithProfile};
use vstd::string::StrSliceExecFns;
use crate::validation::ValidationError;

verus! {

#[derive(Debug, Clone)]
pub struct KeycloakConfig {
    pub base_url: String,
    pub realm: String,
    pub client_id: String,
    pub client_secret: String,
    pub admin_username: String,
    pub admin_password: String,
}

impl KeycloakConfig {
    /// The provider's OpenID Connect root for the realm.
    pub fn auth_url(&self) -> (r: String)
        ensures
            r@ == self.base_url@ + "/realms/"@ + self.realm@ + "/protocol/openid-connect"@,
    {
        let a = str_concat(self.base_url.as_str(), "/realms/");
        let b = str_concat(a.as_str(), self.realm.as_str());
        str_concat(b.as_str(), "/protocol/openid-connect")
    }

    /// The provider's administration root for the realm.
    pub fn _admin_url(&self) -> (r: String)
        ensures
            r@ == self.base_url@ + "/admin/realms/"@ + self.realm@,
    {
        let a = str_concat(self.base_url.as_str(), "/admin/realms/");
        str_concat(a.as_str(), self.realm.as_str())
    }

    /// The token introspection endpoint.
    pub fn token_introspect_url(&self) -> (r: String)
        ensures
            r@ == self.base_url@ + "/realms/"@ + self.realm@ + "/protocol/openid-connect"@
                + "/token/introspect"@,
    {
        let a = self.auth_url();
        str_concat(a.as_str(), "/token/introspect")
    }

    /// The user info endpoint.
    pub fn _userinfo_url(&self) -> (r: String)
        ensures
            r@ == self.base_url@ + "/realms/"@ + self.realm@ + "/protocol/openid-connect"@
                + "/userinfo"@,
    {
        let a = self.auth_url();
        str_concat(a.as_str(), "/userinfo")
    }
}

#[derive(Debug, Clone)]
pub struct KeycloakLoginRequest {
    pub provider_token: String,
}

impl KeycloakLoginRequest {
    pub open spec fn is_acceptable(self) -> bool {
        self.provider_token@.len() >= 1
    }

    pub fn validate(&self) -> (r: Result<(), ValidationError>)
        ensures
            r is Ok <==> self.is_acceptable(),
    {
        if self.provider_token.as_str().unicode_len() >= 1 {
            Ok(())
        } else {
            Err(ValidationError::with_message("length", "Provider token é obrigatório"))
        }
    }
}

#[derive(Debug, Clone)]
pub struct RealmAccess {
    pub roles: Vec<String>,
}

#[derive(Debug, Clone)]
pub struct ClientAccess {
    pub roles: Vec<String>,
}

#[derive(Debug, Clone)]
pub struct ResourceAccess {
    pub rust_template_client: Option<ClientAccess>,
}

/// The provider's answer to a token introspection, already parsed to
/// plain values by the surrounding application.
#[derive(Debug, Clone)]
pub struct KeycloakTokenIntrospectResponse {
    pub active: bool,
    pub exp: Option<i64>,
    pub iat: Option<i64>,
    pub jti: Option<String>,
    pub iss: Option<String>,
    pub aud: Option<String>,
    pub sub: Option<String>,
    pub typ: Option<String>,
    pub azp: Option<String>,
    pub scope: Option<String>,
    pub sid: Option<String>,
    pub email_verified: Option<bool>,
    pub name: Option<String>,
    pub preferred_username: Option<String>,
    pub given_name: Option<String>,
    pub family_name: Option<String>,
    pub email: Option<String>,
    pub realm_access: Option<RealmAccess>,
    pub resource_access: Option<ResourceAccess>,
}

#[derive(Debug, Clone)]
pub struct KeycloakUserInfo {
    pub sub: String,
    pub email_verified: bool,
    pub name: String,
    pub preferred_username: String,
    pub given_name: String,
    pub family_name: String,
    pub email: String,
    pub realm_access: Option<RealmAccess>,
    pub resource_access: Option<ResourceAccess>,
}

#[derive(Debug, Clone)]
pub struct KeycloakAuthData {
    pub user: UserWithProfile,
    pub token: String,
    pub expires_in: String,
}

#[derive(Debug, Clone)]
pub struct KeycloakLoginResponse {
    pub message: String,
    pub data: KeycloakAuthData,
}

/// The role lists hold the same names.
pub open spec fn roles_eq(a: Seq<String>, b: Seq<String>) -> bool {
    a.len() == b.len() && forall|i: int| 0 <= i < a.len() ==> (#[trigger] a[i])@ == b[i]@
}

/// The realm-access fields hold the same roles.
pub open spec fn realm_access_eq(a: Option<RealmAccess>, b: Option<RealmAccess>) -> bool {
    match (a, b) {
        (Some(x), Some(y)) => roles_eq(x.roles@, y.roles@),
        (None, None) => true,
        _ => false,
    }
}

/// The resource-access fields hold the same roles.
pub open spec fn resource_access_eq(a: Option<ResourceAccess>, b: Option<ResourceAccess>) -> bool {
    match (a, b) {
        (Some(x), Some(y)) => match (x.rust_template_client, y.rust_template_client) {
            (Some(cx), Some(cy)) => roles_eq(cx.roles@, cy.roles@),
            (None, None) => true,
            _ => false,
        },
        (None, None) => true,
        _ => false,
    }
}

fn clone_roles(v: &Vec<String>) -> (r: Vec<String>)
    ensures
        r@ == v@,
{
    let mut r: Vec<String> = Vec::new();
    let mut i: usize = 0;
    while i < v.len()
        invariant
            i <= v@.len(),
            r@ =~= v@.take(i as int),
        decreases v@.len() - i,
    {
        r.push(v[i].clone());
        i = i + 1;
        proof {
            assert(v@.take(i as int) =~= v@.take(i as int - 1).push(v@[i as int - 1]));
        }
    }
    proof {
        assert(v@.take(v@.len() as int) =~= v@);
    }
    r
}

fn clone_realm_access(a: &Option<RealmAccess>) -> (r: Option<RealmAccess>)
    ensures
        realm_access_eq(r, *a),
{
    match a {
        Some(x) => Some(RealmAccess { roles: clone_roles(&x.roles) }),
        None => None,
    }
}

fn clone_resource_access(a: &Option<ResourceAccess>) -> (r: Option<ResourceAccess>)
    ensures
        resource_access_eq(r, *a),
{
    match a {
        Some(x) => Some(
            ResourceAccess {
                rust_template_client: match &x.rust_template_client {
                    Some(c) => Some(ClientAccess { roles: clone_roles(&c.roles) }),
                    None => None,
                },
            },
        ),
        None => None,
    }
}

/// A role list holds the given name.
pub open spec fn roles_contain(roles: Seq<String>, name: Seq<char>) -> bool {
    exists|i: int| 0 <= i < roles.len() && (#[trigger] roles[i])@ == name
}

fn exec_roles_contain(roles: &Vec<String>, name: &str) -> (r: bool)
    ensures
        r == roles_contain(roles@, name@),
{
    let mut i: usize = 0;
    while i < roles.len()
        invariant
            i <= roles@.len(),
            forall|j: int| 0 <= j < i ==> (#[trigger] roles@[j])@ != name@,
        decreases roles@.len() - i,
    {
        if str_eq(roles[i].as_str(), name) {
            return true;
        }
        i = i + 1;
    }
    false
}

/// The access level the client roles yield: `super_admin` first, then
/// `admin`, else `user`.
pub open spec fn client_access_level(u: KeycloakUserInfo) -> Seq<char> {
    match u.resource_access {
        Some(res) => match res.rust_template_client {
            Some(ca) => if roles_contain(ca.roles@, "super_admin"@) {
                "super_admin"@
            } else if roles_contain(ca.roles@, "admin"@) {
                "admin"@
            } else {
                "user"@
            },
            None => "user"@,
        },
        None => "user"@,
    }
}

/// The access level the provider's roles yield: the realm roles first,
/// then the client roles, else `user`.
pub open spec fn access_level_of(u: KeycloakUserInfo) -> Seq<char> {
    match u.realm_access {
        Some(ra) => if roles_contain(ra.roles@, "super_admin"@) {
            "super_admin"@
        } else if roles_contain(ra.roles@, "admin"@) {
            "admin"@
        } else {
            client_access_level(u)
        },
        None => client_access_level(u),
    }
}

pub struct KeycloakService;

impl KeycloakService {
    /// A provider token must still be active to log anybody in.
    pub fn require_active_token(active: bool) -> (r: Result<(), AppError>)
        ensures
            active <==> r is Ok,
            r matches Err(e) ==> (e matches AppError::Unauthorized(_) && e.message()
                matches Some(m) && m@ == "Token inválido ou expirado"@),
    {
        if active {
            Ok(())
        } else {
            Err(AppError::unauthorized("Token inválido ou expirado"))
        }
    }


    /// Reads a user out of the introspection answer: email and subject
    /// are required, in that order; every other field defaults to the
    /// empty text or false.
    pub fn get_user_info_from_token(token_info: &KeycloakTokenIntrospectResponse) -> (r: Result<
        KeycloakUserInfo,
        AppError,
    >)
        ensures
            match token_info.email {
                None => (r matches Err(e) && e matches AppError::BadRequest(_) && e.message()
                    matches Some(m) && m@ == "Email não encontrado no token"@),
                Some(email) => match token_info.sub {
                    None => (r matches Err(e) && e matches AppError::BadRequest(_) && e.message()
                        matches Some(m) && m@ == "Subject não encontrado no token"@),
                    Some(sub) => (r matches Ok(u) && {
                        &&& u.sub@ == sub@
                        &&& u.email@ == email@
                        &&& u.email_verified == (match token_info.email_verified {
                            Some(v) => v,
                            None => false,
                        })
                        &&& u.name@ == (match token_info.name {
                            Some(n) => n@,
                            None => Seq::<char>::empty(),
                        })
                        &&& u.preferred_username@ == (match token_info.preferred_username {
                            Some(n) => n@,
                            None => Seq::<char>::empty(),
                        })
                        &&& u.given_name@ == (match token_info.given_name {
                            Some(n) => n@,
                            None => Seq::<char>::empty(),
                        })
                        &&& u.family_name@ == (match token_info.family_name {
                            Some(n) => n@,
                            None => Seq::<char>::empty(),
                        })
                        &&& realm_access_eq(u.realm_access, token_info.realm_access)
                        &&& resource_access_eq(u.resource_access, token_info.resource_access)
                    }),
                },
            },
    {
        let email = match &token_info.email {
            Some(e) => e.clone(),
            None => {
                return Err(AppError::bad_request("Email não encontrado no token"));
            },
        };
        let sub = match &token_info.sub {
            Some(s) => s.clone(),
            None => {
                return Err(AppError::bad_request("Subject não encontrado no token"));
            },
        };
        let given_name = match &token_info.given_name {
            Some(n) => n.clone(),
            None => String::new(),
        };
        let family_name = match &token_info.family_name {
            Some(n) => n.clone(),
            None => String::new(),
        };
        let preferred_username = match &token_info.preferred_username {
            Some(n) => n.clone(),
            None => String::new(),
        };
        let name = match &token_info.name {
            Some(n) => n.clone(),
            None => String::new(),
        };
        let email_verified = match token_info.email_verified {
            Some(v) => v,
            None => false,
        };
        Ok(
            KeycloakUserInfo {
                sub,
                email_verified,
                name,
                preferred_username,
                given_name,
                family_name,
                email,
                realm_access: clone_realm_access(&token_info.realm_access),
                resource_access: clone_resource_access(&token_info.resource_access),
            },
        )
    }

    /// Maps the provider's roles to the application's access level.
    pub fn map_keycloak_roles_to_access_level(user_info: &KeycloakUserInfo) -> (r: String)
        ensures
            r@ == access_level_of(*user_info),
    {
        match &user_info.realm_access {
            Some(ra) => {
                if exec_roles_contain(&ra.roles, "super_admin") {
                    return "super_admin".to_owned();
                }
                if exec_roles_contain(&ra.roles, "admin") {
                    return "admin".to_owned();
                }
            },
            None => {},
        }
        match &user_info.resource_access {
            Some(res) => match &res.rust_template_client {
                Some(ca) => {
                    if exec_roles_contain(&ca.roles, "super_admin") {
                        return "super_admin".to_owned();
                    }
                    if exec_roles_contain(&ca.roles, "admin") {
                        return "admin".to_owned();
                    }
                },
                None => {},
            },
            None => {},
        }
        "user".to_owned()
    }

    /// The local user a first provider login creates: the username
    /// derived from the email, the provider's names, and no password of
    /// its own.
    pub fn user_from_keycloak(user_info: &KeycloakUserInfo, id: Id, now: i64) -> (r: User)
        ensures
            r.id == id,
            r.username@ == username_of(user_info.email@),
            r.email@ == user_info.email@,
            r.first_name@ == user_info.given_name@,
            r.last_name@ == user_info.family_name@,
            r.password@ == Seq::<char>::empty(),
            r.dt_created == now,
            r.dt_updated == now,
            r.dt_deleted is None,
    {
        User {
            id,
            username: generate_username_from_email(user_info.email.as_str()),
            email: user_info.email.clone(),
            first_name: user_info.given_name.clone(),
            last_name: user_info.family_name.clone(),
            password: String::new(),
            dt_created: now,
            dt_updated: now,
            dt_deleted: None,
        }
    }

    /// The profile a first provider login creates: empty contact data,
    /// the email already confirmed when the provider says so, the access
    /// level the roles yield.
    pub fn profile_from_keycloak(user_info: &KeycloakUserInfo, id: Id, user_id: Id, now: i64) -> (r:
        Profile)
        ensures
            r.id == id,
            r.user_id == user_id,
            r.bio is None,
            r.birth_date is None,
            r.phone is None,
            r.document is None,
            r.profession is None,
            r.avatar is None,
            r.confirm_email == user_info.email_verified,
            r.unsubscribe == false,
            r.access_level@ == access_level_of(*user_info),
            r.dt_created == now,
            r.dt_updated == now,
    {
        Profile {
            id,
            user_id,
            bio: None,
            birth_date: None,
            phone: None,
            document: None,
            profession: None,
            avatar: None,
            confirm_email: user_info.email_verified,
            unsubscribe: false,
            access_level: Self::map_keycloak_roles_to_access_level(user_info),
            dt_updated: now,
            dt_created: now,
        }
    }
}

} // verus!
