//! Application settings.
//!
//! The surrounding application reads the environment and fills these
//! records; the rules that make a configuration acceptable are verified
//! here. The server host is carried as text, and the unspecified bind
//! addresses `0.0.0.0` and `::` are refused.

use vstd::prelude::*;
use vstd::string::StrSliceExecFns;
use crate::text::{seq_eq_ci, str_eq, str_eq_ci, str_concat};
use crate::validation::ValidationError;

verus! {

#[derive(Debug, Clone)]
pub struct DatabaseSettings {
    pub url: String,
    pub max_connections: u32,
    pub test_url: Option<String>,
}

#[derive(Debug, Clone)]
pub struct JwtSettings {
    pub secret: String,
    /// Token lifetime in seconds.
    pub expires_in: u64,
}

#[derive(Debug, Clone)]
pub struct ServerSettings {
    /// The bind address, as text.
    pub host: String,
    pub port: u16,
}

#[derive(Debug, Clone)]
pub struct ElasticsearchSettings {
    pub url: String,
    pub index_prefix: String,
}

#[derive(Debug, Clone, PartialEq, Eq, Structural)]
pub enum Environment {
    Development,
    Testing,
    Production,
}

#[derive(Debug, Clone)]
pub struct Settings {
    pub elasticsearch: ElasticsearchSettings,
    pub database: DatabaseSettings,
    pub jwt: JwtSettings,
    pub server: ServerSettings,
    pub environment: Environment,
}

impl DatabaseSettings {
    /// Whether the record is acceptable: a non-empty URL and a connection
    /// count between 1 and 100.
    pub open spec fn is_acceptable(self) -> bool {
        self.url@.len() >= 1 && 1 <= self.max_connections <= 100
    }

    pub fn validate(&self) -> (r: Result<(), ValidationError>)
        ensures
            r is Ok <==> self.is_acceptable(),
    {
        if self.url.as_str().unicode_len() < 1 {
            return Err(
                ValidationError::with_message("length", "DATABASE_URL não pode estar vazia"),
            );
        }
        if !(1 <= self.max_connections && self.max_connections <= 100) {
            return Err(
                ValidationError::with_message(
                    "range",
                    "Número de conexões deve estar entre 1 e 100",
                ),
            );
        }
        Ok(())
    }
}

impl JwtSettings {
    /// Whether the record is acceptable: a secret of at least 32
    /// characters and a lifetime between 300 and 86400 seconds.
    pub open spec fn is_acceptable(self) -> bool {
        self.secret@.len() >= 32 && 300 <= self.expires_in <= 86400
    }

    pub fn validate(&self) -> (r: Result<(), ValidationError>)
        ensures
            r is Ok <==> self.is_acceptable(),
    {
        if self.secret.as_str().unicode_len() < 32 {
            return Err(
                ValidationError::with_message(
                    "length",
                    "JWT_SECRET deve ter pelo menos 32 caracteres",
                ),
            );
        }
        if !(300 <= self.expires_in && self.expires_in <= 86400) {
            return Err(
                ValidationError::with_message(
                    "range",
                    "JWT_EXPIRES_IN deve estar entre 300 e 86400 segundos",
                ),
            );
        }
        Ok(())
    }
}

impl ServerSettings {
    /// Whether the record is acceptable: a bind address that is not the
    /// unspecified one, and a non-zero port.
    pub open spec fn is_acceptable(self) -> bool {
        self.host@ != "0.0.0.0"@ && self.host@ != "::"@ && self.port >= 1
    }

    pub fn validate(&self) -> (r: Result<(), ValidationError>)
        ensures
            r is Ok <==> self.is_acceptable(),
    {
        if str_eq(self.host.as_str(), "0.0.0.0") || str_eq(self.host.as_str(), "::") {
            return Err(ValidationError::with_message("invalid_ip", "IP não pode ser 0.0.0.0"));
        }
        if self.port < 1 {
            return Err(
                ValidationError::with_message("range", "Porta deve estar entre 1 e 65535"),
            );
        }
        Ok(())
    }
}

impl Settings {
    /// Whether the whole configuration is acceptable.
    pub open spec fn is_acceptable(self) -> bool {
        self.database.is_acceptable() && self.jwt.is_acceptable() && self.server.is_acceptable()
    }

    pub fn validate(&self) -> (r: Result<(), ValidationError>)
        ensures
            r is Ok <==> self.is_acceptable(),
    {
        match self.database.validate() {
            Ok(_) => {},
            Err(e) => {
                return Err(e);
            },
        }
        match self.jwt.validate() {
            Ok(_) => {},
            Err(e) => {
                return Err(e);
            },
        }
        match self.server.validate() {
            Ok(_) => {},
            Err(e) => {
                return Err(e);
            },
        }
        Ok(())
    }

    pub fn is_development(&self) -> (r: bool)
        ensures
            r == (self.environment == Environment::Development),
    {
        matches!(self.environment, Environment::Development)
    }

    pub fn is_production(&self) -> (r: bool)
        ensures
            r == (self.environment == Environment::Production),
    {
        matches!(self.environment, Environment::Production)
    }

    pub fn is_testing(&self) -> (r: bool)
        ensures
            r == (self.environment == Environment::Testing),
    {
        matches!(self.environment, Environment::Testing)
    }
}

impl Environment {
    /// Parses an environment name, ignoring ASCII case; anything else is
    /// reported with the offending text.
    pub fn from_text(s: &str) -> (r: Result<Environment, String>)
        ensures
            seq_eq_ci(s@, "development"@) ==> (r matches Ok(e) && e == Environment::Development),
            seq_eq_ci(s@, "testing"@) ==> (r matches Ok(e) && e == Environment::Testing),
            seq_eq_ci(s@, "production"@) ==> (r matches Ok(e) && e == Environment::Production),
            !seq_eq_ci(s@, "development"@) && !seq_eq_ci(s@, "testing"@) && !seq_eq_ci(
                s@,
                "production"@,
            ) ==> (r matches Err(m) && m@ == "Ambiente inválido: "@ + s@),
    {
        proof {
            reveal_strlit("development");
            reveal_strlit("testing");
            reveal_strlit("production");
        }
        if str_eq_ci(s, "development") {
            Ok(Environment::Development)
        } else if str_eq_ci(s, "testing") {
            Ok(Environment::Testing)
        } else if str_eq_ci(s, "production") {
            Ok(Environment::Production)
        } else {
            Err(str_concat("Ambiente inválido: ", s))
        }
    }
}

} // verus!
