//! The application error type.
//!
//! Every service reports failure through `AppError`. A variant carries an
//! optional message; `status_code` gives the HTTP status the surrounding
//! application answers with, and `classify_db_error` maps a database
//! driver's error report (its SQLSTATE code and message, handed over as
//! plain values) to the matching variant.

use vstd::prelude::*;
use crate::text::str_concat;

verus! {

#[derive(Debug, Clone)]
pub enum AppError {
    Conflict(Option<String>),
    DatabaseError(Option<String>),
    NotFound(Option<String>),
    Unauthorized(Option<String>),
    Forbidden(Option<String>),
    BadRequest(Option<String>),
    InternalError(Option<String>),
}

impl AppError {
    /// The message carried by the error, whatever the variant.
    pub open spec fn message(self) -> Option<String> {
        match self {
            AppError::Conflict(m) => m,
            AppError::DatabaseError(m) => m,
            AppError::NotFound(m) => m,
            AppError::Unauthorized(m) => m,
            AppError::Forbidden(m) => m,
            AppError::BadRequest(m) => m,
            AppError::InternalError(m) => m,
        }
    }

    pub fn database_error(msg: &str) -> (r: AppError)
        ensures
            r matches AppError::DatabaseError(_),
            r.message() matches Some(s) && s@ == msg@,
    {
        AppError::DatabaseError(Some(msg.to_owned()))
    }

    pub fn not_found(msg: &str) -> (r: AppError)
        ensures
            r matches AppError::NotFound(_),
            r.message() matches Some(s) && s@ == msg@,
    {
        AppError::NotFound(Some(msg.to_owned()))
    }

    pub fn unauthorized(msg: &str) -> (r: AppError)
        ensures
            r matches AppError::Unauthorized(_),
            r.message() matches Some(s) && s@ == msg@,
    {
        AppError::Unauthorized(Some(msg.to_owned()))
    }

    pub fn forbidden(msg: &str) -> (r: AppError)
        ensures
            r matches AppError::Forbidden(_),
            r.message() matches Some(s) && s@ == msg@,
    {
        AppError::Forbidden(Some(msg.to_owned()))
    }

    pub fn bad_request(msg: &str) -> (r: AppError)
        ensures
            r matches AppError::BadRequest(_),
            r.message() matches Some(s) && s@ == msg@,
    {
        AppError::BadRequest(Some(msg.to_owned()))
    }

    pub fn internal(msg: &str) -> (r: AppError)
        ensures
            r matches AppError::InternalError(_),
            r.message() matches Some(s) && s@ == msg@,
    {
        AppError::InternalError(Some(msg.to_owned()))
    }

    /// The HTTP status the application answers with for this error.
    pub fn status_code(&self) -> (r: u16)
        ensures
            r == match self {
                AppError::Conflict(_) => 409u16,
                AppError::DatabaseError(_) => 500u16,
                AppError::NotFound(_) => 404u16,
                AppError::Unauthorized(_) => 401u16,
                AppError::Forbidden(_) => 403u16,
                AppError::BadRequest(_) => 400u16,
                AppError::InternalError(_) => 500u16,
            },
    {
        match self {
            AppError::Conflict(_) => 409,
            AppError::DatabaseError(_) => 500,
            AppError::NotFound(_) => 404,
            AppError::Unauthorized(_) => 401,
            AppError::Forbidden(_) => 403,
            AppError::BadRequest(_) => 400,
            AppError::InternalError(_) => 500,
        }
    }

    /// The body of the HTTP answer: the carried message, or the default
    /// text of the variant.
    pub fn response_text(&self) -> (r: String)
        ensures
            match self.message() {
                Some(m) => r@ == m@,
                None => r@ == self.default_text(),
            },
    {
        let msg = match self {
            AppError::Conflict(m) => m,
            AppError::DatabaseError(m) => m,
            AppError::NotFound(m) => m,
            AppError::Unauthorized(m) => m,
            AppError::Forbidden(m) => m,
            AppError::BadRequest(m) => m,
            AppError::InternalError(m) => m,
        };
        match msg {
            Some(m) => m.clone(),
            None => match self {
                AppError::Conflict(_) => "Conflito de dados".to_owned(),
                AppError::DatabaseError(_) => "Erro no banco de dados".to_owned(),
                AppError::NotFound(_) => "Recurso não encontrado".to_owned(),
                AppError::Unauthorized(_) => "Não autorizado".to_owned(),
                AppError::Forbidden(_) => "Acesso negado".to_owned(),
                AppError::BadRequest(_) => "Requisição inválida".to_owned(),
                AppError::InternalError(_) => "Erro interno do servidor".to_owned(),
            },
        }
    }

    /// The default text used when a variant carries no message.
    pub open spec fn default_text(self) -> Seq<char> {
        match self {
            AppError::Conflict(_) => "Conflito de dados"@,
            AppError::DatabaseError(_) => "Erro no banco de dados"@,
            AppError::NotFound(_) => "Recurso não encontrado"@,
            AppError::Unauthorized(_) => "Não autorizado"@,
            AppError::Forbidden(_) => "Acesso negado"@,
            AppError::BadRequest(_) => "Requisição inválida"@,
            AppError::InternalError(_) => "Erro interno do servidor"@,
        }
    }
}

/// Unique-constraint violation, in the SQL standard's SQLSTATE codes.
pub open spec fn unique_violation_code() -> Seq<char> {
    "23505"@
}

/// Foreign-key violation, in the SQL standard's SQLSTATE codes.
pub open spec fn foreign_key_violation_code() -> Seq<char> {
    "23503"@
}

/// Maps a database driver's error report to an `AppError`: a missing row
/// is `NotFound`, a
/// unique violation is `Conflict`, a foreign-key violation is
/// `BadRequest`, anything else a `DatabaseError` holding the driver's
/// message.
pub fn classify_db_error(row_not_found: bool, code: Option<&str>, message: &str) -> (r: AppError)
    ensures
        row_not_found ==> (r matches AppError::NotFound(_) && r.message() matches Some(s) && s@
            == "Registro não encontrado"@),
        !row_not_found ==> match code {
            Some(c) => if c@ == unique_violation_code() {
                (r matches AppError::Conflict(_) && r.message() matches Some(s) && s@
                    == "Registro já existe"@)
            } else if c@ == foreign_key_violation_code() {
                (r matches AppError::BadRequest(_) && r.message() matches Some(s) && s@
                    == "Referência inválida"@)
            } else {
                (r matches AppError::DatabaseError(_) && r.message() matches Some(s) && s@
                    == "Erro no banco: "@ + message@)
            },
            None => (r matches AppError::DatabaseError(_) && r.message() matches Some(s) && s@
                == message@),
        },
{
    if row_not_found {
        return AppError::not_found("Registro não encontrado");
    }
    match code {
        Some(c) => {
            if crate::text::str_eq(c, "23505") {
                AppError::Conflict(Some("Registro já existe".to_owned()))
            } else if crate::text::str_eq(c, "23503") {
                AppError::BadRequest(Some("Referência inválida".to_owned()))
            } else {
                AppError::database_error(str_concat("Erro no banco: ", message).as_str())
            }
        },
        None => AppError::database_error(message),
    }
}

} // verus!
