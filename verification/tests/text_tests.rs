use rust_template::app_error::{AppError, classify_db_error};
use rust_template::formatter::generate_username_from_email;
use rust_template::text::{i64_to_string, str_concat, str_eq, str_eq_ci, u64_to_string};
use rust_template::validation::{
    Date, parse_date, validate_birth_date, validate_document, validate_email, validate_password,
    validate_phone, validate_url,
};

#[test]
fn integers_render_in_decimal() {
    assert_eq!(u64_to_string(0), "0");
    assert_eq!(u64_to_string(7), "7");
    assert_eq!(u64_to_string(12345), "12345");
    assert_eq!(u64_to_string(u64::MAX), "18446744073709551615");
    assert_eq!(i64_to_string(-987), "-987");
    assert_eq!(i64_to_string(0), "0");
    assert_eq!(i64_to_string(i64::MIN), "-9223372036854775808");
}

#[test]
fn string_helpers_behave() {
    assert_eq!(str_concat("foo", "bar"), "foobar");
    assert!(str_eq("água", "água"));
    assert!(!str_eq("a", "b"));
    assert!(str_eq_ci("AbC", "aBc"));
    assert!(!str_eq_ci("abc", "abd"));
}

#[test]
fn username_comes_from_the_email_prefix() {
    assert_eq!(
        generate_username_from_email("user.name+tag@example.com"),
        "user_name_tag"
    );
    assert_eq!(generate_username_from_email("UPPER123@x.com"), "UPPER123");
    assert_eq!(generate_username_from_email("no-at-sign"), "no_at_sign");
    assert_eq!(generate_username_from_email(""), "");
}

#[test]
fn db_errors_classify_by_sqlstate() {
    match classify_db_error(true, None, "ignored") {
        AppError::NotFound(msg) => assert_eq!(msg, Some("Registro não encontrado".to_string())),
        _ => panic!("esperava NotFound"),
    }
    match classify_db_error(false, Some("23505"), "dup") {
        AppError::Conflict(msg) => assert_eq!(msg, Some("Registro já existe".to_string())),
        _ => panic!("esperava Conflict"),
    }
    match classify_db_error(false, Some("23503"), "fk") {
        AppError::BadRequest(msg) => assert_eq!(msg, Some("Referência inválida".to_string())),
        _ => panic!("esperava BadRequest"),
    }
    match classify_db_error(false, Some("XX000"), "boom") {
        AppError::DatabaseError(msg) => assert_eq!(msg, Some("Erro no banco: boom".to_string())),
        _ => panic!("esperava DatabaseError"),
    }
    match classify_db_error(false, None, "io down") {
        AppError::DatabaseError(msg) => assert_eq!(msg, Some("io down".to_string())),
        _ => panic!("esperava DatabaseError"),
    }
}

#[test]
fn errors_carry_status_codes() {
    assert_eq!(AppError::Conflict(None).status_code(), 409);
    assert_eq!(AppError::database_error("x").status_code(), 500);
    assert_eq!(AppError::not_found("x").status_code(), 404);
    assert_eq!(AppError::unauthorized("x").status_code(), 401);
    assert_eq!(AppError::forbidden("x").status_code(), 403);
    assert_eq!(AppError::bad_request("x").status_code(), 400);
    assert_eq!(AppError::internal("x").status_code(), 500);
}

#[test]
fn errors_answer_with_message_or_default() {
    assert_eq!(AppError::not_found("sumiu").response_text(), "sumiu");
    assert_eq!(
        AppError::NotFound(None).response_text(),
        "Recurso não encontrado"
    );
    assert_eq!(
        AppError::Unauthorized(None).response_text(),
        "Não autorizado"
    );
}

#[test]
fn email_error_carries_its_message() {
    match validate_email("nope") {
        Err(e) => {
            assert_eq!(e.code, "email_validation");
            assert_eq!(e.message, Some("Email inválido".to_string()));
        }
        Ok(_) => panic!("esperava erro"),
    }
}

#[test]
fn password_errors_name_the_failed_rule() {
    match validate_password("1234567") {
        Err(e) => assert_eq!(
            e.message,
            Some("A senha deve ter pelo menos 8 caracteres e conter letras e números".to_string())
        ),
        Ok(_) => panic!("esperava erro"),
    }
    match validate_password("12345678") {
        Err(e) => assert_eq!(
            e.message,
            Some("A senha deve conter pelo menos uma letra".to_string())
        ),
        Ok(_) => panic!("esperava erro"),
    }
    match validate_password("abcdefgh") {
        Err(e) => assert_eq!(
            e.message,
            Some("A senha deve conter pelo menos um número".to_string())
        ),
        Ok(_) => panic!("esperava erro"),
    }
    assert!(validate_password("abcdefg7").is_ok());
}

#[test]
fn phone_numbers_follow_the_pattern() {
    assert!(validate_phone("+5511999999999").is_ok());
    assert!(validate_phone("11999999999").is_ok());
    assert!(validate_phone("19").is_ok());
    assert!(validate_phone("0123").is_err());
    assert!(validate_phone("abc").is_err());
    assert!(validate_phone("+0123456").is_err());
    assert!(validate_phone("").is_err());
    assert!(validate_phone("1").is_err());
    assert!(validate_phone("1234567890123456").is_err());
    match validate_phone("x") {
        Err(e) => assert_eq!(
            e.message,
            Some("Número de telefone inválido".to_string())
        ),
        Ok(_) => panic!("esperava erro"),
    }
}

#[test]
fn documents_follow_the_cpf_shape() {
    assert!(validate_document("123.456.789-01").is_ok());
    assert!(validate_document("12345678901").is_err());
    assert!(validate_document("123.456.789-0a").is_err());
    assert!(validate_document("123.456.78-901").is_err());
    match validate_document("x") {
        Err(e) => assert_eq!(
            e.message,
            Some("CPF inválido. Use o formato: 000.000.000-00".to_string())
        ),
        Ok(_) => panic!("esperava erro"),
    }
}

#[test]
fn birth_dates_are_real_calendar_days() {
    assert!(validate_birth_date("1990-05-17").is_ok());
    assert!(validate_birth_date("2024-02-29").is_ok());
    assert!(validate_birth_date("2000-02-29").is_ok());
    assert!(validate_birth_date("2023-02-29").is_err());
    assert!(validate_birth_date("1900-02-29").is_err());
    assert!(validate_birth_date("1990-13-01").is_err());
    assert!(validate_birth_date("1990-00-10").is_err());
    assert!(validate_birth_date("1990-04-31").is_err());
    assert!(validate_birth_date("1990-5-17").is_err());
    assert!(validate_birth_date("not-a-date").is_err());
    match validate_birth_date("x") {
        Err(e) => assert_eq!(
            e.message,
            Some("Data de nascimento inválida. Use o formato: YYYY-MM-DD".to_string())
        ),
        Ok(_) => panic!("esperava erro"),
    }
}

#[test]
fn parse_date_returns_the_fields() {
    assert_eq!(
        parse_date("1990-05-17"),
        Some(Date {
            year: 1990,
            month: 5,
            day: 17
        })
    );
    assert_eq!(parse_date("1990-02-30"), None);
}

#[test]
fn urls_need_an_http_scheme_and_a_host() {
    assert!(validate_url("https://example.com", "m").is_ok());
    assert!(validate_url("http://x", "m").is_ok());
    assert!(validate_url("ftp://example.com", "m").is_err());
    assert!(validate_url("http://", "m").is_err());
    assert!(validate_url("https://", "m").is_err());
    assert!(validate_url("example.com", "m").is_err());
    match validate_url("nope", "URL do avatar inválida") {
        Err(e) => assert_eq!(e.message, Some("URL do avatar inválida".to_string())),
        Ok(_) => panic!("esperava erro"),
    }
}
