use rust_template::app_error::AppError;
use rust_template::ids::Id;
use rust_template::tenant::Tenant;
use rust_template::user::{
    ChangePasswordRequest, ForgotPasswordRequest, Profile, ProfileRequest, UpdateProfileRequest,
    UpdateUserRequest, User, UserResponse, UserService, UserToken, UserWithProfile,
};
use rust_template::validation::Date;

#[test]
fn user_tokens_expire_one_hour_after_creation() {
    let token = UserToken::new(
        Id(1),
        Id(2),
        "code-1".to_string(),
        "confirm_email".to_string(),
        10_000,
    );
    assert_eq!(token.expires_at, 13_600);
    assert!(!token.consumed);
    assert_eq!(token.dt_created, 10_000);

    assert!(token.is_usable(13_599));
    assert!(!token.is_usable(13_600));

    let mut used = token;
    used.consumed = true;
    assert!(!used.is_usable(10_001));
}

#[test]
fn profiles_from_requests_parse_the_birth_date() {
    let request = ProfileRequest {
        bio: Some("uma bio".to_string()),
        birth_date: Some("1990-05-17".to_string()),
        phone: None,
        document: None,
        profession: None,
        avatar: None,
        confirm_email: None,
        unsubscribe: Some(true),
        access_level: None,
    };
    let profile = Profile::from_request(Id(1), Id(2), Some(request), 700);
    assert_eq!(
        profile.birth_date,
        Some(Date {
            year: 1990,
            month: 5,
            day: 17
        })
    );
    assert_eq!(profile.bio, Some("uma bio".to_string()));
    assert!(!profile.confirm_email);
    assert!(profile.unsubscribe);
    assert_eq!(profile.access_level, "user");

    let bad_date = ProfileRequest {
        bio: None,
        birth_date: Some("1990-02-30".to_string()),
        phone: None,
        document: None,
        profession: None,
        avatar: None,
        confirm_email: None,
        unsubscribe: None,
        access_level: Some("admin".to_string()),
    };
    let profile = Profile::from_request(Id(1), Id(2), Some(bad_date), 700);
    assert_eq!(profile.birth_date, None);
    assert_eq!(profile.access_level, "admin");

    let empty = Profile::from_request(Id(1), Id(2), None, 700);
    assert_eq!(empty.access_level, "user");
    assert_eq!(empty.bio, None);
    assert_eq!(empty.dt_created, 700);
}

#[test]
fn profile_updates_merge_only_given_fields() {
    let base = Profile::new(Id(1), Id(2), 700);
    let update = UpdateProfileRequest {
        bio: Some("Nova biografia de teste".to_string()),
        phone: Some("11999999999".to_string()),
        birth_date: None,
        profession: Some("Desenvolvedor".to_string()),
        document: None,
        avatar: None,
    };
    let merged = base.apply_update(update);
    assert_eq!(merged.bio, Some("Nova biografia de teste".to_string()));
    assert_eq!(merged.phone, Some("11999999999".to_string()));
    assert_eq!(merged.profession, Some("Desenvolvedor".to_string()));
    assert_eq!(merged.birth_date, None);
    assert_eq!(merged.access_level, "user");
}

#[test]
fn profile_requests_validate_each_field() {
    let ok = ProfileRequest {
        bio: Some("bio".to_string()),
        birth_date: Some("1990-05-17".to_string()),
        phone: Some("+5511999999999".to_string()),
        document: Some("123.456.789-01".to_string()),
        profession: Some("Dev".to_string()),
        avatar: Some("https://img.example.com/a.png".to_string()),
        confirm_email: None,
        unsubscribe: None,
        access_level: Some("user".to_string()),
    };
    assert!(ok.validate().is_ok());

    let short_bio = ProfileRequest {
        bio: Some("ab".to_string()),
        birth_date: None,
        phone: None,
        document: None,
        profession: None,
        avatar: None,
        confirm_email: None,
        unsubscribe: None,
        access_level: None,
    };
    assert!(short_bio.validate().is_err());

    let bad_avatar = ProfileRequest {
        bio: None,
        birth_date: None,
        phone: None,
        document: None,
        profession: None,
        avatar: Some("not-a-url".to_string()),
        confirm_email: None,
        unsubscribe: None,
        access_level: None,
    };
    match bad_avatar.validate() {
        Err(e) => assert_eq!(e.message, Some("URL do avatar inválida".to_string())),
        Ok(_) => panic!("esperava erro"),
    }
}

#[test]
fn update_user_requests_check_name_lengths() {
    let ok = UpdateUserRequest {
        first_name: Some("Updated".to_string()),
        last_name: Some("Name".to_string()),
    };
    assert!(ok.validate().is_ok());

    let short = UpdateUserRequest {
        first_name: Some("A".to_string()),
        last_name: None,
    };
    assert!(short.validate().is_err());

    let none = UpdateUserRequest {
        first_name: None,
        last_name: None,
    };
    assert!(none.validate().is_ok());
}

#[test]
fn user_updates_coalesce_names() {
    let user = User::new("u", "u@example.com", "Old", "Name", "password123").unwrap();
    let created = user.dt_created;
    let updated = user.apply_update(
        UpdateUserRequest {
            first_name: Some("Updated".to_string()),
            last_name: None,
        },
        created + 5,
    );
    assert_eq!(updated.first_name, "Updated");
    assert_eq!(updated.last_name, "Name");
    assert_eq!(updated.dt_updated, created + 5);
    assert_eq!(updated.dt_created, created);
}

#[test]
fn credentials_are_checked_against_the_hash() {
    let user = User::new("u", "u@example.com", "Test", "User", "password123").unwrap();
    assert!(UserService::check_credentials(&Some(user.clone_record()), "password123").is_ok());
    match UserService::check_credentials(&Some(user), "wrong-password1") {
        Err(AppError::Unauthorized(msg)) => {
            assert_eq!(msg, Some("Credenciais inválidas".to_string()))
        }
        _ => panic!("esperava Unauthorized"),
    }
    match UserService::check_credentials(&None, "password123") {
        Err(AppError::Unauthorized(msg)) => {
            assert_eq!(msg, Some("Credenciais inválidas".to_string()))
        }
        _ => panic!("esperava Unauthorized"),
    }
}

#[test]
fn missing_profile_and_stale_tokens_are_reported() {
    match UserService::require_profile(None) {
        Err(AppError::NotFound(msg)) => {
            assert_eq!(msg, Some("Perfil não encontrado".to_string()))
        }
        _ => panic!("esperava NotFound"),
    }
    let profile = Profile::new(Id(1), Id(2), 700);
    assert!(UserService::require_profile(Some(profile)).is_ok());

    match UserService::require_valid_token(None) {
        Err(AppError::BadRequest(msg)) => {
            assert_eq!(msg, Some("Token inválido ou expirado".to_string()))
        }
        _ => panic!("esperava BadRequest"),
    }
}

#[test]
fn simple_request_validations() {
    assert!(ForgotPasswordRequest {
        email: "a@b.co".to_string()
    }
    .validate()
    .is_ok());
    assert!(ForgotPasswordRequest {
        email: "bad".to_string()
    }
    .validate()
    .is_err());

    assert!(ChangePasswordRequest {
        code: "anything".to_string(),
        password: "password123".to_string()
    }
    .validate()
    .is_ok());
    assert!(ChangePasswordRequest {
        code: "anything".to_string(),
        password: "123".to_string()
    }
    .validate()
    .is_err());
}

#[test]
fn responses_pack_the_session() {
    let user = User::new("u", "u@example.com", "Test", "User", "password123").unwrap();
    let profile = Profile::new(Id(1), user.id, 700);
    let tenant = Tenant::new(Id(9), user.id, "api_template", 700);
    assert_eq!(tenant.tenant_type, "api_template");
    assert_eq!(tenant.dt_deleted, None);

    let combined = UserWithProfile::from_user_and_profile_ref(&user, &profile, &tenant);
    assert_eq!(combined.email, "u@example.com");
    assert_eq!(combined.tenant.id, Id(9));

    let response = UserResponse::from(combined, "tok".to_string(), "86400".to_string());
    assert_eq!(response.token, "tok");
    assert_eq!(response.expires_in, "86400");
    assert_eq!(response.user.username, "u");

    let page = UserService::build_user_page(3, vec![user], 10, 0);
    assert_eq!(page.count, 3);
    assert_eq!(page.results.len(), 1);
    assert_eq!(page.limit, 10);
}
