use rust_template::app_error::AppError;
use rust_template::auth::{
    Claims, calculate_remaining_expiration, extract_token, middleware_token, require_admin,
    require_super_admin,
};
use rust_template::ids::Id;
use rust_template::keycloak::{
    ClientAccess, KeycloakConfig, KeycloakLoginRequest, KeycloakService,
    KeycloakTokenIntrospectResponse, RealmAccess, ResourceAccess,
};
use rust_template::orchestrator::{
    AppAuthorizationResponse, CreateOrchestratorRequest, Orchestrator, OrchestratorService,
    SyncAllUsersRequest, SyncProducer, UpdateOrchestratorRequest, sync_url,
};
use rust_template::settings::{
    DatabaseSettings, Environment, JwtSettings, ServerSettings,
};

// ===== auth =====

#[test]
fn tokens_come_out_of_the_authorization_header() {
    assert_eq!(extract_token("Bearer abc123"), "abc123");
    assert_eq!(extract_token("Token xyz"), "xyz");
    assert_eq!(extract_token("raw-value"), "raw-value");
    assert_eq!(extract_token(""), "");

    match middleware_token("") {
        Err(AppError::Unauthorized(msg)) => {
            assert_eq!(msg, Some("Token não fornecido".to_string()))
        }
        _ => panic!("esperava Unauthorized"),
    }
    assert_eq!(middleware_token("Token t1").ok(), Some("t1".to_string()));
}

#[test]
fn claims_expire_after_the_configured_lifetime() {
    let claims = Claims::new("user-1", "admin", Id(4), 1_000_000, 86400);
    assert_eq!(claims.sub, "user-1");
    assert_eq!(claims.access_level, "admin");
    assert_eq!(claims.tenant_id, Id(4));
    assert_eq!(claims.exp, 1_086_400);
}

#[test]
fn remaining_expiration_saturates() {
    assert_eq!(calculate_remaining_expiration(1000, 400), 600);
    assert_eq!(calculate_remaining_expiration(400, 1000), -600);
    assert_eq!(calculate_remaining_expiration(i64::MAX, -1), i64::MAX);
    assert_eq!(calculate_remaining_expiration(i64::MIN, 1), i64::MIN);
}

#[test]
fn access_level_gates_match_the_routes() {
    assert!(require_super_admin("super_admin", "m").is_ok());
    match require_super_admin("admin", "Acesso negado. Apenas super_admin pode listar os apps.") {
        Err(AppError::Forbidden(msg)) => assert_eq!(
            msg,
            Some("Acesso negado. Apenas super_admin pode listar os apps.".to_string())
        ),
        _ => panic!("esperava Forbidden"),
    }
    assert!(require_admin("admin", "m").is_ok());
    assert!(require_admin("super_admin", "m").is_ok());
    assert!(require_admin("user", "m").is_err());
}

// ===== settings =====

#[test]
fn database_settings_enforce_url_and_connections() {
    let ok = DatabaseSettings {
        url: "postgres://localhost/app".to_string(),
        max_connections: 5,
        test_url: None,
    };
    assert!(ok.validate().is_ok());

    let empty = DatabaseSettings {
        url: "".to_string(),
        max_connections: 5,
        test_url: None,
    };
    assert!(empty.validate().is_err());

    let too_many = DatabaseSettings {
        url: "postgres://localhost/app".to_string(),
        max_connections: 500,
        test_url: None,
    };
    assert!(too_many.validate().is_err());
}

#[test]
fn jwt_settings_enforce_secret_and_lifetime() {
    let ok = JwtSettings {
        secret: "0123456789abcdef0123456789abcdef".to_string(),
        expires_in: 86400,
    };
    assert!(ok.validate().is_ok());

    let short = JwtSettings {
        secret: "short".to_string(),
        expires_in: 86400,
    };
    assert!(short.validate().is_err());

    let brief = JwtSettings {
        secret: "0123456789abcdef0123456789abcdef".to_string(),
        expires_in: 100,
    };
    assert!(brief.validate().is_err());
}

#[test]
fn server_settings_refuse_the_unspecified_address() {
    let ok = ServerSettings {
        host: "127.0.0.1".to_string(),
        port: 8080,
    };
    assert!(ok.validate().is_ok());

    let unspecified = ServerSettings {
        host: "0.0.0.0".to_string(),
        port: 8080,
    };
    assert!(unspecified.validate().is_err());

    let no_port = ServerSettings {
        host: "127.0.0.1".to_string(),
        port: 0,
    };
    assert!(no_port.validate().is_err());
}

#[test]
fn environments_parse_ignoring_case() {
    assert_eq!(
        Environment::from_text("Development").ok(),
        Some(Environment::Development)
    );
    assert_eq!(
        Environment::from_text("PRODUCTION").ok(),
        Some(Environment::Production)
    );
    assert_eq!(
        Environment::from_text("testing").ok(),
        Some(Environment::Testing)
    );
    assert_eq!(
        Environment::from_text("staging").err(),
        Some("Ambiente inválido: staging".to_string())
    );
}

// ===== orchestrators and sync =====

fn mk_orchestrator(id: u128, name: &str, url: &str) -> Orchestrator {
    Orchestrator {
        id: Id(id),
        app_name: name.to_string(),
        app_url: url.to_string(),
        app_token: Id(id + 1000),
        dt_created: 10,
        dt_updated: 10,
        dt_deleted: None,
    }
}

#[test]
fn sync_urls_trim_trailing_slashes() {
    assert_eq!(
        sync_url("https://app.example.com///"),
        "https://app.example.com/v1/event-sync/"
    );
    assert_eq!(
        sync_url("https://app.example.com"),
        "https://app.example.com/v1/event-sync/"
    );
}

#[test]
fn sync_plan_skips_app_auth_and_honours_the_filter() {
    let orchestrators = vec![
        mk_orchestrator(1, "app_auth", "https://auth.example.com"),
        mk_orchestrator(2, "shop", "https://shop.example.com/"),
        mk_orchestrator(3, "crm", "https://crm.example.com"),
    ];

    let all = SyncProducer::plan_sync(&orchestrators, None);
    assert_eq!(all.len(), 2);
    assert_eq!(all[0].app_name, "shop");
    assert_eq!(all[0].url, "https://shop.example.com/v1/event-sync/");
    assert_eq!(all[0].auth_token, Id(1002));
    assert_eq!(all[1].app_name, "crm");

    let only = SyncProducer::plan_sync(&orchestrators, Some("crm"));
    assert_eq!(only.len(), 1);
    assert_eq!(only[0].app_name, "crm");

    let none = SyncProducer::plan_sync(&orchestrators, Some("app_auth"));
    assert_eq!(none.len(), 0);
}

#[test]
fn sync_summary_counts_failures() {
    assert!(SyncProducer::sync_summary(5, 0).is_ok());
    match SyncProducer::sync_summary(3, 2) {
        Err(AppError::InternalError(msg)) => assert_eq!(
            msg,
            Some("Sync concluído com 2 erros de 5 usuários".to_string())
        ),
        _ => panic!("esperava InternalError"),
    }
}

#[test]
fn app_authorization_answers_both_ways() {
    let known = OrchestratorService::authorization_response(Some(mk_orchestrator(
        1,
        "shop",
        "https://shop.example.com",
    )));
    let AppAuthorizationResponse { app_name, status } = known;
    assert_eq!(app_name, "shop");
    assert_eq!(status, "authorized");

    let unknown = OrchestratorService::authorization_response(None);
    assert_eq!(unknown.app_name, "unknown");
    assert_eq!(unknown.status, "unauthorized");
}

#[test]
fn orchestrator_records_update_and_answer() {
    let request = CreateOrchestratorRequest {
        app_name: "shop".to_string(),
        app_url: "https://shop.example.com".to_string(),
    };
    assert!(request.validate().is_ok());
    let o = Orchestrator::new(Id(1), Id(2), request, 99);
    assert_eq!(o.app_name, "shop");
    assert_eq!(o.app_token, Id(2));
    assert_eq!(o.dt_created, 99);

    let updated = o.apply_update(
        UpdateOrchestratorRequest {
            app_name: None,
            app_url: Some("https://new.example.com".to_string()),
        },
        120,
    );
    assert_eq!(updated.app_name, "shop");
    assert_eq!(updated.app_url, "https://new.example.com");
    assert_eq!(updated.dt_updated, 120);

    let response = updated.into_response();
    assert_eq!(response.app_name, "shop");
    assert_eq!(response.app_token, Id(2));

    let page = OrchestratorService::list_response(vec![response]);
    assert_eq!(page.count, 1);
    assert_eq!(page.limit, 10);
    assert_eq!(page.offset, 0);
}

#[test]
fn orchestrator_requests_validate_name_and_url() {
    let bad_name = CreateOrchestratorRequest {
        app_name: "a".to_string(),
        app_url: "https://ok.example.com".to_string(),
    };
    assert!(bad_name.validate().is_err());

    let bad_url = CreateOrchestratorRequest {
        app_name: "fine".to_string(),
        app_url: "nota url".to_string(),
    };
    match bad_url.validate() {
        Err(e) => assert_eq!(e.message, Some("URL do app inválida".to_string())),
        Ok(_) => panic!("esperava erro"),
    }

    assert!(SyncAllUsersRequest {
        app_name: "ok".to_string()
    }
    .validate()
    .is_ok());
    assert!(SyncAllUsersRequest {
        app_name: "x".to_string()
    }
    .validate()
    .is_err());
}

// ===== keycloak =====

fn config() -> KeycloakConfig {
    KeycloakConfig {
        base_url: "http://localhost:8080".to_string(),
        realm: "rust-template".to_string(),
        client_id: "rust-template-client".to_string(),
        client_secret: "".to_string(),
        admin_username: "admin".to_string(),
        admin_password: "admin".to_string(),
    }
}

fn empty_introspection() -> KeycloakTokenIntrospectResponse {
    KeycloakTokenIntrospectResponse {
        active: true,
        exp: None,
        iat: None,
        jti: None,
        iss: None,
        aud: None,
        sub: None,
        typ: None,
        azp: None,
        scope: None,
        sid: None,
        email_verified: None,
        name: None,
        preferred_username: None,
        given_name: None,
        family_name: None,
        email: None,
        realm_access: None,
        resource_access: None,
    }
}

#[test]
fn keycloak_urls_follow_the_layout() {
    let c = config();
    assert_eq!(
        c.auth_url(),
        "http://localhost:8080/realms/rust-template/protocol/openid-connect"
    );
    assert_eq!(
        c.token_introspect_url(),
        "http://localhost:8080/realms/rust-template/protocol/openid-connect/token/introspect"
    );
    assert_eq!(
        c._admin_url(),
        "http://localhost:8080/admin/realms/rust-template"
    );
    assert_eq!(
        c._userinfo_url(),
        "http://localhost:8080/realms/rust-template/protocol/openid-connect/userinfo"
    );
}

#[test]
fn provider_token_must_not_be_empty() {
    assert!(KeycloakLoginRequest {
        provider_token: "tok".to_string()
    }
    .validate()
    .is_ok());
    match (KeycloakLoginRequest {
        provider_token: "".to_string(),
    })
    .validate()
    {
        Err(e) => assert_eq!(e.message, Some("Provider token é obrigatório".to_string())),
        Ok(_) => panic!("esperava erro"),
    }
}

#[test]
fn user_info_requires_email_then_subject() {
    let no_email = empty_introspection();
    match KeycloakService::get_user_info_from_token(&no_email) {
        Err(AppError::BadRequest(msg)) => assert_eq!(
            msg,
            Some("Email não encontrado no token".to_string())
        ),
        _ => panic!("esperava BadRequest"),
    }

    let mut no_sub = empty_introspection();
    no_sub.email = Some("a@b.co".to_string());
    match KeycloakService::get_user_info_from_token(&no_sub) {
        Err(AppError::BadRequest(msg)) => assert_eq!(
            msg,
            Some("Subject não encontrado no token".to_string())
        ),
        _ => panic!("esperava BadRequest"),
    }

    let mut full = empty_introspection();
    full.email = Some("a@b.co".to_string());
    full.sub = Some("sub-1".to_string());
    full.given_name = Some("Ana".to_string());
    let info = KeycloakService::get_user_info_from_token(&full).expect("deveria extrair");
    assert_eq!(info.email, "a@b.co");
    assert_eq!(info.sub, "sub-1");
    assert_eq!(info.given_name, "Ana");
    assert_eq!(info.family_name, "");
    assert!(!info.email_verified);
}

#[test]
fn roles_map_to_access_levels_in_order() {
    let mut full = empty_introspection();
    full.email = Some("a@b.co".to_string());
    full.sub = Some("s".to_string());

    let mut info = KeycloakService::get_user_info_from_token(&full).unwrap();
    assert_eq!(KeycloakService::map_keycloak_roles_to_access_level(&info), "user");

    info.realm_access = Some(RealmAccess {
        roles: vec!["viewer".to_string(), "super_admin".to_string()],
    });
    assert_eq!(
        KeycloakService::map_keycloak_roles_to_access_level(&info),
        "super_admin"
    );

    // a realm-level admin wins over a client-level super_admin
    info.realm_access = Some(RealmAccess {
        roles: vec!["admin".to_string()],
    });
    info.resource_access = Some(ResourceAccess {
        rust_template_client: Some(ClientAccess {
            roles: vec!["super_admin".to_string()],
        }),
    });
    assert_eq!(
        KeycloakService::map_keycloak_roles_to_access_level(&info),
        "admin"
    );

    info.realm_access = None;
    assert_eq!(
        KeycloakService::map_keycloak_roles_to_access_level(&info),
        "super_admin"
    );
}

#[test]
fn first_provider_login_builds_user_and_profile() {
    let mut full = empty_introspection();
    full.email = Some("jane.doe@corp.example".to_string());
    full.sub = Some("s".to_string());
    full.given_name = Some("Jane".to_string());
    full.family_name = Some("Doe".to_string());
    full.email_verified = Some(true);
    let info = KeycloakService::get_user_info_from_token(&full).unwrap();

    let user = KeycloakService::user_from_keycloak(&info, Id(50), 600);
    assert_eq!(user.username, "jane_doe");
    assert_eq!(user.email, "jane.doe@corp.example");
    assert_eq!(user.first_name, "Jane");
    assert_eq!(user.last_name, "Doe");
    assert_eq!(user.password, "");
    assert_eq!(user.dt_created, 600);

    let profile = KeycloakService::profile_from_keycloak(&info, Id(51), Id(50), 600);
    assert_eq!(profile.user_id, Id(50));
    assert!(profile.confirm_email);
    assert_eq!(profile.access_level, "user");
    assert!(!profile.unsubscribe);
}
