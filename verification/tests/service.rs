use web_host::config::{Config, ConfigError, DatabaseBackend, Environment};
use web_host::error::{ApiError, ErrorResponse};
use web_host::handlers;
use web_host::middleware::{authenticate, AuthContext, AuthDecision, AuthLayer};
use web_host::resources::Resource;
use web_host::responses::{ApiListResponse, ApiResponse};
use web_host::router::{endpoints, Endpoint, Method, API_PREFIX};

fn resource(id: &str) -> Resource {
    Resource {
        id: id.to_string(),
        name: format!("name of {id}"),
        description: None,
        created_at: "1".to_string(),
        updated_at: "2".to_string(),
    }
}

fn environment(
    backend: Option<&str>,
    url: Option<&str>,
    bind: Option<&str>,
    auth: Option<&str>,
) -> Environment {
    Environment {
        database_backend: backend.map(|v| v.to_string()),
        database_url: url.map(|v| v.to_string()),
        bind_address: bind.map(|v| v.to_string()),
        auth_enabled: auth.map(|v| v.to_string()),
    }
}

#[test]
fn empty_environment_gives_the_defaults() {
    let config = Config::from_env(environment(None, None, None, None)).unwrap();
    assert_eq!(
        config,
        Config {
            bind_address: "127.0.0.1:3000".to_string(),
            database_url: "sqlite:./data/app.db?mode=rwc".to_string(),
            database_backend: DatabaseBackend::Sqlite,
            auth_enabled: false,
        }
    );
}

#[test]
fn postgres_backend_changes_the_default_url() {
    let config = Config::from_env(environment(Some("postgres"), None, None, None)).unwrap();
    assert_eq!(config.database_backend, DatabaseBackend::Postgres);
    assert_eq!(config.database_url, "postgres://localhost/native_leptos");
}

#[test]
fn any_other_backend_value_is_sqlite() {
    for value in ["sqlite", "Postgres", "POSTGRES", "", "postgres "] {
        let config = Config::from_env(environment(Some(value), None, None, None)).unwrap();
        assert_eq!(config.database_backend, DatabaseBackend::Sqlite);
        assert_eq!(config.database_url, "sqlite:./data/app.db?mode=rwc");
    }
}

#[test]
fn given_values_replace_the_defaults() {
    let config = Config::from_env(environment(
        Some("postgres"),
        Some("postgres://db/x"),
        Some("0.0.0.0:80"),
        Some("true"),
    ))
    .unwrap();
    assert_eq!(config.database_url, "postgres://db/x");
    assert_eq!(config.bind_address, "0.0.0.0:80");
    assert!(config.auth_enabled);
}

#[test]
fn auth_is_switched_on_by_true_and_one_only() {
    for (value, expected) in
        [("true", true), ("1", true), ("TRUE", false), ("yes", false), ("0", false), ("", false), ("11", false)]
    {
        let config = Config::from_env(environment(None, None, None, Some(value))).unwrap();
        assert_eq!(config.auth_enabled, expected, "AUTH_ENABLED={value}");
    }
}

#[test]
fn config_error_names_the_variable() {
    let error = ConfigError::MissingEnvVar("DATABASE_URL".to_string());
    assert_eq!(error.message(), "Missing required environment variable: DATABASE_URL");
}

#[test]
fn error_descriptions() {
    assert_eq!(ApiError::NotFound.message(), "Resource not found");
    assert_eq!(ApiError::Database("disk full".to_string()).message(), "Database error: disk full");
    assert_eq!(ApiError::Validation("no name".to_string()).message(), "Validation error: no name");
    assert_eq!(ApiError::Unauthorized.message(), "Unauthorized");
    assert_eq!(ApiError::Internal.message(), "Internal server error");
}

#[test]
fn error_responses_carry_status_code_and_message() {
    let response = |status: u16, code: &str, error: &str| ErrorResponse {
        status,
        code: code.to_string(),
        error: error.to_string(),
    };
    assert_eq!(ApiError::NotFound.into_response(), response(404, "NOT_FOUND", "Resource not found"));
    assert_eq!(
        ApiError::Database("disk full".to_string()).into_response(),
        response(500, "DATABASE_ERROR", "disk full")
    );
    assert_eq!(
        ApiError::Validation("no name".to_string()).into_response(),
        response(400, "VALIDATION_ERROR", "no name")
    );
    assert_eq!(ApiError::Unauthorized.into_response(), response(401, "UNAUTHORIZED", "Unauthorized"));
    assert_eq!(
        ApiError::Internal.into_response(),
        response(500, "INTERNAL_ERROR", "Internal server error")
    );
}

#[test]
fn error_status_and_code_getters() {
    assert_eq!(ApiError::NotFound.status_code(), 404);
    assert_eq!(ApiError::Unauthorized.code(), "UNAUTHORIZED");
    assert_eq!(ApiError::Database(String::new()).status_code(), 500);
    assert_eq!(ApiError::Validation(String::new()).code(), "VALIDATION_ERROR");
}

#[test]
fn health_reports_ok_and_the_version() {
    let health = handlers::health_check("1.2.3");
    assert_eq!(health.status, "ok");
    assert_eq!(health.version, "1.2.3");
}

#[test]
fn list_answer_counts_the_resources() {
    let listed = handlers::list_resources(Ok(vec![resource("a"), resource("b")])).unwrap();
    assert_eq!(listed, ApiListResponse { data: vec![resource("a"), resource("b")], total: 2 });
    let empty = handlers::list_resources(Ok(Vec::new())).unwrap();
    assert_eq!(empty.total, 0);
    assert_eq!(
        handlers::list_resources(Err(ApiError::Database("down".to_string()))),
        Err(ApiError::Database("down".to_string()))
    );
}

#[test]
fn get_answer_is_the_resource_or_not_found() {
    assert_eq!(
        handlers::get_resource(Ok(Some(resource("a")))),
        Ok(ApiResponse { data: resource("a") })
    );
    assert_eq!(handlers::get_resource(Ok(None)), Err(ApiError::NotFound));
    assert_eq!(handlers::get_resource(Err(ApiError::Internal)), Err(ApiError::Internal));
}

#[test]
fn create_answer_is_the_resource_or_the_failure() {
    assert_eq!(handlers::create_resource(Ok(resource("a"))), Ok(ApiResponse { data: resource("a") }));
    assert_eq!(
        handlers::create_resource(Err(ApiError::Database("full".to_string()))),
        Err(ApiError::Database("full".to_string()))
    );
}

#[test]
fn update_answer_is_the_resource_or_not_found() {
    assert_eq!(
        handlers::update_resource(Ok(Some(resource("a")))),
        Ok(ApiResponse { data: resource("a") })
    );
    assert_eq!(handlers::update_resource(Ok(None)), Err(ApiError::NotFound));
    assert_eq!(
        handlers::update_resource(Err(ApiError::Database("down".to_string()))),
        Err(ApiError::Database("down".to_string()))
    );
}

#[test]
fn delete_answer_is_nothing_or_not_found() {
    assert_eq!(handlers::delete_resource(Ok(true)), Ok(()));
    assert_eq!(handlers::delete_resource(Ok(false)), Err(ApiError::NotFound));
    assert_eq!(handlers::delete_resource(Err(ApiError::Internal)), Err(ApiError::Internal));
}

#[test]
fn anonymous_context_has_no_user() {
    let context = AuthContext::anonymous();
    assert_eq!(context.user_id, None);
    assert!(!context.is_authenticated);
}

#[test]
fn disabled_guard_forwards_everything_as_anonymous() {
    let service = AuthLayer::new(false).layer("inner");
    assert_eq!(service.call(None), AuthDecision::Forward(AuthContext::anonymous()));
    assert_eq!(service.call(Some("Bearer x")), AuthDecision::Forward(AuthContext::anonymous()));
    assert_eq!(*service.get_ref(), "inner");
}

#[test]
fn enabled_guard_asks_for_credentials_and_accepts_any() {
    let layer = AuthLayer::new(true);
    assert!(layer.is_enabled());
    let service = layer.layer(7u8);
    assert_eq!(service.call(None), AuthDecision::Reject);
    assert_eq!(service.call(Some("Bearer anything")), AuthDecision::Forward(AuthContext::anonymous()));
    assert_eq!(service.call(Some("")), AuthDecision::Forward(AuthContext::anonymous()));
    assert_eq!(*service.get_ref(), 7);
}

#[test]
fn credentials_give_the_anonymous_context() {
    assert_eq!(authenticate(None), None);
    assert_eq!(authenticate(Some("Bearer token")), Some(AuthContext::anonymous()));
}

#[test]
fn guarded_service_can_be_changed_in_place() {
    let mut service = AuthLayer::new(true).layer(1u32);
    *service.get_mut() += 4;
    assert_eq!(*service.get_ref(), 5);
    assert_eq!(service.call(None), AuthDecision::Reject);
}

#[test]
fn endpoints_of_the_surface() {
    let table: Vec<(&str, String, bool)> = endpoints()
        .iter()
        .map(|endpoint| (endpoint.method().name(), endpoint.path(), endpoint.is_protected()))
        .collect();
    assert_eq!(
        table,
        vec![
            ("GET", "/health".to_string(), false),
            ("GET", "/api/v1/resources".to_string(), true),
            ("POST", "/api/v1/resources".to_string(), true),
            ("GET", "/api/v1/resources/{id}".to_string(), true),
            ("PUT", "/api/v1/resources/{id}".to_string(), true),
            ("DELETE", "/api/v1/resources/{id}".to_string(), true),
        ]
    );
    assert_eq!(API_PREFIX, "/api/v1");
    assert_eq!(Endpoint::GetResource.route(), "/resources/{id}");
    assert_eq!(Endpoint::Health.method(), Method::Get);
}
