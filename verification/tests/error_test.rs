use backend::db;
use backend::gql::auth::AuthError;
use backend::gql::error::{Error, ErrorCode};
use backend::gql::sql_executor;
use backend::strutil::dec_string_i64;

#[test]
fn test_error_code_strings() {
    assert_eq!(ErrorCode::NotFound.as_str(), "NOT_FOUND");
    assert_eq!(ErrorCode::InternalError.as_str(), "INTERNAL_ERROR");
    assert_eq!(ErrorCode::Unauthorized.as_str(), "UNAUTHORIZED");
    assert_eq!(ErrorCode::InvalidJwtToken.as_str(), "INVALID_JWT_TOKEN");
    assert_eq!(ErrorCode::InvalidQuery.as_str(), "INVALID_QUERY");
}

#[test]
fn test_decimal_rendering() {
    assert_eq!(dec_string_i64(0), "0");
    assert_eq!(dec_string_i64(7), "7");
    assert_eq!(dec_string_i64(10), "10");
    assert_eq!(dec_string_i64(114514), "114514");
    assert_eq!(dec_string_i64(-5), "-5");
    assert_eq!(dec_string_i64(i64::MAX), "9223372036854775807");
    assert_eq!(dec_string_i64(i64::MIN), "-9223372036854775808");
}

#[test]
fn test_not_found_details_interpolated() {
    let e = Error::of_db(db::Error::question_not_found(114514));
    assert!(matches!(e.code, ErrorCode::NotFound));
    assert_eq!(e.title, "No resource");
    assert_eq!(e.details, "question with id 114514 not found");

    let e2 = Error::of_db(db::Error::schema_not_found("shop"));
    assert_eq!(e2.details, "schema with id shop not found");

    let e3 = Error::of_db(db::Error::user_not_found("usergroup1"));
    assert_eq!(e3.details, "user with id usergroup1 not found");

    let e4 = Error::of_db(db::Error::group_not_found(20));
    assert_eq!(e4.details, "group with id 20 not found");
}

#[test]
fn test_transport_failures_collapse_without_cause_leak() {
    let e = Error::of_db(db::Error::DatabaseError("password for role x".to_string()));
    assert!(matches!(e.code, ErrorCode::InternalError));
    assert_eq!(e.details, "An internal error occurred");
    assert!(!e.details.contains("password"));

    let e2 = Error::of_db(db::Error::MissingDatabaseUrl);
    assert_eq!(e2.details, "An internal error occurred");
}

#[test]
fn test_credential_failures_are_indistinguishable() {
    let shapes = vec![
        AuthError::GetJwtSetFailed("dns failure".to_string()),
        AuthError::MissingJwkInOidc,
        AuthError::DecodeJwtHeader("bad base64".to_string()),
        AuthError::DecodeJwt("signature mismatch".to_string()),
    ];
    let normalized: Vec<Error> = shapes.into_iter().map(Error::of_auth).collect();
    for e in &normalized {
        assert!(matches!(e.code, ErrorCode::InvalidJwtToken));
        assert_eq!(e.title, normalized[0].title);
        assert_eq!(e.details, normalized[0].details);
        assert!(!e.details.contains("signature"));
        assert!(!e.details.contains("base64"));
    }
}

#[test]
fn test_sql_executor_error_normalization() {
    let rejected = Error::of_sql_executor(sql_executor::Error::InvalidQuery(
        "syntax error".to_string(),
    ));
    assert!(matches!(rejected.code, ErrorCode::InvalidQuery));
    assert_eq!(rejected.title, "Invalid query");
    assert_eq!(rejected.details, "syntax error");

    let transport = Error::of_sql_executor(sql_executor::Error::RetrieveFailed(
        "connection reset".to_string(),
    ));
    assert!(matches!(transport.code, ErrorCode::InternalError));
    assert_eq!(transport.details, "Unable to retrieve results from dbrunner.");
    assert!(!transport.details.contains("connection reset"));

    let protocol = Error::of_sql_executor(sql_executor::Error::InvalidResponseType);
    assert_eq!(protocol.details, "Unknown response type.");

    let unavailable = Error::of_sql_executor(sql_executor::Error::DbrunnerUnavailable);
    assert_eq!(unavailable.details, "Database runner is not available.");

    let answer = Error::of_sql_executor(sql_executor::Error::AnswerInvalid {
        error: "reference broken".to_string(),
    });
    assert!(matches!(answer.code, ErrorCode::InternalError));
    assert_eq!(answer.title, "Invalid answer");
    assert_eq!(answer.details, "reference broken");
}

#[test]
fn test_not_found_cause_kept_for_logs() {
    let e = Error::of_db(db::Error::question_not_found(20));
    assert_eq!(e.error.as_deref(), Some("question not found: 20"));

    let e2 = Error::of_db(db::Error::DatabaseError("connection reset".to_string()));
    assert_eq!(e2.error.as_deref(), Some("connection reset"));
}

#[test]
fn test_sql_executor_cause_kept_for_logs() {
    let rejected = Error::of_sql_executor(sql_executor::Error::InvalidQuery(
        "syntax error".to_string(),
    ));
    assert_eq!(rejected.error.as_deref(), Some("syntax error"));

    let transport = Error::of_sql_executor(sql_executor::Error::RetrieveFailed(
        "connection reset".to_string(),
    ));
    assert_eq!(transport.error.as_deref(), Some("connection reset"));

    let protocol = Error::of_sql_executor(sql_executor::Error::InvalidResponseType);
    assert!(protocol.error.is_none());
}

#[test]
fn test_found_or_decider() {
    let found = db::found_or(Some(7i64), db::Error::question_not_found(1));
    assert_eq!(found.expect("present row is the result"), 7);

    match db::found_or(None::<String>, db::Error::schema_not_found("shop")) {
        Err(db::Error::NotFound { entity, id }) => {
            assert_eq!(entity, "schema");
            assert_eq!(id, "shop");
        }
        _ => panic!("an absent row must be the given not-found failure"),
    }
}

#[test]
fn test_attempt_status_strings() {
    assert_eq!(db::AttemptStatus::Pending.as_str(), "pending");
    assert_eq!(db::AttemptStatus::Passed.as_str(), "passed");
    assert_eq!(db::AttemptStatus::Failed.as_str(), "failed");
}

#[test]
fn test_check_question_id() {
    assert!(backend::db::question::check_question_id(0).is_ok());
    assert!(backend::db::question::check_question_id(7).is_ok());
    assert!(matches!(
        backend::db::question::check_question_id(-1),
        Err(db::Error::NotPositiveID)
    ));
}

#[test]
fn test_resolve_user_row() {
    let live = db::User {
        user_id: "usergeneric0".to_string(),
        group_id: None,
        created_at: 100,
        updated_at: 100,
        deleted_at: None,
    };
    let resolved = db::user::resolve_user_row(Some(live)).expect("live user resolves");
    assert_eq!(resolved.expect("user present").user_id, "usergeneric0");

    let deleted = db::User {
        user_id: "userdeleted0".to_string(),
        group_id: None,
        created_at: 100,
        updated_at: 100,
        deleted_at: Some(200),
    };
    assert!(matches!(
        db::user::resolve_user_row(Some(deleted)),
        Err(db::Error::UserDeleted)
    ));

    let absent = db::user::resolve_user_row(None).expect("absence is not an error");
    assert!(absent.is_none());
}

#[test]
fn test_delete_user_outcome() {
    assert!(db::user::delete_user_outcome(1, "usergroup1").is_ok());
    match db::user::delete_user_outcome(0, "usernotfound0") {
        Err(db::Error::NotFound { entity, id }) => {
            assert_eq!(entity, "user");
            assert_eq!(id, "usernotfound0");
        }
        _ => panic!("zero affected rows must be a not-found failure"),
    }
}

#[test]
fn test_group_description_default() {
    let with = db::GroupCreateParameter {
        name: "group1".to_string(),
        description: Some("description1".to_string()),
    };
    assert_eq!(with.description_or_default(), "description1");

    let without = db::GroupCreateParameter { name: "group0".to_string(), description: None };
    assert_eq!(without.description_or_default(), "");
}

#[test]
fn test_gql_views_keep_fields() {
    let q = db::Question {
        question_id: 1,
        schema_id: Some("shop".to_string()),
        question_type: "query".to_string(),
        difficulty: db::Difficulty::Easy,
        title: "Find a product in the shop".to_string(),
        description: "d".to_string(),
        created_at: 10,
        updated_at: 20,
    };
    let view = backend::gql::questions::Question::from(q);
    assert_eq!(view.id, 1);
    assert_eq!(view.schema_id.as_deref(), Some("shop"));
    assert!(matches!(view.difficulty, backend::gql::questions::Difficulty::Easy));
    assert_eq!(view.title, "Find a product in the shop");

    let s = db::Schema {
        schema_id: "shop".to_string(),
        picture: None,
        description: "The schema that is for a shop".to_string(),
        created_at: 1,
        updated_at: 2,
    };
    let sview = backend::gql::schema::Schema::from(s);
    assert_eq!(sview.id, "shop");
    assert_eq!(sview.description, "The schema that is for a shop");

    let u = db::User {
        user_id: "usergroup1".to_string(),
        group_id: Some(3),
        created_at: 5,
        updated_at: 6,
        deleted_at: None,
    };
    let uview = backend::gql::user::User::from(u);
    assert_eq!(uview.user_id, "usergroup1");
    assert_eq!(uview.group_id, Some(3));

    let g = db::Group {
        group_id: 3,
        name: "group1".to_string(),
        description: "description1".to_string(),
        created_at: 7,
        updated_at: 8,
    };
    let gview = backend::gql::user::Group::from(g);
    assert_eq!(gview.group_id, 3);
    assert_eq!(gview.name, "group1");
}
