use beatdrop::api_error::{ApiError, Status};
use beatdrop::database::TxEnded;
use beatdrop::errors::{Error, ResultExt};

#[test]
fn client_errors_carry_their_status_and_reason() {
    assert_eq!(ApiError::bad_request("a").response_parts(), (Status::BadRequest, "a"));
    assert_eq!(ApiError::unauthorised("b").response_parts(), (Status::Unauthorized, "b"));
    assert_eq!(ApiError::forbidden("c").response_parts(), (Status::Forbidden, "c"));
    assert_eq!(ApiError::not_found("d").response_parts(), (Status::NotFound, "d"));
    assert_eq!(ApiError::conflict("e").response_parts(), (Status::Conflict, "e"));
}

#[test]
fn internal_errors_are_hidden_from_the_client() {
    let error = ApiError::internal("the database password is hunter2".to_string());
    assert_eq!(error.response_parts(), (Status::InternalServerError, "internal server error"));
    let (status, error) = error.into_outcome();
    assert_eq!(status, Status::InternalServerError);
    assert!(matches!(error, ApiError::Internal(_)));
}

#[test]
fn outcomes_keep_the_error() {
    let (status, error) = ApiError::unauthorised("auth header missing").into_outcome();
    assert_eq!(status, Status::Unauthorized);
    assert!(matches!(error, ApiError::Client((Status::Unauthorized, "auth header missing"))));
}

#[test]
fn status_codes() {
    assert_eq!(Status::BadRequest.code(), 400);
    assert_eq!(Status::Unauthorized.code(), 401);
    assert_eq!(Status::Forbidden.code(), 403);
    assert_eq!(Status::NotFound.code(), 404);
    assert_eq!(Status::Conflict.code(), 409);
    assert_eq!(Status::InternalServerError.code(), 500);
}

#[test]
fn context_is_added_to_internal_errors_only() {
    let error = Error::internal("connection lost".to_string()).wrap_err("querying").wrap_err("loading");
    match error {
        Error::Internal(failure) => {
            assert_eq!(failure.cause, "connection lost");
            assert_eq!(failure.context, vec!["querying", "loading"]);
        }
        _ => panic!("an internal error must stay internal"),
    }
    assert!(matches!(Error::Auth("x").wrap_err("y"), Error::Auth("x")));
    assert!(matches!(Error::InvalidForm("x").wrap_err("y"), Error::InvalidForm("x")));
    assert!(matches!(Error::NotFound("x").wrap_err("y"), Error::NotFound("x")));
}

#[test]
fn results_take_context() {
    let fine: Result<u8, Error> = Ok(3);
    assert!(matches!(fine.wrap_err("context"), Ok(3)));
    let failed: Result<u8, Error> = Err(Error::internal("cause".to_string()));
    match failed.wrap_err("context") {
        Err(Error::Internal(failure)) => assert_eq!(failure.context, vec!["context"]),
        _ => panic!("the error must stay"),
    }
}

#[test]
fn errors_have_a_status_and_a_text() {
    assert_eq!(Error::Auth("a").response_parts(), (Status::Unauthorized, "a"));
    assert_eq!(Error::InvalidForm("b").response_parts(), (Status::BadRequest, "b"));
    assert_eq!(Error::NotFound("c").response_parts(), (Status::NotFound, "c"));
    assert_eq!(
        Error::internal("secret".to_string()).response_parts(),
        (Status::InternalServerError, "internal server error")
    );
}

#[test]
fn unended_transactions_are_reported() {
    let mut guard = TxEnded::new("a request".to_string());
    assert_eq!(guard.dropped_unended(), Some(&"a request".to_string()));
    guard.end();
    assert_eq!(guard.dropped_unended(), None);
}
