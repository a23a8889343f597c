use arrively::http::{index, AppError, ErrorKind, Reply, Status};

#[test]
fn statuses_have_their_codes() {
    assert_eq!(Status::Success.code(), 200);
    assert_eq!(Status::Created.code(), 201);
    assert_eq!(Status::BadRequest.code(), 400);
    assert_eq!(Status::Unauthorized.code(), 401);
    assert_eq!(Status::NotFound.code(), 404);
    assert_eq!(Status::Conflict.code(), 409);
    assert_eq!(Status::InternalServerError.code(), 500);
}

#[test]
fn errors_have_the_status_of_their_kind() {
    assert_eq!(ErrorKind::ValidationError.status(), Status::BadRequest);
    assert_eq!(ErrorKind::ConflictError.status(), Status::Conflict);
    assert_eq!(ErrorKind::NotFoundError.status(), Status::NotFound);
    assert_eq!(ErrorKind::InvalidToken.status(), Status::Unauthorized);
    assert_eq!(ErrorKind::InvalidCredentials.status(), Status::Unauthorized);
    assert_eq!(ErrorKind::SigningError.status(), Status::InternalServerError);
    assert_eq!(ErrorKind::HashingError.status(), Status::InternalServerError);
    assert_eq!(ErrorKind::DatabaseError.status(), Status::InternalServerError);
}

#[test]
fn replies_are_made_with_status_and_message() {
    let ok = Reply::ok("fine");
    assert_eq!(ok.status, Status::Success);
    assert_eq!(ok.error, None);
    assert_eq!(ok.message, "fine");

    let data = Reply::data();
    assert_eq!(data.status, Status::Success);
    assert_eq!(data.error, None);
    assert_eq!(data.message, "");

    let created = Reply::created("made");
    assert_eq!(created.status, Status::Created);
    assert_eq!(created.error, None);
    assert_eq!(created.message, "made");

    let made = Reply::made();
    assert_eq!(made.status, Status::Created);
    assert_eq!(made.error, None);
    assert_eq!(made.message, "");

    let failure = Reply::failure(ErrorKind::ConflictError, "taken");
    assert_eq!(failure.status, Status::Conflict);
    assert_eq!(failure.error, Some(ErrorKind::ConflictError));
    assert_eq!(failure.message, "taken");
}

#[test]
fn the_root_greets() {
    let reply = index();
    assert_eq!(reply.status.code(), 200);
    assert_eq!(reply.message, "Welcome to Arrively API!");
}

#[test]
fn an_app_error_is_an_internal_error_with_its_message() {
    let error = AppError { message: String::from("boom") };
    assert_eq!(error.to_string(), "boom");
    let reply = error.error_response();
    assert_eq!(reply.status, Status::InternalServerError);
    assert_eq!(reply.message, "boom");
    assert_eq!(reply.error, Some(ErrorKind::DatabaseError));
}
