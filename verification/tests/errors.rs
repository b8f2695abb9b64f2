use wftui::errors::{Error, TaskError, TaskErrorKind};

#[test]
fn a_missing_scope_names_the_remedy() {
    let e = TaskError::of(&Error::Api {
        code: "api_error.missing_scope".to_string(),
        message: "Missing scope".to_string(),
        status: 403,
        max_page: None,
    });
    assert_eq!(e.message, "Missing scope. Sign out with Ctrl+L and sign in again to grant it.");
    assert_eq!(e.kind, TaskErrorKind::Api(403));
}
