use grantbot::models::{not_found, require_found, require_repo_counted, require_rows_updated, AppError};

fn message(e: AppError) -> String {
    match e {
        AppError::NotFound(m) => m,
        AppError::Database(_) => panic!("expected NotFound"),
    }
}

#[test]
fn not_found_message() {
    assert_eq!(message(not_found("Repo", "abc")), "Repo abc not found");
    assert_eq!(message(not_found("PR event", "x-1")), "PR event x-1 not found");
}

#[test]
fn contributor_needs_repo() {
    assert!(require_repo_counted(Some(1), "r").is_ok());
    assert_eq!(message(require_repo_counted(Some(0), "r").unwrap_err()), "Repo r not found");
    assert_eq!(message(require_repo_counted(None, "r").unwrap_err()), "Repo r not found");
}

#[test]
fn delegation_needs_row() {
    assert!(require_rows_updated(1, "id").is_ok());
    assert_eq!(message(require_rows_updated(0, "id").unwrap_err()), "Repo id not found");
}

#[test]
fn found_or_not() {
    assert_eq!(require_found(Some(5), "PR event", "e").ok(), Some(5));
    assert_eq!(message(require_found::<i32>(None, "PR event", "e").unwrap_err()), "PR event e not found");
}
