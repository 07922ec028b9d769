use credentials::database::{conflict_field, ConflictField, DatabaseError, COLON, DOT};

#[test]
fn every_failure_has_its_text() {
    assert_eq!(DatabaseError::NoUrl.to_string(), "There is no database url in the enviroment.");
    assert_eq!(
        DatabaseError::PoolMinumumConnection.to_string(),
        "Pool is unable to open minumum connections."
    );
    assert_eq!(DatabaseError::ConnectionTimeout.to_string(), "Connection timeout.");
    assert_eq!(DatabaseError::UserameExists.to_string(), "Username exists choose another one.");
    assert_eq!(DatabaseError::EmailExists.to_string(), "Email exists choose another one.");
    assert_eq!(DatabaseError::HashError.to_string(), "Unable to hash api key.");
    assert_eq!(DatabaseError::Unauthorized.to_string(), "Unauthorized");
    assert_eq!(DatabaseError::UpdateError.to_string(), "Cannot update the api key.");
    assert_eq!(DatabaseError::QueryError.to_string(), "Cannot query the database.");
}

#[test]
fn a_conflict_has_its_failure() {
    assert_eq!(ConflictField::Username.error(), DatabaseError::UserameExists);
    assert_eq!(ConflictField::Email.error(), DatabaseError::EmailExists);
}

#[test]
fn the_marks_are_colon_and_dot() {
    assert_eq!(COLON, b':');
    assert_eq!(DOT, b'.');
}

#[test]
fn a_message_names_the_username() {
    assert_eq!(
        conflict_field(b"UNIQUE constraint failed: users.username"),
        Some(ConflictField::Username)
    );
}

#[test]
fn a_message_names_the_email() {
    assert_eq!(
        conflict_field(b"UNIQUE constraint failed: users.email"),
        Some(ConflictField::Email)
    );
}

#[test]
fn any_other_column_is_no_conflict() {
    assert_eq!(conflict_field(b"NOT NULL constraint failed: users.password"), None);
    assert_eq!(conflict_field(b"failed: users.api_key"), None);
    assert_eq!(conflict_field(b"failed: users."), None);
    assert_eq!(conflict_field(b":.x"), None);
    assert_eq!(conflict_field(b"failed: users.username "), None);
    assert_eq!(conflict_field(b"failed: users.Username"), None);
    assert_eq!(conflict_field(b"failed: users.emails"), None);
    assert_eq!(conflict_field(b"failed: users.emai"), None);
    assert_eq!(conflict_field(b"failed: users.Email"), None);
    assert_eq!(conflict_field(b"failed: a.b.username"), None);
    assert_eq!(conflict_field(b"failed: a.b.email"), None);
}

#[test]
fn only_the_first_colon_and_the_first_dot_after_it_count() {
    assert_eq!(conflict_field(b"a.b: c.username"), Some(ConflictField::Username));
    assert_eq!(conflict_field(b"a: b: c.username"), Some(ConflictField::Username));
    assert_eq!(conflict_field(b":.username"), Some(ConflictField::Username));
    assert_eq!(conflict_field(b"a.b: c.email"), Some(ConflictField::Email));
    assert_eq!(conflict_field(b":.email"), Some(ConflictField::Email));
    assert_eq!(conflict_field(b"x: users.username.more"), None);
}

#[test]
fn a_message_without_colon_or_dot_names_nothing() {
    assert_eq!(conflict_field(b""), None);
    assert_eq!(conflict_field(b"users.username"), None);
    assert_eq!(conflict_field(b"UNIQUE constraint failed: username"), None);
    assert_eq!(conflict_field(b"a.b:"), None);
}
