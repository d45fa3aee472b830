use todo_repository::contract::{ID_IN_USE, NO_ID_LEFT};
use todo_repository::decimal::append_decimal;
use todo_repository::error::RepositoryError;

fn decimal(value: i32) -> String {
    let mut text = String::new();
    append_decimal(&mut text, value);
    text
}

#[test]
fn not_found_names_the_id() {
    assert_eq!(RepositoryError::NotFound(1).message(), "NotFound, id is 1");
    assert_eq!(RepositoryError::NotFound(0).message(), "NotFound, id is 0");
    assert_eq!(RepositoryError::NotFound(-7).message(), "NotFound, id is -7");
    assert_eq!(
        RepositoryError::NotFound(1234567890).message(),
        "NotFound, id is 1234567890"
    );
}

#[test]
fn unexpected_quotes_the_description() {
    assert_eq!(
        RepositoryError::Unexpected("connection reset".to_string()).message(),
        "Unexpected Error [connection reset]"
    );
    assert_eq!(
        RepositoryError::Unexpected(String::new()).message(),
        "Unexpected Error []"
    );
    assert_eq!(
        RepositoryError::Unexpected("田中 太郎".to_string()).message(),
        "Unexpected Error [田中 太郎]"
    );
}

#[test]
fn decimal_of_single_digits() {
    for value in 0..10 {
        assert_eq!(decimal(value), value.to_string());
    }
}

#[test]
fn decimal_at_the_powers_of_ten() {
    let mut power: i32 = 1;
    for _ in 0..9 {
        power *= 10;
        assert_eq!(decimal(power - 1), (power - 1).to_string());
        assert_eq!(decimal(power), power.to_string());
        assert_eq!(decimal(-power), (-power).to_string());
    }
}

#[test]
fn decimal_at_the_ends_of_the_range() {
    assert_eq!(decimal(i32::MAX), "2147483647");
    assert_eq!(decimal(i32::MIN), "-2147483648");
    assert_eq!(decimal(-1), "-1");
    assert_eq!(decimal(1002003), "1002003");
}

#[test]
fn decimal_is_appended_to_what_is_there() {
    let mut text = "id ".to_string();
    append_decimal(&mut text, 42);
    append_decimal(&mut text, -3);
    assert_eq!(text, "id 42-3");
}

#[test]
fn descriptions_of_create_failures() {
    assert_eq!(NO_ID_LEFT, "no id is left to assign");
    assert_eq!(ID_IN_USE, "the next id belongs to a stored record");
}
