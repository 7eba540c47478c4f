use actix_lua::registry::Continuations;

#[test]
fn a_new_book_is_empty() {
    let book = Continuations::new();
    assert_eq!(book.len(), 0);
    assert_eq!(book.upcoming(), 1);
    assert!(!book.is_waiting(1));
}

#[test]
fn identifiers_go_up() {
    let mut book = Continuations::new();
    assert!(book.enrol(1));
    assert_eq!(book.upcoming(), 2);
    assert!(book.enrol(2));
    assert!(book.enrol(5));
    assert_eq!(book.upcoming(), 6);
    assert_eq!(book.len(), 3);
    assert!(book.is_waiting(1) && book.is_waiting(2) && book.is_waiting(5));
    assert!(!book.is_waiting(3));
}

#[test]
fn an_identifier_is_taken_once() {
    let mut book = Continuations::new();
    assert!(book.enrol(3));
    assert!(!book.enrol(3));
    assert!(!book.enrol(2));
    assert!(!book.enrol(0));
    assert!(!book.enrol(-4));
    assert_eq!(book.len(), 1);
    assert_eq!(book.upcoming(), 4);
}

#[test]
fn an_identifier_that_was_completed_does_not_come_back() {
    let mut book = Continuations::new();
    assert!(book.enrol(1));
    assert!(book.complete(1));
    assert!(!book.is_waiting(1));
    assert!(!book.enrol(1));
    assert_eq!(book.upcoming(), 2);
}

#[test]
fn completing_strikes_one_identifier() {
    let mut book = Continuations::new();
    for id in 1..=4 {
        assert!(book.enrol(id));
    }
    assert!(book.complete(2));
    assert!(!book.complete(2));
    assert!(!book.complete(9));
    assert_eq!(book.len(), 3);
    assert!(book.is_waiting(1) && book.is_waiting(3) && book.is_waiting(4));
}

#[test]
fn the_largest_integer_is_no_identifier() {
    let mut book = Continuations::new();
    assert!(!book.enrol(i64::MAX));
    assert!(book.enrol(i64::MAX - 1));
    assert_eq!(book.upcoming(), i64::MAX);
    assert!(!book.enrol(i64::MAX));
    assert_eq!(book.len(), 1);
}
