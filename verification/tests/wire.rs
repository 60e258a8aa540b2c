use book_informer::event::RawNotification;
use book_informer::informer::SessionFailure;
use book_informer::resource::{Book, Metadata, Resource};
use book_informer::wire::{read_record, read_stream, WireRecord};

fn change(tag: &str, token: &str, name: &str) -> WireRecord<Book> {
    WireRecord::Change {
        tag: tag.to_string(),
        token: token.to_string(),
        name: name.to_string(),
        namespace: "default".to_string(),
        spec: Book { title: "Dune".to_string(), authors: Some(vec!["Frank Herbert".to_string()]) },
    }
}

fn notification(tag: &str, version: u64, name: &str) -> RawNotification<Book> {
    RawNotification {
        kind: tag.to_string(),
        resource_version: version,
        object: Resource {
            metadata: Metadata {
                name: name.to_string(),
                namespace: "default".to_string(),
                resource_version: version,
            },
            spec: Book {
                title: "Dune".to_string(),
                authors: Some(vec!["Frank Herbert".to_string()]),
            },
        },
    }
}

#[test]
fn a_change_is_read_as_its_notification() {
    assert_eq!(read_record(change("ADDED", "1207", "dune")), Ok(notification("ADDED", 1207, "dune")));
    assert_eq!(
        read_record(change("WHATEVER", "0", "emma")),
        Ok(notification("WHATEVER", 0, "emma"))
    );
}

#[test]
fn a_change_without_a_version_cannot_be_recovered_from() {
    assert_eq!(read_record(change("ADDED", "", "dune")), Err(SessionFailure::Fatal));
    assert_eq!(read_record(change("ADDED", "v12", "dune")), Err(SessionFailure::Fatal));
    assert_eq!(
        read_record(change("ADDED", "18446744073709551616", "dune")),
        Err(SessionFailure::Fatal)
    );
}

#[test]
fn a_status_is_sorted_by_its_code() {
    assert_eq!(read_record(WireRecord::<Book>::Status { code: 410 }), Err(SessionFailure::Closed));
    assert_eq!(read_record(WireRecord::<Book>::Status { code: 401 }), Err(SessionFailure::Fatal));
    assert_eq!(read_record(WireRecord::<Book>::Status { code: 403 }), Err(SessionFailure::Fatal));
    assert_eq!(
        read_record(WireRecord::<Book>::Status { code: 503 }),
        Err(SessionFailure::Transient)
    );
}

#[test]
fn an_empty_stream_is_an_empty_batch() {
    assert_eq!(read_stream(Vec::<WireRecord<Book>>::new()), Ok(Vec::new()));
}

#[test]
fn a_readable_stream_is_read_whole_and_in_order() {
    let stream = vec![
        change("ADDED", "5", "dune"),
        change("MODIFIED", "6", "dune"),
        change("DELETED", "9", "emma"),
    ];
    assert_eq!(
        read_stream(stream),
        Ok(vec![
            notification("ADDED", 5, "dune"),
            notification("MODIFIED", 6, "dune"),
            notification("DELETED", 9, "emma"),
        ])
    );
}

#[test]
fn a_stream_is_read_up_to_the_record_that_ends_it() {
    let stream = vec![
        change("ADDED", "5", "dune"),
        change("MODIFIED", "6", "dune"),
        WireRecord::Status { code: 410 },
        change("DELETED", "9", "emma"),
    ];
    assert_eq!(
        read_stream(stream),
        Ok(vec![notification("ADDED", 5, "dune"), notification("MODIFIED", 6, "dune")])
    );
    let stream = vec![change("ADDED", "5", "dune"), change("MODIFIED", "x", "dune")];
    assert_eq!(read_stream(stream), Ok(vec![notification("ADDED", 5, "dune")]));
}

#[test]
fn a_stream_that_starts_with_its_end_is_a_failure() {
    let stream = vec![WireRecord::Status { code: 410 }, change("ADDED", "5", "dune")];
    assert_eq!(read_stream(stream), Err(SessionFailure::Closed));
    let stream: Vec<WireRecord<Book>> = vec![WireRecord::Status { code: 500 }];
    assert_eq!(read_stream(stream), Err(SessionFailure::Transient));
    let stream = vec![change("ADDED", "", "dune"), change("ADDED", "5", "dune")];
    assert_eq!(read_stream(stream), Err(SessionFailure::Fatal));
}
