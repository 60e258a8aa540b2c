use book_informer::event::{ChangeEvent, EventKind, RawNotification};
use book_informer::informer::{Diagnostic, HandlerError, SessionFailure, Signal, StopReason};
use book_informer::queue::EventQueue;
use book_informer::report::{handle, warning};
use book_informer::resource::{parse_resource_version, Book, Metadata, Resource};
use book_informer::retry::{jitter, RetryPolicy};

fn dune(version: u64) -> Resource<Book> {
    Resource {
        metadata: Metadata {
            name: "dune".to_string(),
            namespace: "default".to_string(),
            resource_version: version,
        },
        spec: Book { title: "Dune".to_string(), authors: None },
    }
}

fn event(kind: EventKind, version: u64) -> ChangeEvent<Book> {
    ChangeEvent { kind, payload: dune(version) }
}

#[test]
fn type_strings_map_to_kinds() {
    assert_eq!(EventKind::from_tag("ADDED"), EventKind::Added);
    assert_eq!(EventKind::from_tag("MODIFIED"), EventKind::Modified);
    assert_eq!(EventKind::from_tag("DELETED"), EventKind::Deleted);
    assert_eq!(EventKind::from_tag("ERROR"), EventKind::Error);
    assert_eq!(EventKind::from_tag("BOOKMARK"), EventKind::BookmarkOrUnknown);
    assert_eq!(EventKind::from_tag("Added"), EventKind::BookmarkOrUnknown);
    assert_eq!(EventKind::from_tag("ADDED "), EventKind::BookmarkOrUnknown);
    assert_eq!(EventKind::from_tag(""), EventKind::BookmarkOrUnknown);
}

#[test]
fn only_bookmarks_and_unknowns_are_hidden() {
    assert!(EventKind::Added.is_dispatchable());
    assert!(EventKind::Modified.is_dispatchable());
    assert!(EventKind::Deleted.is_dispatchable());
    assert!(EventKind::Error.is_dispatchable());
    assert!(!EventKind::BookmarkOrUnknown.is_dispatchable());
}

#[test]
fn normalize_keeps_the_object() {
    let raw = RawNotification { kind: "MODIFIED".to_string(), resource_version: 8, object: dune(8) };
    assert_eq!(raw.normalize(), ChangeEvent { kind: EventKind::Modified, payload: dune(8) });
    let raw = RawNotification { kind: "PATCHED".to_string(), resource_version: 9, object: dune(9) };
    assert_eq!(raw.normalize(), ChangeEvent { kind: EventKind::BookmarkOrUnknown, payload: dune(9) });
}

#[test]
fn queue_is_first_in_first_out() {
    let mut queue: EventQueue<Book> = EventQueue::new();
    assert!(queue.is_empty());
    assert_eq!(queue.try_pop(), None);
    queue.push(event(EventKind::Added, 1));
    queue.push(event(EventKind::Modified, 2));
    queue.push(event(EventKind::Deleted, 3));
    assert_eq!(queue.len(), 3);
    assert!(!queue.is_empty());
    assert_eq!(queue.try_pop(), Some(event(EventKind::Added, 1)));
    queue.push(event(EventKind::Added, 4));
    assert_eq!(queue.try_pop(), Some(event(EventKind::Modified, 2)));
    assert_eq!(queue.try_pop(), Some(event(EventKind::Deleted, 3)));
    assert_eq!(queue.try_pop(), Some(event(EventKind::Added, 4)));
    assert_eq!(queue.try_pop(), None);
    assert_eq!(queue.len(), 0);
}

#[test]
fn pop_dispatchable_drops_hidden_events_at_the_front() {
    let mut queue: EventQueue<Book> = EventQueue::new();
    queue.push(event(EventKind::BookmarkOrUnknown, 1));
    queue.push(event(EventKind::BookmarkOrUnknown, 2));
    queue.push(event(EventKind::Added, 3));
    queue.push(event(EventKind::BookmarkOrUnknown, 4));
    queue.push(event(EventKind::Deleted, 5));
    assert_eq!(queue.pop_dispatchable(), Some(event(EventKind::Added, 3)));
    assert_eq!(queue.len(), 2);
    assert_eq!(queue.pop_dispatchable(), Some(event(EventKind::Deleted, 5)));
    assert_eq!(queue.len(), 0);
    queue.push(event(EventKind::BookmarkOrUnknown, 6));
    assert_eq!(queue.pop_dispatchable(), None);
    assert_eq!(queue.len(), 0);
}

#[test]
fn resource_versions_are_decimal_numbers() {
    assert_eq!(parse_resource_version("0"), Some(0));
    assert_eq!(parse_resource_version("7"), Some(7));
    assert_eq!(parse_resource_version("0042"), Some(42));
    assert_eq!(parse_resource_version("123456789"), Some(123456789));
    assert_eq!(parse_resource_version("18446744073709551615"), Some(u64::MAX));
}

#[test]
fn other_tokens_are_no_resource_versions() {
    assert_eq!(parse_resource_version(""), None);
    assert_eq!(parse_resource_version("18446744073709551616"), None);
    assert_eq!(parse_resource_version("99999999999999999999999"), None);
    assert_eq!(parse_resource_version("12a"), None);
    assert_eq!(parse_resource_version("a12"), None);
    assert_eq!(parse_resource_version("+12"), None);
    assert_eq!(parse_resource_version("-1"), None);
    assert_eq!(parse_resource_version(" 1"), None);
    assert_eq!(parse_resource_version("1.5"), None);
    assert_eq!(parse_resource_version("١٢"), None);
}

#[test]
fn backoff_doubles_up_to_the_cap() {
    let policy = RetryPolicy { base_ms: 1000, cap_ms: 30000, max_attempts: 5 };
    assert_eq!(policy.delay_ms(0), 1000);
    assert_eq!(policy.delay_ms(1), 2000);
    assert_eq!(policy.delay_ms(2), 4000);
    assert_eq!(policy.delay_ms(3), 8000);
    assert_eq!(policy.delay_ms(4), 16000);
    assert_eq!(policy.delay_ms(5), 30000);
    assert_eq!(policy.delay_ms(6), 30000);
    assert_eq!(policy.delay_ms(64), 30000);
    assert_eq!(policy.delay_ms(u32::MAX), 30000);
}

#[test]
fn backoff_at_the_edges() {
    let none = RetryPolicy { base_ms: 0, cap_ms: 30000, max_attempts: 5 };
    assert_eq!(none.delay_ms(0), 0);
    assert_eq!(none.delay_ms(u32::MAX), 0);
    let capped = RetryPolicy { base_ms: 500, cap_ms: 100, max_attempts: 5 };
    assert_eq!(capped.delay_ms(0), 100);
    assert_eq!(capped.delay_ms(9), 100);
    let wide = RetryPolicy { base_ms: 3, cap_ms: u64::MAX, max_attempts: 5 };
    assert_eq!(wide.delay_ms(62), 3 << 62);
    assert_eq!(wide.delay_ms(63), u64::MAX);
    assert_eq!(wide.delay_ms(200), u64::MAX);
    let odd = RetryPolicy { base_ms: 7, cap_ms: 50, max_attempts: 5 };
    assert_eq!(odd.delay_ms(2), 28);
    assert_eq!(odd.delay_ms(3), 50);
}

#[test]
fn default_policy_is_one_second_to_thirty() {
    let policy = RetryPolicy::default();
    assert_eq!(policy, RetryPolicy { base_ms: 1000, cap_ms: 30000, max_attempts: 5 });
}

#[test]
fn retry_budget() {
    let policy = RetryPolicy { base_ms: 1, cap_ms: 2, max_attempts: 3 };
    assert!(!policy.gives_up_after(0));
    assert!(!policy.gives_up_after(1));
    assert!(policy.gives_up_after(2));
    assert!(policy.gives_up_after(3));
    assert!(policy.gives_up_after(u32::MAX));
    let single = RetryPolicy { base_ms: 1, cap_ms: 2, max_attempts: 1 };
    assert!(single.gives_up_after(0));
    let none = RetryPolicy { base_ms: 1, cap_ms: 2, max_attempts: 0 };
    assert!(none.gives_up_after(0));
}

#[test]
fn failures_are_sorted_by_status() {
    assert_eq!(SessionFailure::from_status(Some(410)), SessionFailure::Closed);
    assert_eq!(SessionFailure::from_status(Some(401)), SessionFailure::Fatal);
    assert_eq!(SessionFailure::from_status(Some(403)), SessionFailure::Fatal);
    assert_eq!(SessionFailure::from_status(Some(500)), SessionFailure::Transient);
    assert_eq!(SessionFailure::from_status(Some(404)), SessionFailure::Transient);
    assert_eq!(SessionFailure::from_status(Some(0)), SessionFailure::Transient);
    assert_eq!(SessionFailure::from_status(None), SessionFailure::Transient);
}

#[test]
fn jitter_takes_from_the_lower_half() {
    assert_eq!(jitter(10, 3), 7);
    assert_eq!(jitter(10, 0), 10);
    assert_eq!(jitter(10, 5), 5);
    assert_eq!(jitter(10, 6), 10);
    assert_eq!(jitter(0, 12345), 0);
    assert_eq!(jitter(1, 99), 1);
    assert_eq!(jitter(1000, 1_000_000_007), 1000 - 1_000_000_007 % 501);
    assert_eq!(jitter(u64::MAX, u64::MAX), u64::MAX - (u64::MAX % (u64::MAX / 2 + 1)));
    for entropy in 0..2000u64 {
        let wait = jitter(30000, entropy * 7919);
        assert!(15000 <= wait && wait <= 30000);
    }
}

#[test]
fn handle_says_what_happened_to_a_book() {
    assert_eq!(handle(&event(EventKind::Added, 1)), "Added a book dune with title 'Dune'");
    assert_eq!(handle(&event(EventKind::Deleted, 2)), "Deleted a book dune");
    assert_eq!(handle(&event(EventKind::Modified, 3)), "another event");
    assert_eq!(handle(&event(EventKind::Error, 4)), "another event");
    assert_eq!(handle(&event(EventKind::BookmarkOrUnknown, 5)), "another event");
}

#[test]
fn warnings_name_what_they_are_about() {
    let gap = Diagnostic::Gap { kind: "books".to_string(), namespace: "default".to_string() };
    assert_eq!(
        warning(&gap),
        "watch of books in namespace default resumes from the current state: changes may have been missed"
    );
    let failed = Diagnostic::HandlerFailed(HandlerError { message: "no shelf left".to_string() });
    assert_eq!(warning(&failed), "handler failed: no shelf left");
}

#[test]
fn each_way_to_stop_has_its_own_exit_status() {
    assert_eq!(StopReason::Cancelled.exit_status(), 0);
    assert_eq!(StopReason::Fatal.exit_status(), 1);
    assert_eq!(StopReason::RetriesExhausted.exit_status(), 2);
    assert_eq!(StopReason::Cancelled.description(), "the watch was cancelled");
    assert_eq!(StopReason::Fatal.description(), "the watch failed and cannot be recovered");
    assert_eq!(
        StopReason::RetriesExhausted.description(),
        "the watch could not be opened again: no attempts left"
    );
}

#[test]
fn book_without_authors_is_a_book() {
    let plain = Book { title: "Dune".to_string(), authors: None };
    let signed = Book { title: "Dune".to_string(), authors: Some(vec!["Frank Herbert".to_string()]) };
    assert_eq!(plain.clone(), plain);
    assert_eq!(signed.clone(), signed);
    assert_ne!(plain, signed);
    assert_eq!(signed.authors.unwrap(), vec!["Frank Herbert".to_string()]);
}

#[test]
fn outcomes_of_the_session_become_signals() {
    assert_eq!(Signal::<Book>::from_open(Ok(())), Signal::Opened);
    assert_eq!(Signal::<Book>::from_open(Err(SessionFailure::Transient)), Signal::OpenFailed);
    assert_eq!(Signal::<Book>::from_open(Err(SessionFailure::Closed)), Signal::OpenFailed);
    assert_eq!(
        Signal::<Book>::from_open(Err(SessionFailure::Fatal)),
        Signal::Failed(SessionFailure::Fatal)
    );
    let raw = RawNotification { kind: "ADDED".to_string(), resource_version: 2, object: dune(2) };
    assert_eq!(Signal::from_read(Ok(vec![raw.clone()])), Signal::Batch(vec![raw]));
    assert_eq!(Signal::<Book>::from_read(Ok(Vec::new())), Signal::Batch(Vec::new()));
    assert_eq!(
        Signal::<Book>::from_read(Err(SessionFailure::Closed)),
        Signal::Failed(SessionFailure::Closed)
    );
    assert_eq!(
        Signal::<Book>::from_read(Err(SessionFailure::Transient)),
        Signal::Failed(SessionFailure::Transient)
    );
}
