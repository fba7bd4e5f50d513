use message_intake::endpoint::{
    begin_add, finish_add, finish_list, AddStep, PersistenceError, Reply, ReplyBody,
    STATUS_BAD_REQUEST, STATUS_OK, STATUS_SERVER_ERROR,
};
use message_intake::model::{
    is_newest_first, AddMessageRequest, CustomerMessage, InsertedRow, Timestamp,
};
use message_intake::request::MessagePayload;

fn payload(name: Option<&str>, email: Option<&str>, message: Option<&str>) -> MessagePayload {
    MessagePayload {
        customer_name: name.map(|s| s.to_string()),
        email: email.map(|s| s.to_string()),
        message: message.map(|s| s.to_string()),
    }
}

fn request(name: &str, email: &str, message: &str) -> AddMessageRequest {
    AddMessageRequest {
        customer_name: name.to_string(),
        email: email.to_string(),
        message: message.to_string(),
    }
}

fn record(id: u128, name: &str, secs: i64) -> CustomerMessage {
    CustomerMessage {
        id: Some(id),
        customer_name: name.to_string(),
        email: format!("{}@example.com", name),
        message: "Hi".to_string(),
        created_at: Some(Timestamp { secs, nanos: 0 }),
    }
}

fn failure(detail: &str) -> PersistenceError {
    PersistenceError { detail: detail.to_string() }
}

#[test]
fn status_constants_have_their_values() {
    assert_eq!(STATUS_OK, 200);
    assert_eq!(STATUS_BAD_REQUEST, 400);
    assert_eq!(STATUS_SERVER_ERROR, 500);
}

#[test]
fn complete_payload_goes_to_the_store_unchanged() {
    let step = begin_add(payload(Some("Alice"), Some("alice@example.com"), Some("Hello")));
    assert_eq!(step, AddStep::Insert(request("Alice", "alice@example.com", "Hello")));
}

#[test]
fn payload_without_customer_name_is_rejected_before_the_store() {
    let step = begin_add(payload(None, Some("alice@example.com"), Some("Hello")));
    assert_eq!(
        step,
        AddStep::Reject(Reply { status: 400, body: ReplyBody::Error("customer_name".to_string()) })
    );
}

#[test]
fn payload_without_email_is_rejected_before_the_store() {
    let step = begin_add(payload(Some("Alice"), None, Some("Hello")));
    assert_eq!(
        step,
        AddStep::Reject(Reply { status: 400, body: ReplyBody::Error("email".to_string()) })
    );
}

#[test]
fn payload_without_message_is_rejected_before_the_store() {
    let step = begin_add(payload(Some("Alice"), Some("alice@example.com"), None));
    assert_eq!(
        step,
        AddStep::Reject(Reply { status: 400, body: ReplyBody::Error("message".to_string()) })
    );
}

#[test]
fn empty_payload_is_rejected_for_its_first_field() {
    let step = begin_add(payload(None, None, None));
    assert_eq!(
        step,
        AddStep::Reject(Reply { status: 400, body: ReplyBody::Error("customer_name".to_string()) })
    );
}

#[test]
fn written_row_gives_the_full_record() {
    let row = InsertedRow { id: 42, created_at: Some(Timestamp { secs: 1_700_000_000, nanos: 5 }) };
    let done = finish_add(request("Alice", "alice@example.com", "Hello"), Ok(row));
    assert_eq!(done.failure, None);
    assert_eq!(done.reply.status, 200);
    assert_eq!(
        done.reply.body,
        ReplyBody::Message(CustomerMessage {
            id: Some(42),
            customer_name: "Alice".to_string(),
            email: "alice@example.com".to_string(),
            message: "Hello".to_string(),
            created_at: Some(Timestamp { secs: 1_700_000_000, nanos: 5 }),
        })
    );
}

#[test]
fn written_row_without_creation_time_is_handed_out_as_it_is() {
    let row = InsertedRow { id: 1, created_at: None };
    let done = finish_add(request("Bob", "bob@example.com", ""), Ok(row));
    assert_eq!(done.reply.status, 200);
    match done.reply.body {
        ReplyBody::Message(message) => {
            assert_eq!(message.id, Some(1));
            assert_eq!(message.created_at, None);
            assert_eq!(message.message, "");
        }
        other => panic!("unexpected body {:?}", other),
    }
}

#[test]
fn failed_insert_gives_the_fixed_reply_and_keeps_the_cause_for_the_log() {
    let done = finish_add(
        request("Alice", "alice@example.com", "Hello"),
        Err(failure("connection refused")),
    );
    assert_eq!(
        done.reply,
        Reply { status: 500, body: ReplyBody::Error("無法保存訊息".to_string()) }
    );
    assert_eq!(done.failure, Some(failure("connection refused")));
}

#[test]
fn failed_insert_reply_does_not_depend_on_the_cause() {
    let first = finish_add(request("A", "a", "a"), Err(failure("timeout")));
    let second = finish_add(request("B", "b", "b"), Err(failure("unique violation")));
    assert_eq!(first.reply, second.reply);
}

#[test]
fn empty_store_lists_as_an_empty_sequence_with_success() {
    let done = finish_list(Ok(Vec::new()));
    assert_eq!(done.reply, Reply { status: 200, body: ReplyBody::Messages(Vec::new()) });
    assert_eq!(done.failure, None);
}

#[test]
fn listing_keeps_every_row_in_the_order_of_the_store() {
    let rows = vec![record(3, "carol", 300), record(2, "bob", 200), record(1, "alice", 100)];
    let done = finish_list(Ok(rows.clone()));
    assert_eq!(done.reply.status, 200);
    match done.reply.body {
        ReplyBody::Messages(listed) => {
            assert_eq!(listed.len(), 3);
            assert_eq!(listed, rows);
            assert!(is_newest_first(&listed));
        }
        other => panic!("unexpected body {:?}", other),
    }
}

#[test]
fn failed_listing_gives_the_fixed_reply_and_keeps_the_cause_for_the_log() {
    let done = finish_list(Err(failure("pool closed")));
    assert_eq!(
        done.reply,
        Reply { status: 500, body: ReplyBody::Error("無法獲取訊息列表".to_string()) }
    );
    assert_eq!(done.failure, Some(failure("pool closed")));
}

#[test]
fn posted_message_comes_back_and_heads_the_listing() {
    let step = begin_add(payload(Some("Alice"), Some("alice@example.com"), Some("Hello")));
    let accepted = match step {
        AddStep::Insert(accepted) => accepted,
        AddStep::Reject(reply) => panic!("rejected with {:?}", reply),
    };
    let row = InsertedRow {
        id: 0x1234_5678_9abc_def0_1234_5678_9abc_def0,
        created_at: Some(Timestamp { secs: 1_760_000_000, nanos: 123_456_000 }),
    };
    let done = finish_add(accepted, Ok(row));
    assert_eq!(done.reply.status, 200);
    let stored = match done.reply.body {
        ReplyBody::Message(stored) => stored,
        other => panic!("unexpected body {:?}", other),
    };
    assert_eq!(stored.id, Some(row.id));
    assert_eq!(stored.customer_name, "Alice");
    assert_eq!(stored.email, "alice@example.com");
    assert_eq!(stored.message, "Hello");
    assert_eq!(stored.created_at, row.created_at);

    let listed = finish_list(Ok(vec![stored.clone(), record(9, "older", 1_000)]));
    assert_eq!(listed.reply.status, 200);
    match listed.reply.body {
        ReplyBody::Messages(rows) => assert_eq!(rows[0], stored),
        other => panic!("unexpected body {:?}", other),
    }
}

#[test]
fn two_written_rows_keep_their_distinct_identifiers() {
    let first = finish_add(
        request("Alice", "alice@example.com", "One"),
        Ok(InsertedRow { id: 10, created_at: Some(Timestamp { secs: 50, nanos: 0 }) }),
    );
    let second = finish_add(
        request("Bob", "bob@example.com", "Two"),
        Ok(InsertedRow { id: 11, created_at: Some(Timestamp { secs: 50, nanos: 1 }) }),
    );
    let (a, b) = match (first.reply.body, second.reply.body) {
        (ReplyBody::Message(a), ReplyBody::Message(b)) => (a, b),
        other => panic!("unexpected bodies {:?}", other),
    };
    assert_ne!(a.id, b.id);
    let listed = finish_list(Ok(vec![b.clone(), a.clone()]));
    match listed.reply.body {
        ReplyBody::Messages(rows) => {
            assert_eq!(rows.len(), 2);
            assert!(rows.contains(&a));
            assert!(rows.contains(&b));
        }
        other => panic!("unexpected body {:?}", other),
    }
}
