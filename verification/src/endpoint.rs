//! What the service answers: for each of its two routes, the decision that
//! precedes the store and the reply that follows the store's outcome.
use vstd::prelude::*;
use crate::model::{
    newest_first, stored, views_of, AddMessageRequest, CustomerMessage, InsertedRow, MessageView,
    RequestView,
};
use crate::request::{validate, MessagePayload, ValidationError};

verus! {

/// The status of a reply that carries what was asked for.
pub const STATUS_OK: u16 = 200;

/// The status of a reply to a request that lacks a field.
pub const STATUS_BAD_REQUEST: u16 = 400;

/// The status of a reply after the store has failed.
pub const STATUS_SERVER_ERROR: u16 = 500;

/// A failure of the store. `detail` is for the operator's log and never
/// reaches a client.
#[derive(Clone, Debug, PartialEq, Eq)]
pub struct PersistenceError {
    pub detail: String,
}

/// What a reply carries.
#[derive(Clone, Debug, PartialEq, Eq)]
pub enum ReplyBody {
    /// The record that was stored.
    Message(CustomerMessage),
    /// All records of the store.
    Messages(Vec<CustomerMessage>),
    /// A text that says what went wrong.
    Error(String),
}

/// A reply to a client: a status and a body to be sent as JSON.
#[derive(Clone, Debug, PartialEq, Eq)]
pub struct Reply {
    pub status: u16,
    pub body: ReplyBody,
}

/// The mathematical value of a [`ReplyBody`].
pub enum BodyView {
    Message(MessageView),
    Messages(Seq<MessageView>),
    Error(Seq<char>),
}

/// The mathematical value of a [`Reply`].
pub struct ReplyView {
    pub status: int,
    pub body: BodyView,
}

impl View for ReplyBody {
    type V = BodyView;

    open spec fn view(&self) -> BodyView {
        match self {
            ReplyBody::Message(record) => BodyView::Message(record@),
            ReplyBody::Messages(rows) => BodyView::Messages(views_of(rows@)),
            ReplyBody::Error(text) => BodyView::Error(text@),
        }
    }
}

impl View for Reply {
    type V = ReplyView;

    open spec fn view(&self) -> ReplyView {
        ReplyView { status: self.status as int, body: self.body@ }
    }
}

/// A reply, and the store's failure where there was one, for the log.
#[derive(Clone, Debug, PartialEq, Eq)]
pub struct Handled {
    pub reply: Reply,
    pub failure: Option<PersistenceError>,
}

/// What to do with a request to store a message, once its body is decoded.
#[derive(Clone, Debug, PartialEq, Eq)]
pub enum AddStep {
    /// Have the store write this request.
    Insert(AddMessageRequest),
    /// Send this reply; the store is not touched.
    Reject(Reply),
}

/// What a client reads when its message could not be stored.
pub open spec fn save_failed_text() -> Seq<char> {
    "無法保存訊息"@
}

/// What a client reads when the messages could not be read.
pub open spec fn list_failed_text() -> Seq<char> {
    "無法獲取訊息列表"@
}

/// The reply to a request that lacks a field.
pub open spec fn rejection(error: ValidationError) -> ReplyView {
    ReplyView { status: 400, body: BodyView::Error(error.field_name()) }
}

/// The reply that hands out a stored record.
pub open spec fn stored_reply(request: RequestView, row: InsertedRow) -> ReplyView {
    ReplyView { status: 200, body: BodyView::Message(stored(request, row)) }
}

/// The reply that hands out the store's records as they came.
pub open spec fn listing(rows: Seq<MessageView>) -> ReplyView {
    ReplyView { status: 200, body: BodyView::Messages(rows) }
}

/// The reply after a failure of the store: the same for every failure.
pub open spec fn failure_reply(text: Seq<char>) -> ReplyView {
    ReplyView { status: 500, body: BodyView::Error(text) }
}

/// Decides on a decoded request body: a complete one goes to the store with
/// its three texts unchanged, any other is answered at once.
pub fn begin_add(payload: MessagePayload) -> (step: AddStep)
    ensures
        payload.is_complete() ==> (step matches AddStep::Insert(request) && request@
            == payload.request()),
        !payload.is_complete() ==> (step matches AddStep::Reject(reply) && reply@ == rejection(
            payload.first_missing(),
        )),
{
    match validate(payload) {
        Ok(request) => AddStep::Insert(request),
        Err(error) => AddStep::Reject(
            Reply {
                status: STATUS_BAD_REQUEST,
                body: ReplyBody::Error(error.field().to_owned()),
            },
        ),
    }
}

/// Answers a request to store a message once the store has been asked.
/// A written row gives the full record; a failure gives the fixed reply and
/// is handed on for the log.
pub fn finish_add(
    request: AddMessageRequest,
    outcome: Result<InsertedRow, PersistenceError>,
) -> (done: Handled)
    ensures
        match outcome {
            Ok(row) => done.reply@ == stored_reply(request@, row) && done.failure is None,
            Err(error) => done.reply@ == failure_reply(save_failed_text()) && done.failure
                == Some(error),
        },
{
    match outcome {
        Ok(row) => Handled {
            reply: Reply {
                status: STATUS_OK,
                body: ReplyBody::Message(CustomerMessage::from_insert(request, row)),
            },
            failure: None,
        },
        Err(error) => Handled {
            reply: Reply {
                status: STATUS_SERVER_ERROR,
                body: ReplyBody::Error("無法保存訊息".to_owned()),
            },
            failure: Some(error),
        },
    }
}

/// Answers a request for all messages once the store has been asked. The
/// rows go out as the store gave them, none added, dropped or moved; a
/// failure gives the fixed reply and is handed on for the log.
pub fn finish_list(outcome: Result<Vec<CustomerMessage>, PersistenceError>) -> (done: Handled)
    ensures
        match outcome {
            Ok(rows) => done.reply@ == listing(views_of(rows@)) && done.failure is None,
            Err(error) => done.reply@ == failure_reply(list_failed_text()) && done.failure
                == Some(error),
        },
{
    match outcome {
        Ok(rows) => Handled {
            reply: Reply { status: STATUS_OK, body: ReplyBody::Messages(rows) },
            failure: None,
        },
        Err(error) => Handled {
            reply: Reply {
                status: STATUS_SERVER_ERROR,
                body: ReplyBody::Error("無法獲取訊息列表".to_owned()),
            },
            failure: Some(error),
        },
    }
}

/// A stored record goes out with success, carries the identifier and the
/// creation time that the store generated, and echoes the client's three
/// texts.
pub proof fn lemma_stored_reply_carries_generated_fields(request: RequestView, row: InsertedRow)
    ensures
        stored_reply(request, row).status == 200,
        stored_reply(request, row).body matches BodyView::Message(record) && record.id == Some(
            row.id,
        ) && record.created_at == row.created_at && record.customer_name
            == request.customer_name && record.email == request.email && record.message
            == request.message,
{
}

/// The identifier that a client sees is the store's own: where the store
/// gave two rows different identifiers, the two records differ in theirs.
pub proof fn lemma_distinct_rows_give_distinct_records(
    first: RequestView,
    first_row: InsertedRow,
    second: RequestView,
    second_row: InsertedRow,
)
    requires
        first_row.id != second_row.id,
    ensures
        stored(first, first_row).id is Some,
        stored(second, second_row).id is Some,
        stored(first, first_row).id != stored(second, second_row).id,
{
}

/// A listing goes out with success and holds as many records as the store
/// gave, in the store's order: where the store gave them newest first, the
/// client reads them newest first.
pub proof fn lemma_listing_keeps_count_and_order(rows: Seq<MessageView>)
    ensures
        listing(rows).status == 200,
        listing(rows).body matches BodyView::Messages(listed) && listed.len() == rows.len() && (
        newest_first(rows) ==> newest_first(listed)),
{
}

} // verus!
