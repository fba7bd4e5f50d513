//! The records that the service takes in and hands out.
use vstd::prelude::*;

verus! {

/// An instant, as whole seconds since the Unix epoch and the nanoseconds
/// that follow them.
#[derive(Clone, Copy, Debug, PartialEq, Eq, Structural)]
pub struct Timestamp {
    pub secs: i64,
    pub nanos: u32,
}

impl Timestamp {
    /// Whether `self` is `other` or a later instant: seconds decide, and
    /// nanoseconds where the seconds are the same.
    pub open spec fn at_or_after(self, other: Timestamp) -> bool {
        self.secs > other.secs || (self.secs == other.secs && self.nanos >= other.nanos)
    }

    /// Whether `self` is `other` or a later instant.
    pub fn is_at_or_after(&self, other: &Timestamp) -> (later: bool)
        ensures
            later == self.at_or_after(*other),
    {
        self.secs > other.secs || (self.secs == other.secs && self.nanos >= other.nanos)
    }
}

/// What a client sends to have a message stored.
#[derive(Clone, Debug, PartialEq, Eq)]
pub struct AddMessageRequest {
    pub customer_name: String,
    pub email: String,
    pub message: String,
}

/// The mathematical value of an [`AddMessageRequest`].
pub struct RequestView {
    pub customer_name: Seq<char>,
    pub email: Seq<char>,
    pub message: Seq<char>,
}

impl View for AddMessageRequest {
    type V = RequestView;

    open spec fn view(&self) -> RequestView {
        RequestView {
            customer_name: self.customer_name@,
            email: self.email@,
            message: self.message@,
        }
    }
}

/// What the store generates for a row that it has written.
#[derive(Clone, Copy, Debug, PartialEq, Eq, Structural)]
pub struct InsertedRow {
    pub id: u128,
    pub created_at: Option<Timestamp>,
}

/// One customer inquiry. `id` and `created_at` come from the store; a record
/// read back from it always has an `id`.
#[derive(Clone, Debug, PartialEq, Eq)]
pub struct CustomerMessage {
    pub id: Option<u128>,
    pub customer_name: String,
    pub email: String,
    pub message: String,
    pub created_at: Option<Timestamp>,
}

/// The mathematical value of a [`CustomerMessage`].
pub struct MessageView {
    pub id: Option<u128>,
    pub customer_name: Seq<char>,
    pub email: Seq<char>,
    pub message: Seq<char>,
    pub created_at: Option<Timestamp>,
}

impl View for CustomerMessage {
    type V = MessageView;

    open spec fn view(&self) -> MessageView {
        MessageView {
            id: self.id,
            customer_name: self.customer_name@,
            email: self.email@,
            message: self.message@,
            created_at: self.created_at,
        }
    }
}

/// The record that stands for `request` once the store has written it as
/// `row`: the client's three texts, and what the store generated.
pub open spec fn stored(request: RequestView, row: InsertedRow) -> MessageView {
    MessageView {
        id: Some(row.id),
        customer_name: request.customer_name,
        email: request.email,
        message: request.message,
        created_at: row.created_at,
    }
}

/// The values of a run of records, in the same order.
pub open spec fn views_of(rows: Seq<CustomerMessage>) -> Seq<MessageView> {
    rows.map_values(|m: CustomerMessage| m@)
}

/// Whether a record with creation time `first` may stand before one with
/// `second` in a listing. A record without a creation time stands before all
/// that have one, as the store's descending order places it.
pub open spec fn may_precede(first: Option<Timestamp>, second: Option<Timestamp>) -> bool {
    match (first, second) {
        (None, _) => true,
        (Some(_), None) => false,
        (Some(a), Some(b)) => a.at_or_after(b),
    }
}

/// Whether `rows` run from the most recent to the oldest.
pub open spec fn newest_first(rows: Seq<MessageView>) -> bool {
    forall|i: int|
        0 <= i && i + 1 < rows.len() ==> may_precede(
            (#[trigger] rows[i]).created_at,
            rows[i + 1].created_at,
        )
}

impl CustomerMessage {
    /// Builds the record for a request that the store has written.
    pub fn from_insert(request: AddMessageRequest, row: InsertedRow) -> (record: CustomerMessage)
        ensures
            record@ == stored(request@, row),
    {
        CustomerMessage {
            id: Some(row.id),
            customer_name: request.customer_name,
            email: request.email,
            message: request.message,
            created_at: row.created_at,
        }
    }
}

/// Whether a record with creation time `first` may stand before one with
/// `second` in a listing.
pub fn can_precede(first: &Option<Timestamp>, second: &Option<Timestamp>) -> (allowed: bool)
    ensures
        allowed == may_precede(*first, *second),
{
    match first {
        None => true,
        Some(a) => match second {
            None => false,
            Some(b) => a.is_at_or_after(b),
        },
    }
}

/// Whether `rows` run from the most recent to the oldest, as a listing of
/// the store does.
pub fn is_newest_first(rows: &Vec<CustomerMessage>) -> (ordered: bool)
    ensures
        ordered == newest_first(views_of(rows@)),
{
    let ghost values = views_of(rows@);
    let mut next: usize = 1;
    while next < rows.len()
        invariant
            1 <= next,
            values == views_of(rows@),
            forall|i: int|
                0 <= i && i + 1 < next && i + 1 < values.len() ==> may_precede(
                    (#[trigger] values[i]).created_at,
                    values[i + 1].created_at,
                ),
        decreases rows.len() - next,
    {
        if !can_precede(&rows[next - 1].created_at, &rows[next].created_at) {
            assert(!may_precede(values[next - 1].created_at, values[next - 1 + 1].created_at));
            return false;
        }
        next += 1;
    }
    true
}

/// In a listing that runs newest first, every record is at least as recent
/// as each one behind it, not only as its neighbour; so the first record is
/// the most recent of all.
pub proof fn lemma_newest_first_orders_every_pair(rows: Seq<MessageView>, front: int, back: int)
    requires
        newest_first(rows),
        0 <= front <= back < rows.len(),
    ensures
        may_precede(rows[front].created_at, rows[back].created_at),
    decreases back - front,
{
    if front < back {
        lemma_newest_first_orders_every_pair(rows, front + 1, back);
        assert(may_precede(rows[front].created_at, rows[front + 1].created_at));
    }
}

} // verus!
