//! What holds of the operations taken together, proved of the model that
//! specifies them.

use crate::decimal::{decimal, lemma_decimal_injective};
use crate::model::StoreState;
use crate::record::{missing_on_delete, missing_on_get, missing_on_update, RecordView};
use vstd::prelude::*;

verus! {

/// A request to the store.
pub enum Request {
    Get { id: u64 },
    Add { name: Seq<char>, complaint: Seq<char> },
    Update { id: u64, name: Seq<char>, complaint: Seq<char> },
    Delete { id: u64 },
}

/// Whether the store can serve `request`: creating a record takes an
/// identifier that is left to issue.
pub open spec fn servable(state: StoreState, request: Request) -> bool {
    request is Add ==> state.can_issue()
}

/// The store after serving `request`.
pub open spec fn served(state: StoreState, request: Request) -> StoreState {
    match request {
        Request::Get { id } => state,
        Request::Add { name, complaint } => state.after_add(name, complaint),
        Request::Update { id, name, complaint } => state.after_update(id, name, complaint),
        Request::Delete { id } => state.after_delete(id),
    }
}

/// Whether the store can serve `requests` one after the other.
pub open spec fn all_servable(state: StoreState, requests: Seq<Request>) -> bool
    decreases requests.len(),
{
    if requests.len() == 0 {
        true
    } else {
        servable(state, requests[0]) && all_servable(
            served(state, requests[0]),
            requests.drop_first(),
        )
    }
}

/// The store after serving `requests` one after the other.
pub open spec fn served_all(state: StoreState, requests: Seq<Request>) -> StoreState
    decreases requests.len(),
{
    if requests.len() == 0 {
        state
    } else {
        served_all(served(state, requests[0]), requests.drop_first())
    }
}

/// Serving a request never takes the counter back, and creating a record
/// moves it on by exactly one.
pub proof fn lemma_counter_moves_on(state: StoreState, request: Request)
    requires
        servable(state, request),
    ensures
        served(state, request).last_id >= state.last_id,
        request is Add ==> served(state, request).last_id == state.last_id + 1,
        !(request is Add) ==> served(state, request).last_id == state.last_id,
{
}

/// However many requests are served, the counter is never taken back.
pub proof fn lemma_counter_never_goes_back(state: StoreState, requests: Seq<Request>)
    requires
        all_servable(state, requests),
    ensures
        served_all(state, requests).last_id >= state.last_id,
    decreases requests.len(),
{
    if requests.len() > 0 {
        lemma_counter_moves_on(state, requests[0]);
        lemma_counter_never_goes_back(served(state, requests[0]), requests.drop_first());
    }
}

/// Identifiers are issued in strictly increasing order: a record created
/// later carries a greater identifier than one created earlier, whatever
/// was served in between. So no identifier is issued twice, even after the
/// record that carried it was deleted.
pub proof fn lemma_later_id_is_greater(
    state: StoreState,
    name: Seq<char>,
    complaint: Seq<char>,
    between: Seq<Request>,
    later_name: Seq<char>,
    later_complaint: Seq<char>,
)
    requires
        state.can_issue(),
        all_servable(state.after_add(name, complaint), between),
        served_all(state.after_add(name, complaint), between).can_issue(),
    ensures
        served_all(state.after_add(name, complaint), between).created(
            later_name,
            later_complaint,
        ).id > state.created(name, complaint).id,
{
    lemma_counter_never_goes_back(state.after_add(name, complaint), between);
}

/// In a consistent store, the identifier that is issued next is carried by
/// no record and has no record stored under it.
pub proof fn lemma_next_id_is_unused(state: StoreState)
    requires
        state.consistent(),
        state.can_issue(),
    ensures
        !state.has(state.next_id()),
        forall|id: u64| #[trigger] state.has(id) ==> state.records[id].id != state.next_id(),
{
}

/// Reading a record right after it was created answers that record.
pub proof fn lemma_get_after_add(state: StoreState, name: Seq<char>, complaint: Seq<char>)
    ensures
        state.after_add(name, complaint).get_answer(state.created(name, complaint).id) == Ok::<
            RecordView,
            Seq<char>,
        >(state.created(name, complaint)),
{
}

/// Updating an identifier that has no record answers not-found and leaves
/// the store as it was.
pub proof fn lemma_update_of_absent(
    state: StoreState,
    id: u64,
    name: Seq<char>,
    complaint: Seq<char>,
)
    requires
        !state.has(id),
    ensures
        state.update_answer(id, name, complaint) is Err,
        state.after_update(id, name, complaint) == state,
{
}

/// Updating a record keeps its identifier and replaces its name and its
/// complaint; in a consistent store, reading the identifier afterwards
/// answers the updated record, and every other record is as it was.
pub proof fn lemma_update_of_present(
    state: StoreState,
    id: u64,
    name: Seq<char>,
    complaint: Seq<char>,
)
    requires
        state.has(id),
    ensures
        state.update_answer(id, name, complaint) is Ok,
        state.updated(id, name, complaint).id == state.records[id].id,
        state.updated(id, name, complaint).name == name,
        state.updated(id, name, complaint).complaint == complaint,
        state.consistent() ==> state.after_update(id, name, complaint).get_answer(id) == Ok::<
            RecordView,
            Seq<char>,
        >(state.updated(id, name, complaint)),
        state.consistent() ==> forall|other: u64|
            other != id ==> #[trigger] state.after_update(id, name, complaint).lookup(other)
                == state.lookup(other),
{
}

/// Reading an identifier after deleting it answers not-found.
pub proof fn lemma_get_after_delete(state: StoreState, id: u64)
    ensures
        state.after_delete(id).get_answer(id) is Err,
        !state.after_delete(id).has(id),
{
}

/// Deleting an identifier that has no record answers not-found and leaves
/// the store as it was.
pub proof fn lemma_delete_of_absent(state: StoreState, id: u64)
    requires
        !state.has(id),
    ensures
        state.delete_answer(id) is Err,
        state.after_delete(id) == state,
{
}

/// Deleting a record answers the record that was stored and leaves every
/// other record as it was.
pub proof fn lemma_delete_of_present(state: StoreState, id: u64)
    requires
        state.has(id),
    ensures
        state.delete_answer(id) == Ok::<RecordView, Seq<char>>(state.records[id]),
        forall|other: u64|
            other != id ==> #[trigger] state.after_delete(id).lookup(other) == state.lookup(other),
{
}

/// Two texts that are equal once put between the same two texts are equal.
proof fn lemma_middle_is_determined(
    before: Seq<char>,
    left: Seq<char>,
    right: Seq<char>,
    after: Seq<char>,
)
    requires
        before + left + after == before + right + after,
    ensures
        left == right,
{
    let with_left = before + left + after;
    let with_right = before + right + after;
    assert(with_left.len() == before.len() + left.len() + after.len());
    assert(with_right.len() == before.len() + right.len() + after.len());
    let start = before.len() as int;
    assert(left =~= with_left.subrange(start, start + left.len()));
    assert(right =~= with_right.subrange(start, start + right.len()));
}

/// The text of a not-found error tells which identifier was missing: two
/// identifiers with the same text are the same identifier.
pub proof fn lemma_message_names_id(a: u64, b: u64)
    ensures
        missing_on_get(a) == missing_on_get(b) ==> a == b,
        missing_on_update(a) == missing_on_update(b) ==> a == b,
        missing_on_delete(a) == missing_on_delete(b) ==> a == b,
{
    if missing_on_get(a) == missing_on_get(b) {
        lemma_middle_is_determined(
            "Patient record with id="@,
            decimal(a as nat),
            decimal(b as nat),
            " not found"@,
        );
        lemma_decimal_injective(a as nat, b as nat);
    }
    if missing_on_update(a) == missing_on_update(b) {
        lemma_middle_is_determined(
            "Couldn't update patient record with id="@,
            decimal(a as nat),
            decimal(b as nat),
            ". Record not found"@,
        );
        lemma_decimal_injective(a as nat, b as nat);
    }
    if missing_on_delete(a) == missing_on_delete(b) {
        lemma_middle_is_determined(
            "Couldn't delete patient record with id="@,
            decimal(a as nat),
            decimal(b as nat),
            ". Record not found."@,
        );
        lemma_decimal_injective(a as nat, b as nat);
    }
}

/// Issuing an identifier keeps a consistent store consistent.
pub proof fn lemma_issue_keeps_consistent(state: StoreState)
    requires
        state.consistent(),
        state.can_issue(),
    ensures
        state.after_issue().consistent(),
{
    let after = state.after_issue();
    assert forall|id: u64| #[trigger] after.has(id) implies after.admits(id, after.records[id]) by {
        assert(state.has(id));
    }
}

/// Storing a record that the store admits keeps a consistent store
/// consistent.
pub proof fn lemma_insert_keeps_consistent(state: StoreState, id: u64, record: RecordView)
    requires
        state.consistent(),
        state.admits(id, record),
    ensures
        state.with_record(id, record).consistent(),
{
    let after = state.with_record(id, record);
    assert forall|other: u64| #[trigger] after.has(other) implies after.admits(
        other,
        after.records[other],
    ) by {
        if other != id {
            assert(state.has(other));
        }
    }
}

/// Creating a record keeps a consistent store consistent.
pub proof fn lemma_add_keeps_consistent(state: StoreState, name: Seq<char>, complaint: Seq<char>)
    requires
        state.consistent(),
        state.can_issue(),
    ensures
        state.after_add(name, complaint).consistent(),
{
    lemma_issue_keeps_consistent(state);
    lemma_insert_keeps_consistent(
        state.after_issue(),
        state.next_id(),
        state.created(name, complaint),
    );
}

/// Updating a record keeps a consistent store consistent.
pub proof fn lemma_update_keeps_consistent(
    state: StoreState,
    id: u64,
    name: Seq<char>,
    complaint: Seq<char>,
)
    requires
        state.consistent(),
    ensures
        state.after_update(id, name, complaint).consistent(),
{
    if state.has(id) {
        lemma_insert_keeps_consistent(state, id, state.updated(id, name, complaint));
    }
}

/// Deleting a record keeps a consistent store consistent.
pub proof fn lemma_delete_keeps_consistent(state: StoreState, id: u64)
    requires
        state.consistent(),
    ensures
        state.after_delete(id).consistent(),
{
    let after = state.after_delete(id);
    assert forall|other: u64| #[trigger] after.has(other) implies after.admits(
        other,
        after.records[other],
    ) by {
        assert(state.has(other));
    }
}

/// Whatever requests a consistent store serves, it stays consistent.
pub proof fn lemma_serving_keeps_consistent(state: StoreState, requests: Seq<Request>)
    requires
        state.consistent(),
        all_servable(state, requests),
    ensures
        served_all(state, requests).consistent(),
    decreases requests.len(),
{
    if requests.len() > 0 {
        match requests[0] {
            Request::Get { id } => {},
            Request::Add { name, complaint } => lemma_add_keeps_consistent(state, name, complaint),
            Request::Update { id, name, complaint } => lemma_update_keeps_consistent(
                state,
                id,
                name,
                complaint,
            ),
            Request::Delete { id } => lemma_delete_keeps_consistent(state, id),
        }
        lemma_serving_keeps_consistent(served(state, requests[0]), requests.drop_first());
    }
}

} // verus!
