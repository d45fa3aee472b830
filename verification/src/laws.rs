//! What holds of the repository operations taken together, proved of their
//! meaning in [`crate::contract`].

use vstd::prelude::*;
use crate::contract::consistent;
use crate::contract::create_answer;
use crate::contract::create_records;
use crate::contract::delete_answer;
use crate::contract::delete_records;
use crate::contract::find_answer;
use crate::contract::lists;
use crate::contract::next_id;
use crate::contract::run;
use crate::contract::todo_answer;
use crate::contract::todo_views;
use crate::contract::unit_answer;
use crate::contract::update_answer;
use crate::contract::update_records;
use crate::contract::Step;
use crate::durable::deleted_or_classified;
use crate::durable::row_or_classified;
use crate::durable::unclassified;
use crate::durable::Fault;
use crate::error::ErrorView;
use crate::model::fresh;
use crate::model::merged;
use crate::model::CreateTodoView;
use crate::model::Todo;
use crate::model::TodoView;
use crate::model::UpdateTodoView;

verus! {

/// Every operation leaves a consistent collection consistent: ids stay
/// unique, and no record ever changes its id.
pub proof fn law_operations_keep_consistency(
    records: Map<i32, TodoView>,
    id: i32,
    payload: CreateTodoView,
    patch: UpdateTodoView,
)
    requires
        consistent(records),
    ensures
        consistent(create_records(records, payload)),
        consistent(update_records(records, id, patch)),
        consistent(delete_records(records, id)),
{
}

/// A record that `create` gives is not completed, has the text of the
/// payload, and has an id that no stored record had. It is added to the
/// collection, and every record that was stored stays as it was.
pub proof fn law_create_gives_fresh_record(
    records: Map<i32, TodoView>,
    payload: CreateTodoView,
    todo: TodoView,
)
    requires
        consistent(records),
        create_answer(records, payload) == Ok::<TodoView, ErrorView>(todo),
    ensures
        !todo.completed,
        todo.text == payload.text,
        !records.contains_key(todo.id),
        create_records(records, payload) == records.insert(todo.id, todo),
        forall|other: i32|
            records.contains_key(other) ==> #[trigger] create_records(records, payload)[other]
                == records[other],
{
}

/// Where `create` fails, the collection stays as it was.
pub proof fn law_failed_create_changes_nothing(
    records: Map<i32, TodoView>,
    payload: CreateTodoView,
)
    requires
        consistent(records),
        create_answer(records, payload) is Err,
    ensures
        create_records(records, payload) == records,
{
}

/// `find` with the id of a record that `create` has just given answers that
/// record.
pub proof fn law_find_after_create(
    records: Map<i32, TodoView>,
    payload: CreateTodoView,
    todo: TodoView,
)
    requires
        consistent(records),
        create_answer(records, payload) == Ok::<TodoView, ErrorView>(todo),
    ensures
        find_answer(create_records(records, payload), todo.id) == Ok::<TodoView, ErrorView>(todo),
{
}

/// An update that brings a text and no completion flag replaces the text and
/// keeps the flag and the id. `find` then answers the updated record.
pub proof fn law_update_of_text_keeps_completed(
    records: Map<i32, TodoView>,
    id: i32,
    text: Seq<char>,
)
    requires
        consistent(records),
        records.contains_key(id),
    ensures
        ({
            let patch = UpdateTodoView { text: Some(text), completed: None };
            let todo = TodoView { id, text, completed: records[id].completed };
            &&& update_answer(records, id, patch) == Ok::<TodoView, ErrorView>(todo)
            &&& find_answer(update_records(records, id, patch), id) == Ok::<TodoView, ErrorView>(
                todo,
            )
        }),
{
}

/// An update that brings a completion flag and no text replaces the flag and
/// keeps the text and the id.
pub proof fn law_update_of_completed_keeps_text(
    records: Map<i32, TodoView>,
    id: i32,
    completed: bool,
)
    requires
        consistent(records),
        records.contains_key(id),
    ensures
        ({
            let patch = UpdateTodoView { text: None, completed: Some(completed) };
            let todo = TodoView { id, text: records[id].text, completed };
            update_answer(records, id, patch) == Ok::<TodoView, ErrorView>(todo)
        }),
{
}

/// `update` and `delete` touch the record under their id and no other.
pub proof fn law_other_records_stay(
    records: Map<i32, TodoView>,
    id: i32,
    patch: UpdateTodoView,
    other: i32,
)
    requires
        consistent(records),
        other != id,
    ensures
        find_answer(update_records(records, id, patch), other) == find_answer(records, other),
        find_answer(delete_records(records, id), other) == find_answer(records, other),
{
}

/// On an id without a record, `find`, `update` and `delete` all fail with
/// `NotFound` of that id, and the collection stays as it was.
pub proof fn law_absent_id_is_not_found(
    records: Map<i32, TodoView>,
    id: i32,
    patch: UpdateTodoView,
)
    requires
        consistent(records),
        !records.contains_key(id),
    ensures
        find_answer(records, id) == Err::<TodoView, ErrorView>(ErrorView::NotFound(id)),
        update_answer(records, id, patch) == Err::<TodoView, ErrorView>(ErrorView::NotFound(id)),
        delete_answer(records, id) == Err::<(), ErrorView>(ErrorView::NotFound(id)),
        update_records(records, id, patch) == records,
        delete_records(records, id) == records,
{
}

/// Once `delete` has succeeded on an id, `find` fails on it with `NotFound`.
pub proof fn law_find_after_delete(records: Map<i32, TodoView>, id: i32)
    requires
        consistent(records),
        delete_answer(records, id) is Ok,
    ensures
        find_answer(delete_records(records, id), id) == Err::<TodoView, ErrorView>(
            ErrorView::NotFound(id),
        ),
{
}

/// A listing of a consistent collection has as many entries as the
/// collection has records.
pub proof fn law_listing_has_an_entry_for_each_record(
    records: Map<i32, TodoView>,
    listing: Seq<TodoView>,
)
    requires
        consistent(records),
        lists(records, listing),
    ensures
        listing.len() == records.len(),
{
    let ids = listing.map_values(|todo: TodoView| todo.id);
    assert(ids.no_duplicates());
    assert(ids.to_set() =~= records.dom()) by {
        assert forall|id: i32| records.dom().contains(id) implies ids.to_set().contains(id) by {
            let i = choose|i: int| 0 <= i < listing.len() && #[trigger] listing[i] == records[id];
            assert(ids[i] == id);
        }
    }
    ids.unique_seq_to_set();
}

/// After one `create` on an empty collection, a listing holds exactly the
/// record that was created: id 1, the text of the payload, not completed.
pub proof fn law_listing_after_first_create(payload: CreateTodoView, listing: Seq<TodoView>)
    requires
        lists(create_records(Map::<i32, TodoView>::empty(), payload), listing),
    ensures
        listing == seq![fresh(1, payload.text)],
{
    law_listing_has_an_entry_for_each_record(
        create_records(Map::<i32, TodoView>::empty(), payload),
        listing,
    );
}

/// The ids in use are 1, 2, and so on up to the number of records. This holds
/// of a new repository, and `create` and `update` keep it; `delete` may break
/// it.
pub open spec fn gapless(records: Map<i32, TodoView>) -> bool {
    forall|id: i32| records.contains_key(id) <==> 1 <= id <= records.len()
}

/// On a gapless collection `create` succeeds as long as an `i32` is left,
/// the id it assigns is greater than every id in use, and the collection it
/// leaves is gapless.
pub proof fn law_create_on_gapless(records: Map<i32, TodoView>, payload: CreateTodoView)
    requires
        consistent(records),
        gapless(records),
    ensures
        gapless(create_records(records, payload)),
        records.len() < i32::MAX ==> create_answer(records, payload) == Ok::<TodoView, ErrorView>(
            fresh((records.len() + 1) as i32, payload.text),
        ),
        forall|other: i32| records.contains_key(other) ==> other < next_id(records),
{
}

/// `update` on a gapless collection leaves a gapless one.
pub proof fn law_update_keeps_gapless(
    records: Map<i32, TodoView>,
    id: i32,
    patch: UpdateTodoView,
)
    requires
        consistent(records),
        gapless(records),
    ensures
        gapless(update_records(records, id, patch)),
{
}

/// The collection of a repository that was new and has since gone through
/// `steps`, one after the other. Calls that run at the same time count in the
/// order in which they held the lock.
pub open spec fn history(steps: Seq<Step>) -> Map<i32, TodoView> {
    run(Map::empty(), steps)
}

/// How many of the steps are a `create`.
pub open spec fn creates(steps: Seq<Step>) -> nat
    decreases steps.len(),
{
    if steps.len() == 0 {
        0
    } else if steps.last() is Create {
        creates(steps.drop_last()) + 1
    } else {
        creates(steps.drop_last())
    }
}

/// What the step at `at` was answered where it is a `create`.
pub open spec fn created_at(steps: Seq<Step>, at: int) -> Result<TodoView, ErrorView> {
    create_answer(history(steps.take(at)), steps[at]->Create_0)
}

/// The number of `create` steps before a place does not fall as the place
/// moves on, and rises past a `create`.
proof fn lemma_creates_grow(steps: Seq<Step>, from: int, to: int)
    requires
        0 <= from <= to <= steps.len(),
    ensures
        creates(steps.take(from)) <= creates(steps.take(to)),
        from < to && steps[from] is Create ==> creates(steps.take(from)) < creates(
            steps.take(to),
        ),
    decreases to - from,
{
    if from < to {
        assert(steps.take(to).drop_last() =~= steps.take(to - 1));
        lemma_creates_grow(steps, from, to - 1);
    }
}

/// Without a `delete`, the collection stays consistent and gapless and holds
/// one record for each `create`.
proof fn lemma_history_is_gapless(steps: Seq<Step>)
    requires
        forall|at: int| 0 <= at < steps.len() ==> !(#[trigger] steps[at] is Delete),
        creates(steps) <= i32::MAX,
    ensures
        consistent(history(steps)),
        gapless(history(steps)),
        history(steps).len() == creates(steps),
    decreases steps.len(),
{
    if steps.len() > 0 {
        let earlier = steps.drop_last();
        lemma_history_is_gapless(earlier);
        match steps.last() {
            Step::Create(payload) => law_create_on_gapless(history(earlier), payload),
            Step::Update(id, patch) => law_update_keeps_gapless(history(earlier), id, patch),
            Step::Delete(_) => {},
        }
    }
}

/// In the life of a repository without a `delete`, as long as an `i32` is
/// left for each `create`: every `create` succeeds and gives a record that
/// is not completed and has the text of its payload; the ids follow one
/// another from 1, so no two `create` calls give the same id; and in the
/// end the collection, and every listing of it, holds one record for each
/// `create`.
pub proof fn law_ids_are_unique_without_delete(steps: Seq<Step>)
    requires
        forall|at: int| 0 <= at < steps.len() ==> !(#[trigger] steps[at] is Delete),
        creates(steps) <= i32::MAX,
    ensures
        consistent(history(steps)),
        gapless(history(steps)),
        history(steps).len() == creates(steps),
        forall|listing: Seq<TodoView>| #[trigger]
            lists(history(steps), listing) ==> listing.len() == creates(steps),
        forall|at: int|
            0 <= at < steps.len() && steps[at] is Create ==> #[trigger] created_at(steps, at)
                == Ok::<TodoView, ErrorView>(
                fresh((creates(steps.take(at)) + 1) as i32, steps[at]->Create_0.text),
            ),
        forall|first: int, second: int|
            0 <= first < second < steps.len() && steps[first] is Create && steps[second] is Create
                ==> (#[trigger] created_at(steps, first))->Ok_0.id != (#[trigger] created_at(
                steps,
                second,
            ))->Ok_0.id,
{
    lemma_history_is_gapless(steps);
    assert forall|listing: Seq<TodoView>| #[trigger]
        lists(history(steps), listing) implies listing.len() == creates(steps) by {
        law_listing_has_an_entry_for_each_record(history(steps), listing);
    }
    assert(steps.take(steps.len() as int) =~= steps);
    assert forall|at: int| 0 <= at < steps.len() && steps[at] is Create implies #[trigger] created_at(
        steps,
        at,
    ) == Ok::<TodoView, ErrorView>(
        fresh((creates(steps.take(at)) + 1) as i32, steps[at]->Create_0.text),
    ) by {
        lemma_creates_grow(steps, at, steps.len() as int);
        lemma_history_is_gapless(steps.take(at));
        law_create_on_gapless(history(steps.take(at)), steps[at]->Create_0);
    }
    assert forall|first: int, second: int|
        0 <= first < second < steps.len() && steps[first] is Create
            && steps[second] is Create implies (#[trigger] created_at(steps, first))->Ok_0.id != (
    #[trigger] created_at(steps, second))->Ok_0.id by {
        lemma_creates_grow(steps, first, second);
        lemma_creates_grow(steps, second, steps.len() as int);
    }
}

/// `reply` is what a table with the rows `records` gives to the statement of
/// `create` when it reports no fault: a row with the payload's text, not
/// completed, under an id that no row had.
pub open spec fn replies_to_create(
    records: Map<i32, TodoView>,
    payload: CreateTodoView,
    reply: Result<Todo, Fault>,
) -> bool {
    reply matches Ok(row) && !records.contains_key(row.id) && row@ == fresh(row.id, payload.text)
}

/// `reply` is what a table with the rows `records` gives to the statement of
/// `find` when it reports no other fault: the row with the id, or that there
/// is no row.
pub open spec fn replies_to_find(
    records: Map<i32, TodoView>,
    id: i32,
    reply: Result<Todo, Fault>,
) -> bool {
    match reply {
        Ok(row) => records.contains_key(id) && row@ == records[id],
        Err(fault) => !records.contains_key(id) && fault.no_row,
    }
}

/// `reply` is what a table with the rows `records` gives to the statement of
/// `all` when it reports no fault: every row once, the highest id first.
pub open spec fn replies_to_all(
    records: Map<i32, TodoView>,
    reply: Result<Vec<Todo>, Fault>,
) -> bool {
    reply matches Ok(rows) && lists(records, todo_views(rows@)) && forall|i: int, j: int|
        0 <= i < j < rows@.len() ==> (#[trigger] rows@[i]).id > (#[trigger] rows@[j]).id
}

/// `reply` is what a table with the rows `records` gives to the statement of
/// `update` when it reports no other fault: the row with the id after
/// `coalesce` has filled the absent fields, or that there is no row.
pub open spec fn replies_to_update(
    records: Map<i32, TodoView>,
    id: i32,
    patch: UpdateTodoView,
    reply: Result<Todo, Fault>,
) -> bool {
    match reply {
        Ok(row) => records.contains_key(id) && row@ == merged(records[id], patch),
        Err(fault) => !records.contains_key(id) && fault.no_row,
    }
}

/// `reply` is what a table with the rows `records` gives to the statement of
/// `delete` when it reports no fault: one row affected where the id has a
/// row, none where it has not.
pub open spec fn replies_to_delete(
    records: Map<i32, TodoView>,
    id: i32,
    reply: Result<u64, Fault>,
) -> bool {
    reply matches Ok(affected) && affected == (if records.contains_key(id) {
        1u64
    } else {
        0u64
    })
}

/// The durable backend answers `find` as the in-memory backend does on the
/// same records, provided the table replies as the statement asks. Nothing
/// here holds the database to that: it is the hypothesis, in this law and in
/// the four that follow.
pub proof fn law_durable_find_agrees(
    records: Map<i32, TodoView>,
    id: i32,
    reply: Result<Todo, Fault>,
)
    requires
        replies_to_find(records, id, reply),
    ensures
        todo_answer(row_or_classified(id, reply)) == find_answer(records, id),
{
}

/// The durable backend answers `update` as the in-memory backend does on the
/// same records, provided the table replies as the statement asks.
pub proof fn law_durable_update_agrees(
    records: Map<i32, TodoView>,
    id: i32,
    patch: UpdateTodoView,
    reply: Result<Todo, Fault>,
)
    requires
        replies_to_update(records, id, patch, reply),
    ensures
        todo_answer(row_or_classified(id, reply)) == update_answer(records, id, patch),
{
}

/// The durable backend answers `delete` as the in-memory backend does on the
/// same records, provided the table replies as the statement asks.
pub proof fn law_durable_delete_agrees(
    records: Map<i32, TodoView>,
    id: i32,
    reply: Result<u64, Fault>,
)
    requires
        replies_to_delete(records, id, reply),
    ensures
        unit_answer(deleted_or_classified(id, reply)) == delete_answer(records, id),
{
}

/// The durable backend gives from `create` a record that is not completed
/// and has the text of the payload and an id that no row had, provided the
/// table replies as the statement asks. (The id is the table's choice, and
/// need not be the one that the in-memory backend assigns.)
pub proof fn law_durable_create_gives_fresh_record(
    records: Map<i32, TodoView>,
    payload: CreateTodoView,
    reply: Result<Todo, Fault>,
)
    requires
        replies_to_create(records, payload, reply),
    ensures
        unclassified(reply) matches Ok(todo) && !todo.completed && todo.text@ == payload.text
            && !records.contains_key(todo.id),
{
}

/// The durable backend gives from `all` a listing of the rows, provided the
/// table replies as the statement asks.
pub proof fn law_durable_all_lists(records: Map<i32, TodoView>, reply: Result<Vec<Todo>, Fault>)
    requires
        replies_to_all(records, reply),
    ensures
        unclassified(reply) matches Ok(todos) && lists(records, todo_views(todos@)),
{
}

} // verus!
