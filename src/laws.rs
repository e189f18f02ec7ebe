//! Laws that relate the classification of responses and the building of
//! updates across operations and calls.

use vstd::prelude::*;
use crate::interpret::{all_usable, interpret_spec, success_status, Decoded, Operation, Outcome, NOT_FOUND};
use crate::body::{flag_json_spec, json_string_of, object_spec, property_name_spec, update_json_spec};
use crate::request::{property_spec, update_matches, PartialUpdate, ValidationError};
use crate::task::{ErrorPayload, Task};
use crate::text::{blank_char, trim_spec};

verus! {

/// A successful create answered with a task that has a title is a success
/// carrying that task; answered with an empty-titled task it is rejected.
pub proof fn lemma_create_usable_or_rejected(status: u16, t: Task)
    requires
        success_status(status),
    ensures
        t.title@.len() > 0 ==> interpret_spec(Operation::Create, status, Decoded::Task(t))
            == Outcome::Created(t),
        t.title@.len() == 0 ==> interpret_spec(Operation::Create, status, Decoded::Task(t))
            == Outcome::OperationRejected,
{
}

/// A successful listing of no tasks is the "no tasks" outcome, which is not a
/// decoding failure; a listing of some tasks that all have a title carries all
/// of them, in order; a listing with an empty-titled task is rejected. So a
/// listing that succeeds holds usable tasks only.
pub proof fn lemma_list_empty_or_counted(status: u16, tasks: Vec<Task>)
    requires
        success_status(status),
    ensures
        tasks@.len() == 0 ==> interpret_spec(Operation::List, status, Decoded::TaskList(tasks))
            == Outcome::NoTasks,
        Outcome::NoTasks != Outcome::DecodeError,
        tasks@.len() > 0 && all_usable(tasks@) ==> interpret_spec(
            Operation::List,
            status,
            Decoded::TaskList(tasks),
        ) == Outcome::Listed(tasks),
        tasks@.len() > 0 && all_usable(tasks@) ==> match interpret_spec(
            Operation::List,
            status,
            Decoded::TaskList(tasks),
        ) {
            Outcome::Listed(v) => v@.len() == tasks@.len(),
            _ => false,
        },
        !all_usable(tasks@) ==> interpret_spec(Operation::List, status, Decoded::TaskList(tasks))
            == Outcome::OperationRejected,
        interpret_spec(Operation::List, status, Decoded::TaskList(tasks)) matches Outcome::Listed(
            v,
        ) ==> all_usable(v@),
{
}

/// Viewing a missing task with a well-formed error payload reports the
/// payload's message.
pub proof fn lemma_view_not_found(id: u32, p: ErrorPayload)
    ensures
        interpret_spec(Operation::View(id), NOT_FOUND, Decoded::ErrorPayload(p))
            == Outcome::NotFound(p.message),
{
}

/// A delete answered not-found with an error payload reports its message;
/// a delete answered with any success status is confirmed with the requested
/// id, whatever the body held or whether it was read at all.
pub proof fn lemma_delete_by_status(id: u32, status: u16, p: ErrorPayload, d: Decoded)
    ensures
        interpret_spec(Operation::Delete(id), NOT_FOUND, Decoded::ErrorPayload(p))
            == Outcome::NotFound(p.message),
        success_status(status) ==> interpret_spec(Operation::Delete(id), status, d)
            == Outcome::Deleted(id),
{
}

/// Text with no white space at either end is its own trimmed form.
pub proof fn lemma_trim_plain(s: Seq<char>)
    requires
        s.len() > 0,
        !blank_char(s[0]),
        !blank_char(s[s.len() - 1]),
    ensures
        trim_spec(s) == s,
{
}

/// Setting `done` to `true` gives an update of that one property to `true`,
/// whose body is exactly `{"done":true}`. Every accepted update is sent as a
/// one-entry object under the name of the property that was asked for, with
/// the value that was given. A name outside title, description and done gives
/// no update at all, so no request can be built from it.
pub proof fn lemma_update_done_or_unknown(
    name: Seq<char>,
    value: Seq<char>,
    r: Result<PartialUpdate, ValidationError>,
)
    requires
        update_matches(name, value, r),
    ensures
        trim_spec(name) == seq!['d', 'o', 'n', 'e'] && trim_spec(value) == seq!['t', 'r', 'u', 'e']
            ==> r matches Ok(PartialUpdate::Done(true)),
        name == seq!['d', 'o', 'n', 'e'] && value == seq!['t', 'r', 'u', 'e'] ==> r matches Ok(
            PartialUpdate::Done(true),
        ),
        update_json_spec(PartialUpdate::Done(true)) == seq![
            '{', '"', 'd', 'o', 'n', 'e', '"', ':', 't', 'r', 'u', 'e', '}'
        ],
        r matches Ok(u) ==> update_json_spec(u) == object_spec(
            property_name_spec(property_spec(trim_spec(name))->Some_0),
            match u {
                PartialUpdate::Done(b) => flag_json_spec(b),
                _ => json_string_of(value),
            },
        ),
        property_spec(trim_spec(name)) is None ==> r == Err::<PartialUpdate, ValidationError>(
            ValidationError::UnknownProperty,
        ),
{
    if name == seq!['d', 'o', 'n', 'e'] {
        lemma_trim_plain(name);
    }
    if value == seq!['t', 'r', 'u', 'e'] {
        lemma_trim_plain(value);
    }
    assert(update_json_spec(PartialUpdate::Done(true)) =~= seq![
        '{', '"', 'd', 'o', 'n', 'e', '"', ':', 't', 'r', 'u', 'e', '}'
    ]);
}

/// A task that the service lists and the same task that it returns when
/// viewed, unchanged in between, come out field for field equal.
pub proof fn lemma_list_view_agree(
    list_status: u16,
    tasks: Vec<Task>,
    i: int,
    view_status: u16,
    t: Task,
)
    requires
        interpret_spec(Operation::List, list_status, Decoded::TaskList(tasks)) is Listed,
        success_status(view_status),
        0 <= i < tasks@.len(),
        tasks@[i] == t,
    ensures
        match (
            interpret_spec(Operation::List, list_status, Decoded::TaskList(tasks)),
            interpret_spec(Operation::View(t.id), view_status, Decoded::Task(t)),
        ) {
            (Outcome::Listed(v), Outcome::Viewed(u)) => v@[i] == u,
            _ => false,
        },
{
}

/// Viewing the same id twice against the same response gives the same outcome.
pub proof fn lemma_view_repeatable(id: u32, status: u16, d1: Decoded, d2: Decoded)
    requires
        d1 == d2,
    ensures
        interpret_spec(Operation::View(id), status, d1) == interpret_spec(
            Operation::View(id),
            status,
            d2,
        ),
{
}

} // verus!
