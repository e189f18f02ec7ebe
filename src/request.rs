//! Authenticated requests for each operation, and validation of the user's
//! input before anything is sent.

use vstd::prelude::*;
use vstd::string::StringExecFns;
use crate::body::{update_json, update_json_spec};
use crate::text::{blank, decimal, decimal_spec, is_blank, same_text, trim_spec, trimmed};

verus! {

#[derive(PartialEq, Eq, Structural, Clone, Copy, Debug)]
pub enum Method {
    Get,
    Post,
    Put,
    Delete,
}

/// The fields of a task to create, sent form-encoded.
#[derive(Clone, Debug, PartialEq, Eq)]
pub struct NewTask {
    pub title: String,
    pub description: String,
}

/// The properties of a task that an update may change.
#[derive(PartialEq, Eq, Structural, Clone, Copy, Debug)]
pub enum Property {
    Title,
    Description,
    Done,
}

/// One changed property with its new value, sent as a one-entry JSON map.
#[derive(Clone, Debug, PartialEq, Eq)]
pub enum PartialUpdate {
    Title(String),
    Description(String),
    Done(bool),
}

#[derive(Clone, Debug, PartialEq, Eq)]
pub enum Body {
    Empty,
    Form(NewTask),
    /// JSON text.
    Json(String),
}

/// A request relative to the service's base address.
#[derive(Clone, Debug, PartialEq, Eq)]
pub struct Request {
    pub method: Method,
    pub path: String,
    /// The value of the `Authorization` header.
    pub authorization: String,
    pub body: Body,
}

/// Input rejected before any request is made.
#[derive(PartialEq, Eq, Structural, Clone, Copy, Debug)]
pub enum ValidationError {
    EmptyTitle,
    UnknownProperty,
    InvalidFlag,
}

pub open spec fn tasks_path_spec() -> Seq<char> {
    seq!['/', 't', 'a', 's', 'k', 's']
}

pub open spec fn task_path_spec(id: u32) -> Seq<char> {
    tasks_path_spec().push('/') + decimal_spec(id as nat)
}

pub open spec fn bearer_spec(token: Seq<char>) -> Seq<char> {
    seq!['B', 'e', 'a', 'r', 'e', 'r', ' '] + token
}

pub open spec fn property_spec(name: Seq<char>) -> Option<Property> {
    if name == seq!['t', 'i', 't', 'l', 'e'] {
        Some(Property::Title)
    } else if name == seq!['d', 'e', 's', 'c', 'r', 'i', 'p', 't', 'i', 'o', 'n'] {
        Some(Property::Description)
    } else if name == seq!['d', 'o', 'n', 'e'] {
        Some(Property::Done)
    } else {
        None
    }
}

pub open spec fn flag_spec(value: Seq<char>) -> Option<bool> {
    if value == seq!['t', 'r', 'u', 'e'] {
        Some(true)
    } else if value == seq!['f', 'a', 'l', 's', 'e'] {
        Some(false)
    } else {
        None
    }
}

/// Whether `r` is the update that setting property `name` to `value`
/// stands for, or the reason why there is none. The name and a completion
/// flag are read without the white space around them; a text value is kept
/// as given.
pub open spec fn update_matches(
    name: Seq<char>,
    value: Seq<char>,
    r: Result<PartialUpdate, ValidationError>,
) -> bool {
    match r {
        Ok(PartialUpdate::Title(t)) => property_spec(trim_spec(name)) == Some(Property::Title) && !blank(value)
            && t@ == value,
        Ok(PartialUpdate::Description(t)) => property_spec(trim_spec(name)) == Some(Property::Description)
            && t@ == value,
        Ok(PartialUpdate::Done(b)) => property_spec(trim_spec(name)) == Some(Property::Done) && flag_spec(trim_spec(value)) == Some(b),
        Err(ValidationError::UnknownProperty) => property_spec(trim_spec(name)) is None,
        Err(ValidationError::EmptyTitle) => property_spec(trim_spec(name)) == Some(Property::Title) && blank(
            value,
        ),
        Err(ValidationError::InvalidFlag) => property_spec(trim_spec(name)) == Some(Property::Done)
            && flag_spec(trim_spec(value)) is None,
    }
}

/// The value of the `Authorization` header that carries `token`.
pub fn authorization(token: &str) -> (r: String)
    ensures
        r@ == bearer_spec(token@),
{
    proof {
        reveal_strlit("Bearer ");
    }
    let mut r = String::from_str("Bearer ");
    r.append(token);
    assert(r@ =~= bearer_spec(token@));
    r
}

/// The path of the task collection.
pub fn tasks_path() -> (r: String)
    ensures
        r@ == tasks_path_spec(),
{
    proof {
        reveal_strlit("/tasks");
    }
    let r = String::from_str("/tasks");
    assert(r@ =~= tasks_path_spec());
    r
}

/// The path of the task with `id`.
pub fn task_path(id: u32) -> (r: String)
    ensures
        r@ == task_path_spec(id),
{
    proof {
        reveal_strlit("/tasks/");
    }
    let mut r = String::from_str("/tasks/");
    let digits = decimal(id);
    r.append(digits.as_str());
    assert(r@ =~= task_path_spec(id));
    r
}

/// The property that `name`, without the white space around it, designates.
pub fn parse_property(name: &str) -> (r: Option<Property>)
    ensures
        r == property_spec(trim_spec(name@)),
{
    let name = trimmed(name);
    proof {
        reveal_strlit("title");
        reveal_strlit("description");
        reveal_strlit("done");
        assert("title"@ =~= seq!['t', 'i', 't', 'l', 'e']);
        assert("description"@ =~= seq!['d', 'e', 's', 'c', 'r', 'i', 'p', 't', 'i', 'o', 'n']);
        assert("done"@ =~= seq!['d', 'o', 'n', 'e']);
    }
    if same_text(name, "title") {
        Some(Property::Title)
    } else if same_text(name, "description") {
        Some(Property::Description)
    } else if same_text(name, "done") {
        Some(Property::Done)
    } else {
        None
    }
}

/// The completion flag that `value`, without the white space around it, writes.
pub fn parse_flag(value: &str) -> (r: Option<bool>)
    ensures
        r == flag_spec(trim_spec(value@)),
{
    let value = trimmed(value);
    proof {
        reveal_strlit("true");
        reveal_strlit("false");
        assert("true"@ =~= seq!['t', 'r', 'u', 'e']);
        assert("false"@ =~= seq!['f', 'a', 'l', 's', 'e']);
    }
    if same_text(value, "true") {
        Some(true)
    } else if same_text(value, "false") {
        Some(false)
    } else {
        None
    }
}

/// The partial update that sets property `name` to `value`. A title must not
/// be blank and a completion flag is `true` or `false`.
pub fn parse_update(name: &str, value: &str) -> (r: Result<PartialUpdate, ValidationError>)
    ensures
        update_matches(name@, value@, r),
{
    match parse_property(name) {
        None => Err(ValidationError::UnknownProperty),
        Some(Property::Title) => if is_blank(value) {
            Err(ValidationError::EmptyTitle)
        } else {
            Ok(PartialUpdate::Title(String::from_str(value)))
        },
        Some(Property::Description) => Ok(PartialUpdate::Description(String::from_str(value))),
        Some(Property::Done) => match parse_flag(value) {
            Some(b) => Ok(PartialUpdate::Done(b)),
            None => Err(ValidationError::InvalidFlag),
        },
    }
}

/// The fields of a new task; the title must not be blank.
pub fn new_task(title: &str, description: &str) -> (r: Result<NewTask, ValidationError>)
    ensures
        blank(title@) ==> r == Err::<NewTask, ValidationError>(ValidationError::EmptyTitle),
        !blank(title@) ==> r is Ok && r->Ok_0.title@ == title@ && r->Ok_0.description@
            == description@,
{
    if is_blank(title) {
        Err(ValidationError::EmptyTitle)
    } else {
        Ok(NewTask { title: String::from_str(title), description: String::from_str(description) })
    }
}

pub open spec fn description_key_spec() -> Seq<char> {
    seq!['d', 'e', 's', 'c', 'r', 'i', 'p', 't', 'i', 'o', 'n']
}

/// The form that creates `task`: its title under `title`, then its
/// description under `description`.
pub fn form_fields(task: &NewTask) -> (r: Vec<(String, String)>)
    ensures
        r@.len() == 2,
        r@[0].0@ == seq!['t', 'i', 't', 'l', 'e'],
        r@[0].1@ == task.title@,
        r@[1].0@ == description_key_spec(),
        r@[1].1@ == task.description@,
{
    proof {
        reveal_strlit("title");
        reveal_strlit("description");
        assert("title"@ =~= seq!['t', 'i', 't', 'l', 'e']);
        assert("description"@ =~= description_key_spec());
    }
    let mut r: Vec<(String, String)> = Vec::new();
    r.push((String::from_str("title"), task.title.clone()));
    r.push((String::from_str("description"), task.description.clone()));
    r
}

/// `POST /tasks` with the new task's fields as a form.
pub fn create_request(token: &str, task: NewTask) -> (r: Request)
    ensures
        r.method == Method::Post,
        r.path@ == tasks_path_spec(),
        r.authorization@ == bearer_spec(token@),
        r.body == Body::Form(task),
{
    Request { method: Method::Post, path: tasks_path(), authorization: authorization(token), body: Body::Form(task) }
}

/// `GET /tasks`.
pub fn list_request(token: &str) -> (r: Request)
    ensures
        r.method == Method::Get,
        r.path@ == tasks_path_spec(),
        r.authorization@ == bearer_spec(token@),
        r.body == Body::Empty,
{
    Request { method: Method::Get, path: tasks_path(), authorization: authorization(token), body: Body::Empty }
}

/// `GET /tasks/{id}`.
pub fn view_request(token: &str, id: u32) -> (r: Request)
    ensures
        r.method == Method::Get,
        r.path@ == task_path_spec(id),
        r.authorization@ == bearer_spec(token@),
        r.body == Body::Empty,
{
    Request { method: Method::Get, path: task_path(id), authorization: authorization(token), body: Body::Empty }
}

/// `PUT /tasks/{id}` with a JSON object that holds the one changed property.
pub fn update_request(token: &str, id: u32, update: &PartialUpdate) -> (r: Request)
    ensures
        r.method == Method::Put,
        r.path@ == task_path_spec(id),
        r.authorization@ == bearer_spec(token@),
        r.body matches Body::Json(text) && text@ == update_json_spec(*update),
{
    Request {
        method: Method::Put,
        path: task_path(id),
        authorization: authorization(token),
        body: Body::Json(update_json(update)),
    }
}

/// `DELETE /tasks/{id}`.
pub fn delete_request(token: &str, id: u32) -> (r: Request)
    ensures
        r.method == Method::Delete,
        r.path@ == task_path_spec(id),
        r.authorization@ == bearer_spec(token@),
        r.body == Body::Empty,
{
    Request { method: Method::Delete, path: task_path(id), authorization: authorization(token), body: Body::Empty }
}

} // verus!
