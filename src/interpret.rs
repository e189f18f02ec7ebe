//! Status-first classification of a response: the status decides which
//! body shape is decoded, and the decoded body decides the outcome.

use vstd::prelude::*;
use crate::task::{ErrorPayload, Task};

verus! {

pub const NOT_FOUND: u16 = 404;

/// The five operations on tasks; the ones that name a task carry its id.
#[derive(PartialEq, Eq, Structural, Clone, Copy, Debug)]
pub enum Operation {
    Create,
    List,
    View(u32),
    Update(u32),
    Delete(u32),
}

/// The body shape that a response must be decoded into.
#[derive(PartialEq, Eq, Structural, Clone, Copy, Debug)]
pub enum Shape {
    Task,
    TaskList,
    ErrorPayload,
    /// The body is not read at all.
    Nothing,
}

/// What decoding the body produced.
#[derive(Clone, Debug, PartialEq, Eq)]
pub enum Decoded {
    Task(Task),
    TaskList(Vec<Task>),
    ErrorPayload(ErrorPayload),
    /// The body did not match the shape it was decoded into.
    Malformed,
    /// No decoding was attempted.
    Skipped,
}

/// The classified result of one operation.
#[derive(Clone, Debug, PartialEq, Eq)]
pub enum Outcome {
    Created(Task),
    Listed(Vec<Task>),
    NoTasks,
    Viewed(Task),
    Updated(u32),
    Deleted(u32),
    NotFound(String),
    DecodeError,
    OperationRejected,
    ServerError(u16),
}

impl Outcome {
    /// Whether the invocation that produced this outcome ends in failure: the
    /// response could not be decoded in the shape its status called for.
    pub fn is_fatal(&self) -> (r: bool)
        ensures
            r == (*self is DecodeError),
    {
        match self {
            Outcome::DecodeError => true,
            _ => false,
        }
    }
}

pub open spec fn success_status(status: u16) -> bool {
    200 <= status < 300
}

/// Whether `status` is in the 2xx class.
pub fn is_success(status: u16) -> (r: bool)
    ensures
        r == success_status(status),
{
    200 <= status && status < 300
}

/// Every task of the list has a title.
pub open spec fn all_usable(v: Seq<Task>) -> bool {
    forall|i: int| 0 <= i < v.len() ==> v[i].usable()
}

pub fn are_all_usable(v: &Vec<Task>) -> (r: bool)
    ensures
        r == all_usable(v@),
{
    let mut i: usize = 0;
    while i < v.len()
        invariant
            i <= v@.len(),
            forall|j: int| 0 <= j < i ==> v@[j].usable(),
        decreases v@.len() - i,
    {
        if !v[i].is_usable() {
            return false;
        }
        i = i + 1;
    }
    true
}

pub open spec fn shape_spec(op: Operation, status: u16) -> Shape {
    if status == NOT_FOUND {
        Shape::ErrorPayload
    } else if success_status(status) {
        match op {
            Operation::Create | Operation::View(_) => Shape::Task,
            Operation::List => Shape::TaskList,
            Operation::Update(_) | Operation::Delete(_) => Shape::Nothing,
        }
    } else {
        Shape::Nothing
    }
}

/// The shape in which the body of a response with `status` to `op` is to be
/// decoded, chosen from the status before the body is looked at.
pub fn expected_shape(op: Operation, status: u16) -> (r: Shape)
    ensures
        r == shape_spec(op, status),
{
    if status == NOT_FOUND {
        Shape::ErrorPayload
    } else if is_success(status) {
        match op {
            Operation::Create | Operation::View(_) => Shape::Task,
            Operation::List => Shape::TaskList,
            Operation::Update(_) | Operation::Delete(_) => Shape::Nothing,
        }
    } else {
        Shape::Nothing
    }
}


pub open spec fn interpret_spec(op: Operation, status: u16, decoded: Decoded) -> Outcome {
    if status == NOT_FOUND {
        match decoded {
            Decoded::ErrorPayload(p) => Outcome::NotFound(p.message),
            _ => Outcome::DecodeError,
        }
    } else if success_status(status) {
        match op {
            Operation::Create => match decoded {
                Decoded::Task(t) => if t.usable() {
                    Outcome::Created(t)
                } else {
                    Outcome::OperationRejected
                },
                _ => Outcome::DecodeError,
            },
            Operation::View(_) => match decoded {
                Decoded::Task(t) => if t.usable() {
                    Outcome::Viewed(t)
                } else {
                    Outcome::OperationRejected
                },
                _ => Outcome::DecodeError,
            },
            Operation::List => match decoded {
                Decoded::TaskList(v) => if v.len() == 0 {
                    Outcome::NoTasks
                } else if all_usable(v@) {
                    Outcome::Listed(v)
                } else {
                    Outcome::OperationRejected
                },
                _ => Outcome::DecodeError,
            },
            Operation::Update(id) => Outcome::Updated(id),
            Operation::Delete(id) => Outcome::Deleted(id),
        }
    } else {
        Outcome::ServerError(status)
    }
}

/// Classifies the response to `op` from its status and from what decoding
/// its body in `expected_shape(op, status)` produced.
pub fn interpret(op: Operation, status: u16, decoded: Decoded) -> (r: Outcome)
    ensures
        r == interpret_spec(op, status, decoded),
{
    if status == NOT_FOUND {
        match decoded {
            Decoded::ErrorPayload(p) => Outcome::NotFound(p.message),
            _ => Outcome::DecodeError,
        }
    } else if is_success(status) {
        match op {
            Operation::Create => match decoded {
                Decoded::Task(t) => if t.is_usable() {
                    Outcome::Created(t)
                } else {
                    Outcome::OperationRejected
                },
                _ => Outcome::DecodeError,
            },
            Operation::View(_) => match decoded {
                Decoded::Task(t) => if t.is_usable() {
                    Outcome::Viewed(t)
                } else {
                    Outcome::OperationRejected
                },
                _ => Outcome::DecodeError,
            },
            Operation::List => match decoded {
                Decoded::TaskList(v) => if v.len() == 0 {
                    Outcome::NoTasks
                } else if are_all_usable(&v) {
                    Outcome::Listed(v)
                } else {
                    Outcome::OperationRejected
                },
                _ => Outcome::DecodeError,
            },
            Operation::Update(id) => Outcome::Updated(id),
            Operation::Delete(id) => Outcome::Deleted(id),
        }
    } else {
        Outcome::ServerError(status)
    }
}

} // verus!
