//! The ways a run fails, and the reason text each one leaves in a `Broken`
//! state.

use crate::text::{push_decimal, push_text, text, decimal};
use vstd::prelude::*;

verus! {

/// Why a run ended without a result.
#[derive(Debug)]
pub enum TaskError {
    /// The browser could not be launched.
    ConstructionFailed(String),
    NavigationFailed(String),
    /// An expected page element never appeared within its budget.
    ElementTimeout(String),
    /// An in-page evaluation returned an unexpected shape.
    ScriptFailed(String),
    /// Every ticket window of the budget elapsed with no login.
    LoginTimeout(u32),
    ValidationRejected,
    PoolExhausted,
    Cancelled,
    /// The overall deadline of the task passed.
    DeadlineExceeded,
}

/// Mathematical value of a [`TaskError`].
pub enum TaskErrorView {
    ConstructionFailed(Seq<char>),
    NavigationFailed(Seq<char>),
    ElementTimeout(Seq<char>),
    ScriptFailed(Seq<char>),
    LoginTimeout(u32),
    ValidationRejected,
    PoolExhausted,
    Cancelled,
    DeadlineExceeded,
}

impl View for TaskError {
    type V = TaskErrorView;

    open spec fn view(&self) -> TaskErrorView {
        match *self {
            TaskError::ConstructionFailed(c) => TaskErrorView::ConstructionFailed(c@),
            TaskError::NavigationFailed(c) => TaskErrorView::NavigationFailed(c@),
            TaskError::ElementTimeout(c) => TaskErrorView::ElementTimeout(c@),
            TaskError::ScriptFailed(c) => TaskErrorView::ScriptFailed(c@),
            TaskError::LoginTimeout(n) => TaskErrorView::LoginTimeout(n),
            TaskError::ValidationRejected => TaskErrorView::ValidationRejected,
            TaskError::PoolExhausted => TaskErrorView::PoolExhausted,
            TaskError::Cancelled => TaskErrorView::Cancelled,
            TaskError::DeadlineExceeded => TaskErrorView::DeadlineExceeded,
        }
    }
}

impl TaskErrorView {
    /// The reason text of the error: a fixed sentence for the kinds that carry
    /// no cause, a label followed by the cause for the others.
    pub open spec fn reason(self) -> Seq<char> {
        match self {
            TaskErrorView::ConstructionFailed(c) => "construction failed: "@ + c,
            TaskErrorView::NavigationFailed(c) => "navigation failed: "@ + c,
            TaskErrorView::ElementTimeout(c) => "element timeout: "@ + c,
            TaskErrorView::ScriptFailed(c) => "script failed: "@ + c,
            TaskErrorView::LoginTimeout(n) => "exceeded "@ + decimal(n as nat)
                + " retries without login"@,
            TaskErrorView::ValidationRejected => "validation rejected"@,
            TaskErrorView::PoolExhausted => "pool exhausted"@,
            TaskErrorView::Cancelled => "cancelled"@,
            TaskErrorView::DeadlineExceeded => "task deadline exceeded"@,
        }
    }
}

fn labelled(label: &str, cause: &String) -> (r: String)
    ensures
        r@ == label@ + cause@,
{
    let mut r = text(label);
    push_text(&mut r, cause.as_str());
    r
}

impl TaskError {
    /// The reason text that a `Broken` state carries for this error.
    pub fn reason(&self) -> (r: String)
        ensures
            r@ == self@.reason(),
    {
        match self {
            TaskError::ConstructionFailed(c) => labelled("construction failed: ", c),
            TaskError::NavigationFailed(c) => labelled("navigation failed: ", c),
            TaskError::ElementTimeout(c) => labelled("element timeout: ", c),
            TaskError::ScriptFailed(c) => labelled("script failed: ", c),
            TaskError::LoginTimeout(n) => {
                let mut r = text("exceeded ");
                push_decimal(&mut r, *n as u64);
                push_text(&mut r, " retries without login");
                r
            },
            TaskError::ValidationRejected => text("validation rejected"),
            TaskError::PoolExhausted => text("pool exhausted"),
            TaskError::Cancelled => text("cancelled"),
            TaskError::DeadlineExceeded => text("task deadline exceeded"),
        }
    }
}

} // verus!
