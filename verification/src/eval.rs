//! What the page reports of today's sub-tasks.

use crate::error::{TaskError, TaskErrorView};
use crate::text::text;
use vstd::prelude::*;

verus! {

/// What an in-page evaluation handed back.
#[derive(Debug)]
pub enum ScriptValue {
    /// The evaluation gave no value.
    Missing,
    Text(String),
    /// A number that is a whole number within 64 bits.
    Integer(i64),
    /// A value of any other shape.
    Other,
}

/// The cause that a `ScriptFailed` error names where a value has the wrong
/// shape.
pub open spec fn wrong_shape() -> Seq<char> {
    "执行脚本获取数据失败"@
}

fn shape_error() -> (e: TaskError)
    ensures
        e@ == TaskErrorView::ScriptFailed(wrong_shape()),
{
    TaskError::ScriptFailed(text("执行脚本获取数据失败"))
}

/// Today's score out of what the page handed back: the number, if it is a
/// whole number; any other shape fails the script.
pub fn get_today_score(value: ScriptValue) -> (r: Result<i64, TaskError>)
    ensures
        match value {
            ScriptValue::Integer(n) => r matches Ok(s) && s == n,
            _ => r matches Err(e) && e@ == TaskErrorView::ScriptFailed(wrong_shape()),
        },
{
    match value {
        ScriptValue::Integer(n) => Ok(n),
        _ => Err(shape_error()),
    }
}

/// The document out of what the page handed back: the text, if it is one;
/// any other shape fails the script.
pub fn script_text(value: ScriptValue) -> (r: Result<String, TaskError>)
    ensures
        match value {
            ScriptValue::Text(t) => r matches Ok(s) && s == t,
            _ => r matches Err(e) && e@ == TaskErrorView::ScriptFailed(wrong_shape()),
        },
{
    match value {
        ScriptValue::Text(t) => Ok(t),
        _ => Err(shape_error()),
    }
}

/// One sub-task of the day with its progress.
#[derive(Debug)]
pub struct TodayTask {
    pub title: String,
    pub current_score: i64,
    pub day_max_score: i64,
}

/// Mathematical value of a [`TodayTask`].
pub struct TodayTaskView {
    pub title: Seq<char>,
    pub current_score: i64,
    pub day_max_score: i64,
}

/// Title of the sub-task that is served by reading articles.
pub open spec fn article_title() -> Seq<char> {
    "我要选读文章"@
}

/// Title of the sub-task that is served by watching videos.
pub open spec fn video_title() -> Seq<char> {
    "我要视听学习"@
}

impl TodayTaskView {
    pub open spec fn is_article(self) -> bool {
        self.title == article_title()
    }

    pub open spec fn is_video(self) -> bool {
        self.title == video_title()
    }

    /// A tracked sub-task whose progress has not reached its target.
    pub open spec fn pending(self) -> bool {
        (self.is_article() || self.is_video()) && self.day_max_score != self.current_score
    }

    /// The `(label, current, target)` entry that a progress snapshot shows.
    pub open spec fn entry(self) -> (Seq<char>, i64, i64) {
        (self.title, self.current_score, self.day_max_score)
    }
}

impl View for TodayTask {
    type V = TodayTaskView;

    open spec fn view(&self) -> TodayTaskView {
        TodayTaskView {
            title: self.title@,
            current_score: self.current_score,
            day_max_score: self.day_max_score,
        }
    }
}

impl DeepView for TodayTask {
    type V = TodayTaskView;

    open spec fn deep_view(&self) -> TodayTaskView {
        self@
    }
}

impl Clone for TodayTask {
    fn clone(&self) -> (r: Self)
        ensures
            r@ == self@,
    {
        TodayTask {
            title: self.title.clone(),
            current_score: self.current_score,
            day_max_score: self.day_max_score,
        }
    }
}

impl TodayTask {
    pub fn is_article(&self) -> (r: bool)
        ensures
            r == self@.is_article(),
    {
        let t = text("我要选读文章");
        self.title == t
    }

    pub fn is_video(&self) -> (r: bool)
        ensures
            r == self@.is_video(),
    {
        let t = text("我要视听学习");
        self.title == t
    }

    /// Whether this is a tracked sub-task that still lacks progress.
    pub fn pending(&self) -> (r: bool)
        ensures
            r == self@.pending(),
    {
        (self.is_article() || self.is_video()) && self.day_max_score != self.current_score
    }
}

/// The progress snapshot of a task list: one entry per task, in order.
pub open spec fn spec_progress(tasks: Seq<TodayTaskView>) -> Seq<(Seq<char>, i64, i64)> {
    Seq::new(tasks.len(), |i: int| tasks[i].entry())
}

/// No tracked sub-task lacks progress.
pub open spec fn spec_all_done(tasks: Seq<TodayTaskView>) -> bool {
    forall|i: int| 0 <= i < tasks.len() ==> !(#[trigger] tasks[i]).pending()
}

/// The progress snapshot shown while the activity phase runs.
pub fn progress(tasks: &Vec<TodayTask>) -> (r: Vec<(String, i64, i64)>)
    ensures
        r.deep_view() == spec_progress(tasks.deep_view()),
{
    let mut r: Vec<(String, i64, i64)> = Vec::new();
    let mut i: usize = 0;
    while i < tasks.len()
        invariant
            i <= tasks.len(),
            r.len() == i,
            forall|j: int| 0 <= j < i ==> (#[trigger] r[j]).deep_view() == tasks[j]@.entry(),
        decreases tasks.len() - i,
    {
        let t = &tasks[i];
        r.push((t.title.clone(), t.current_score, t.day_max_score));
        i = i + 1;
    }
    r
}

/// Whether every tracked sub-task has reached its target.
pub fn all_done(tasks: &Vec<TodayTask>) -> (r: bool)
    ensures
        r == spec_all_done(tasks.deep_view()),
{
    let mut i: usize = 0;
    while i < tasks.len()
        invariant
            i <= tasks.len(),
            forall|j: int| 0 <= j < i ==> !(#[trigger] tasks.deep_view()[j]).pending(),
        decreases tasks.len() - i,
    {
        if tasks[i].pending() {
            assert(tasks.deep_view()[i as int].pending());
            return false;
        }
        i = i + 1;
    }
    true
}

} // verus!
