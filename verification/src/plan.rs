//! The activity phase: which page to visit next, given today's progress and
//! what is left of the article and video supplies.

use crate::eval::{TodayTask, TodayTaskView};
use vstd::prelude::*;

verus! {

/// What the activity phase does next.
#[derive(Debug)]
pub enum StudyAction {
    /// Read the article at this address.
    BrowseNews(String),
    /// Watch the video at this address.
    BrowseVideo(String),
    /// The round is over: read the progress again.
    ReadTasks,
    /// A supply ran out before progress completed: the phase ends early.
    Finish,
}

/// Mathematical value of a [`StudyAction`].
pub enum StudyActionView {
    BrowseNews(Seq<char>),
    BrowseVideo(Seq<char>),
    ReadTasks,
    Finish,
}

impl View for StudyAction {
    type V = StudyActionView;

    open spec fn view(&self) -> StudyActionView {
        match *self {
            StudyAction::BrowseNews(u) => StudyActionView::BrowseNews(u@),
            StudyAction::BrowseVideo(u) => StudyActionView::BrowseVideo(u@),
            StudyAction::ReadTasks => StudyActionView::ReadTasks,
            StudyAction::Finish => StudyActionView::Finish,
        }
    }
}

/// The two supplies, how much of each is used, and the place in the current
/// round over today's tasks.
#[derive(Debug)]
pub struct StudyPlan {
    news: Vec<String>,
    news_next: usize,
    videos: Vec<String>,
    videos_next: usize,
    tasks: Vec<TodayTask>,
    cursor: usize,
}

/// Mathematical value of a [`StudyPlan`].
pub struct StudyPlanView {
    pub news: Seq<Seq<char>>,
    pub news_next: nat,
    pub videos: Seq<Seq<char>>,
    pub videos_next: nat,
    pub tasks: Seq<TodayTaskView>,
    pub cursor: nat,
}

/// The first index at or after `from` whose task is pending, or the length of
/// `tasks` if there is none.
pub open spec fn first_pending(tasks: Seq<TodayTaskView>, from: nat) -> nat
    decreases tasks.len() - from,
{
    if from >= tasks.len() {
        tasks.len()
    } else if tasks[from as int].pending() {
        from
    } else {
        first_pending(tasks, from + 1)
    }
}

impl StudyPlanView {
    /// What holds of every plan: no more pages are used than the supplies
    /// hold, and the place in the round lies within the tasks.
    pub open spec fn wf(self) -> bool {
        &&& self.news_next <= self.news.len()
        &&& self.videos_next <= self.videos.len()
        &&& self.cursor <= self.tasks.len()
    }

    /// A plan over fresh supplies, before any progress was read.
    pub open spec fn fresh(news: Seq<Seq<char>>, videos: Seq<Seq<char>>) -> StudyPlanView {
        StudyPlanView { news, news_next: 0, videos, videos_next: 0, tasks: Seq::empty(), cursor: 0 }
    }

    /// The plan at the start of a round over `tasks`.
    pub open spec fn begin(self, tasks: Seq<TodayTaskView>) -> StudyPlanView {
        StudyPlanView { tasks, cursor: 0, ..self }
    }

    /// Pages of both supplies that are not used yet.
    pub open spec fn supply_left(self) -> nat {
        ((self.news.len() - self.news_next) + (self.videos.len() - self.videos_next)) as nat
    }

    /// The next decision of the round and the plan after it. The round goes
    /// over the tasks in order and stops at the first pending one: an article
    /// task takes the next unused article, a video task the next unused
    /// video; where that supply is used up the phase finishes. With no
    /// pending task left in the round, the progress is read again.
    pub open spec fn next(self) -> (StudyPlanView, StudyActionView) {
        let k = first_pending(self.tasks, self.cursor);
        if k >= self.tasks.len() {
            (StudyPlanView { cursor: self.tasks.len(), ..self }, StudyActionView::ReadTasks)
        } else if self.tasks[k as int].is_article() {
            if self.news_next < self.news.len() {
                (
                    StudyPlanView { cursor: k + 1, news_next: self.news_next + 1, ..self },
                    StudyActionView::BrowseNews(self.news[self.news_next as int]),
                )
            } else {
                (StudyPlanView { cursor: k, ..self }, StudyActionView::Finish)
            }
        } else {
            if self.videos_next < self.videos.len() {
                (
                    StudyPlanView { cursor: k + 1, videos_next: self.videos_next + 1, ..self },
                    StudyActionView::BrowseVideo(self.videos[self.videos_next as int]),
                )
            } else {
                (StudyPlanView { cursor: k, ..self }, StudyActionView::Finish)
            }
        }
    }
}

impl View for StudyPlan {
    type V = StudyPlanView;

    closed spec fn view(&self) -> StudyPlanView {
        StudyPlanView {
            news: self.news.deep_view(),
            news_next: self.news_next as nat,
            videos: self.videos.deep_view(),
            videos_next: self.videos_next as nat,
            tasks: self.tasks.deep_view(),
            cursor: self.cursor as nat,
        }
    }
}

impl StudyPlan {
    /// A plan over the given supplies of article and video addresses.
    pub fn new(news: Vec<String>, videos: Vec<String>) -> (r: Self)
        ensures
            r@ == StudyPlanView::fresh(news.deep_view(), videos.deep_view()),
            r@.wf(),
    {
        let r = StudyPlan {
            news,
            news_next: 0,
            videos,
            videos_next: 0,
            tasks: Vec::new(),
            cursor: 0,
        };
        assert(r.tasks.deep_view() =~= Seq::empty());
        r
    }

    /// Starts a round over the progress just read.
    pub fn begin(&mut self, tasks: Vec<TodayTask>)
        requires
            old(self)@.wf(),
        ensures
            final(self)@ == old(self)@.begin(tasks.deep_view()),
            final(self)@.wf(),
    {
        self.tasks = tasks;
        self.cursor = 0;
    }

    /// Pages of both supplies that are not used yet.
    pub fn supply_left(&self) -> (r: usize)
        requires
            self@.wf(),
            self@.supply_left() <= usize::MAX,
        ensures
            r == self@.supply_left(),
    {
        (self.news.len() - self.news_next) + (self.videos.len() - self.videos_next)
    }

    /// Decides the next step of the round.
    pub fn next(&mut self) -> (r: StudyAction)
        requires
            old(self)@.wf(),
        ensures
            final(self)@ == old(self)@.next().0,
            r@ == old(self)@.next().1,
            final(self)@.wf(),
    {
        let mut k: usize = self.cursor;
        while k < self.tasks.len() && !self.tasks[k].pending()
            invariant
                self.cursor <= k <= self.tasks.len(),
                first_pending(self.tasks.deep_view(), k as nat) == first_pending(
                    self.tasks.deep_view(),
                    self.cursor as nat,
                ),
            decreases self.tasks.len() - k,
        {
            k = k + 1;
        }
        if k >= self.tasks.len() {
            self.cursor = self.tasks.len();
            StudyAction::ReadTasks
        } else if self.tasks[k].is_article() {
            if self.news_next < self.news.len() {
                let u = self.news[self.news_next].clone();
                self.cursor = k + 1;
                self.news_next = self.news_next + 1;
                StudyAction::BrowseNews(u)
            } else {
                self.cursor = k;
                StudyAction::Finish
            }
        } else {
            if self.videos_next < self.videos.len() {
                let u = self.videos[self.videos_next].clone();
                self.cursor = k + 1;
                self.videos_next = self.videos_next + 1;
                StudyAction::BrowseVideo(u)
            } else {
                self.cursor = k;
                StudyAction::Finish
            }
        }
    }
}

/// Every page visit uses up one page of a supply, so a plan over `n` unused
/// pages allows at most `n` visits; a round that still has a pending task
/// never ends in `ReadTasks` without a visit.
pub proof fn lemma_next_consumes(p: StudyPlanView)
    requires
        p.wf(),
    ensures
        p.next().0.wf(),
        p.next().0.news == p.news,
        p.next().0.videos == p.videos,
        p.next().0.tasks == p.tasks,
        p.next().0.cursor >= p.cursor,
        (p.next().1 is BrowseNews || p.next().1 is BrowseVideo) ==> p.next().0.supply_left() + 1
            == p.supply_left(),
        (p.next().1 is ReadTasks || p.next().1 is Finish) ==> p.next().0.supply_left()
            == p.supply_left(),
        p.next().1 is ReadTasks ==> first_pending(p.tasks, p.cursor) == p.tasks.len(),
{
    lemma_first_pending_bounds(p.tasks, p.cursor);
}

/// `first_pending` lies between its start and the length, and points at a
/// pending task where it lies inside the list.
pub proof fn lemma_first_pending_bounds(tasks: Seq<TodayTaskView>, from: nat)
    requires
        from <= tasks.len(),
    ensures
        from <= first_pending(tasks, from) <= tasks.len(),
        first_pending(tasks, from) < tasks.len() ==> tasks[first_pending(tasks, from) as int].pending(),
        forall|j: int| from <= j < first_pending(tasks, from) ==> !(#[trigger] tasks[j]).pending(),
    decreases tasks.len() - from,
{
    if from < tasks.len() && !tasks[from as int].pending() {
        lemma_first_pending_bounds(tasks, from + 1);
    }
}

} // verus!
