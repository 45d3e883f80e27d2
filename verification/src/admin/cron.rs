//! What is due at a given minute of the day, and what a reminder sends.

use crate::admin::config::{AdminConfig, NoticeSchedule, Schedule};
use crate::text::{join, spec_join};
use vstd::prelude::*;

verus! {

/// Something scheduled for `hour:minute` is due at `now_hour:now_minute`
/// exactly when the two are the same minute of the day.
pub open spec fn spec_is_due(hour: u32, minute: u32, now_hour: u32, now_minute: u32) -> bool {
    hour == now_hour && minute == now_minute
}

/// Whether something scheduled for `hour:minute` is due at
/// `now_hour:now_minute`.
pub fn is_due(hour: u32, minute: u32, now_hour: u32, now_minute: u32) -> (r: bool)
    ensures
        r == spec_is_due(hour, minute, now_hour, now_minute),
{
    hour == now_hour && minute == now_minute
}

impl AdminConfig {
    /// Whether the scores are to be fetched in the minute `now_hour:now_minute`.
    pub fn score_due(&self, now_hour: u32, now_minute: u32) -> (r: bool)
        ensures
            r == spec_is_due(self.exec_hour, self.exec_minute, now_hour, now_minute),
    {
        is_due(self.exec_hour, self.exec_minute, now_hour, now_minute)
    }
}

/// The indices, ascending, of those among the first `n` times that are due.
pub open spec fn due_prefix(times: Seq<(u32, u32)>, n: nat, now_hour: u32, now_minute: u32) -> Seq<
    usize,
>
    decreases n,
{
    if n == 0 {
        Seq::empty()
    } else {
        let p = due_prefix(times, (n - 1) as nat, now_hour, now_minute);
        if spec_is_due(times[n - 1].0, times[n - 1].1, now_hour, now_minute) {
            p.push((n - 1) as usize)
        } else {
            p
        }
    }
}

/// The times of the reminders of a schedule.
pub open spec fn notice_times(schedule: Seq<NoticeSchedule>) -> Seq<(u32, u32)> {
    Seq::new(schedule.len(), |i: int| (schedule[i].hour, schedule[i].minute))
}

/// The times of the runs of a schedule.
pub open spec fn study_times(schedule: Seq<Schedule>) -> Seq<(u32, u32)> {
    Seq::new(schedule.len(), |i: int| (schedule[i].hour, schedule[i].minute))
}

/// The positions in `schedule`, ascending, of the reminders that go out in
/// the minute `now_hour:now_minute`.
pub fn due_notices(schedule: &Vec<NoticeSchedule>, now_hour: u32, now_minute: u32) -> (r: Vec<usize>)
    ensures
        r@ == due_prefix(notice_times(schedule@), schedule@.len(), now_hour, now_minute),
{
    let mut r: Vec<usize> = Vec::new();
    let mut i: usize = 0;
    while i < schedule.len()
        invariant
            i <= schedule.len(),
            r@ == due_prefix(notice_times(schedule@), i as nat, now_hour, now_minute),
        decreases schedule.len() - i,
    {
        if is_due(schedule[i].hour, schedule[i].minute, now_hour, now_minute) {
            r.push(i);
        }
        i = i + 1;
    }
    r
}

/// The positions in `schedule`, ascending, of the study runs that start in
/// the minute `now_hour:now_minute`.
pub fn due_studies(schedule: &Vec<Schedule>, now_hour: u32, now_minute: u32) -> (r: Vec<usize>)
    ensures
        r@ == due_prefix(study_times(schedule@), schedule@.len(), now_hour, now_minute),
{
    let mut r: Vec<usize> = Vec::new();
    let mut i: usize = 0;
    while i < schedule.len()
        invariant
            i <= schedule.len(),
            r@ == due_prefix(study_times(schedule@), i as nat, now_hour, now_minute),
        decreases schedule.len() - i,
    {
        if is_due(schedule[i].hour, schedule[i].minute, now_hour, now_minute) {
            r.push(i);
        }
        i = i + 1;
    }
    r
}

/// One message of a reminder.
#[derive(Debug)]
pub enum NoticeSend {
    /// The reminder picture to these users.
    Image(String),
    /// A text to these users.
    Text(String, String),
    /// The reminder picture through the group robot at this address.
    BotImage(String),
    /// A text through the group robot at this address.
    BotText(String, String),
}

/// Mathematical value of a [`NoticeSend`].
pub enum NoticeSendView {
    Image(Seq<char>),
    Text(Seq<char>, Seq<char>),
    BotImage(Seq<char>),
    BotText(Seq<char>, Seq<char>),
}

impl View for NoticeSend {
    type V = NoticeSendView;

    open spec fn view(&self) -> NoticeSendView {
        match *self {
            NoticeSend::Image(u) => NoticeSendView::Image(u@),
            NoticeSend::Text(u, t) => NoticeSendView::Text(u@, t@),
            NoticeSend::BotImage(a) => NoticeSendView::BotImage(a@),
            NoticeSend::BotText(a, t) => NoticeSendView::BotText(a@, t@),
        }
    }
}

impl DeepView for NoticeSend {
    type V = NoticeSendView;

    open spec fn deep_view(&self) -> NoticeSendView {
        self@
    }
}

/// The messages to users: the picture to all of them at once, their ids
/// joined by `|`, then the text if there is one.
pub open spec fn user_sends(notice_id: Option<Seq<Seq<char>>>, text: Option<Seq<char>>) -> Seq<
    NoticeSendView,
> {
    match notice_id {
        Some(uids) => {
            let to = spec_join(uids, "|"@);
            match text {
                Some(t) => seq![NoticeSendView::Image(to), NoticeSendView::Text(to, t)],
                None => seq![NoticeSendView::Image(to)],
            }
        },
        None => Seq::empty(),
    }
}

/// The messages through the first `n` robots: for each the picture, then the
/// text if there is one.
pub open spec fn bot_sends(bots: Seq<Seq<char>>, n: nat, text: Option<Seq<char>>) -> Seq<
    NoticeSendView,
>
    decreases n,
{
    if n == 0 {
        Seq::empty()
    } else {
        let p = bot_sends(bots, (n - 1) as nat, text).push(NoticeSendView::BotImage(bots[n - 1]));
        match text {
            Some(t) => p.push(NoticeSendView::BotText(bots[n - 1], t)),
            None => p,
        }
    }
}

/// The messages of one reminder, in the order in which they go out.
pub open spec fn spec_push_notice(
    notice_id: Option<Seq<Seq<char>>>,
    notice_bot: Option<Seq<Seq<char>>>,
    text: Option<Seq<char>>,
) -> Seq<NoticeSendView> {
    user_sends(notice_id, text) + match notice_bot {
        Some(bots) => bot_sends(bots, bots.len(), text),
        None => Seq::empty(),
    }
}

/// The list of texts of an optional list, each by its view.
pub open spec fn texts_view(v: Option<Vec<String>>) -> Option<Seq<Seq<char>>> {
    match v {
        Some(l) => Some(l.deep_view()),
        None => None,
    }
}

/// The text of an optional text.
pub open spec fn text_view(v: Option<String>) -> Option<Seq<char>> {
    match v {
        Some(t) => Some(t@),
        None => None,
    }
}

/// The messages of one reminder, in the order in which they go out: first to
/// the users, then through each robot. Sending stops at the first failure.
pub fn push_notice(
    notice_id: &Option<Vec<String>>,
    notice_bot: &Option<Vec<String>>,
    notice_text: &Option<String>,
) -> (r: Vec<NoticeSend>)
    ensures
        r.deep_view() == spec_push_notice(
            texts_view(*notice_id),
            texts_view(*notice_bot),
            text_view(*notice_text),
        ),
{
    let mut r: Vec<NoticeSend> = Vec::new();
    if let Some(uids) = notice_id {
        let to_user = join(uids, "|");
        if let Some(t) = notice_text {
            r.push(NoticeSend::Image(to_user.clone()));
            r.push(NoticeSend::Text(to_user, t.clone()));
        } else {
            r.push(NoticeSend::Image(to_user));
        }
    }
    if let Some(bots) = notice_bot {
        let ghost head = r.deep_view();
        let mut i: usize = 0;
        while i < bots.len()
            invariant
                i <= bots.len(),
                r.deep_view() == head + bot_sends(
                    bots.deep_view(),
                    i as nat,
                    text_view(*notice_text),
                ),
            decreases bots.len() - i,
        {
            let ghost before = r.deep_view();
            r.push(NoticeSend::BotImage(bots[i].clone()));
            assert(r.deep_view() =~= before.push(NoticeSendView::BotImage(bots[i as int]@)));
            if let Some(t) = notice_text {
                let ghost mid = r.deep_view();
                r.push(NoticeSend::BotText(bots[i].clone(), t.clone()));
                assert(r.deep_view() =~= mid.push(NoticeSendView::BotText(bots[i as int]@, t@)));
            }
            assert(r.deep_view() =~= head + bot_sends(
                bots.deep_view(),
                (i + 1) as nat,
                text_view(*notice_text),
            ));
            i = i + 1;
        }
    }
    r
}

} // verus!
