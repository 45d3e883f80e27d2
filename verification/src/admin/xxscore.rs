//! The daily reports: the ranking of the day for the group robots, and the
//! full list of scores for the administrator.

use crate::admin::state::{Member, MemberScore, MemberScoreView, MemberView, OrganizationRank, OrganizationRankView};
use crate::text::{decimal, join, push_decimal, push_text, spec_join, text};
use vstd::prelude::*;

verus! {

/// A score above this makes a member one of the day's best.
pub const GRIND_ABOVE: u64 = 34;

/// At most this many of the day's best are named.
pub const MAX_GRINDS: usize = 20;

/// A score below this is shown as a warning.
pub const WARN_BELOW: u64 = 25;

/// The index at or after `from` before which a member with `score` goes into
/// the descending list `sorted`: the first one whose member has a strictly
/// lower score, or the end.
pub open spec fn insert_pos(sorted: Seq<MemberView>, score: u64, from: nat) -> nat
    decreases sorted.len() - from,
{
    if from >= sorted.len() {
        sorted.len()
    } else if sorted[from as int].range_real_score < score {
        from
    } else {
        insert_pos(sorted, score, from + 1)
    }
}

/// The first `n` members of `ms` by descending score; members with equal
/// scores keep their order.
pub open spec fn sorted_prefix(ms: Seq<MemberView>, n: nat) -> Seq<MemberView>
    decreases n,
{
    if n == 0 {
        Seq::empty()
    } else {
        let p = sorted_prefix(ms, (n - 1) as nat);
        let m = ms[n - 1];
        p.insert(insert_pos(p, m.range_real_score, 0) as int, m)
    }
}

/// The members by descending score; members with equal scores keep their
/// order.
pub open spec fn spec_sort_by_score(ms: Seq<MemberView>) -> Seq<MemberView> {
    sorted_prefix(ms, ms.len())
}

proof fn lemma_insert_pos_bounds(sorted: Seq<MemberView>, score: u64, from: nat)
    requires
        from <= sorted.len(),
    ensures
        from <= insert_pos(sorted, score, from) <= sorted.len(),
        forall|j: int|
            from <= j < insert_pos(sorted, score, from) ==> (#[trigger] sorted[j]).range_real_score
                >= score,
        insert_pos(sorted, score, from) < sorted.len() ==> sorted[insert_pos(
            sorted,
            score,
            from,
        ) as int].range_real_score < score,
    decreases sorted.len() - from,
{
    if from < sorted.len() && sorted[from as int].range_real_score >= score {
        lemma_insert_pos_bounds(sorted, score, from + 1);
    }
}

/// Whether the scores never go up along the list.
pub open spec fn descending(s: Seq<MemberView>) -> bool {
    forall|i: int, j: int|
        0 <= i <= j < s.len() ==> (#[trigger] s[i]).range_real_score >= (
        #[trigger] s[j]).range_real_score
}

/// Sorting keeps every member, as often as it occurs, and puts the scores in
/// descending order.
pub proof fn lemma_sorted_prefix(ms: Seq<MemberView>, n: nat)
    requires
        n <= ms.len(),
    ensures
        sorted_prefix(ms, n).len() == n,
        descending(sorted_prefix(ms, n)),
        sorted_prefix(ms, n).to_multiset() == ms.take(n as int).to_multiset(),
    decreases n,
{
    if n == 0 {
        assert(ms.take(0) =~= Seq::<MemberView>::empty());
    } else {
        let p = sorted_prefix(ms, (n - 1) as nat);
        let m = ms[n - 1];
        lemma_sorted_prefix(ms, (n - 1) as nat);
        lemma_insert_pos_bounds(p, m.range_real_score, 0);
        let k = insert_pos(p, m.range_real_score, 0) as int;
        let q = p.insert(k, m);
        assert(q.to_multiset() == p.to_multiset().insert(m)) by {
            broadcast use vstd::seq_lib::group_to_multiset_ensures;

            assert(q[k] == m);
        }
        assert(ms.take(n as int) =~= ms.take(n - 1).push(m));
        vstd::seq_lib::to_multiset_build(ms.take(n - 1), m);
    }
}

/// The members by descending score; members with equal scores keep their
/// order.
pub fn sort_by_score(data: &Vec<Member>) -> (r: Vec<Member>)
    ensures
        r.deep_view() == spec_sort_by_score(data.deep_view()),
{
    let mut r: Vec<Member> = Vec::new();
    let mut i: usize = 0;
    while i < data.len()
        invariant
            i <= data.len(),
            r.len() == i,
            r.deep_view() == sorted_prefix(data.deep_view(), i as nat),
        decreases data.len() - i,
    {
        let m = data[i].clone();
        let ghost p = r.deep_view();
        let mut k: usize = 0;
        while k < r.len() && r[k].range_real_score >= m.range_real_score
            invariant
                k <= r.len(),
                p == r.deep_view(),
                insert_pos(p, m.range_real_score, k as nat) == insert_pos(
                    p,
                    m.range_real_score,
                    0,
                ),
            decreases r.len() - k,
        {
            k = k + 1;
        }
        r.insert(k, m);
        i = i + 1;
    }
    r
}

/// How many of the first `n` members have no score at all.
pub open spec fn inactive_prefix(ms: Seq<MemberView>, n: nat) -> nat
    decreases n,
{
    if n == 0 {
        0
    } else {
        inactive_prefix(ms, (n - 1) as nat) + if ms[n - 1].range_real_score < 1 {
            1nat
        } else {
            0nat
        }
    }
}

/// How many members have no score at all.
pub open spec fn spec_inactive_count(ms: Seq<MemberView>) -> nat {
    inactive_prefix(ms, ms.len())
}

/// How many members have no score at all.
pub fn inactive_count(data: &Vec<Member>) -> (r: usize)
    ensures
        r == spec_inactive_count(data.deep_view()),
{
    let mut r: usize = 0;
    let mut i: usize = 0;
    while i < data.len()
        invariant
            i <= data.len(),
            r <= i,
            r == inactive_prefix(data.deep_view(), i as nat),
        decreases data.len() - i,
    {
        if data[i].range_real_score < 1 {
            r = r + 1;
        }
        i = i + 1;
    }
    r
}

/// `s` in the colour of good news.
pub open spec fn spec_info(s: Seq<char>) -> Seq<char> {
    "<font color=\"info\">"@ + s + "</font>"@
}

fn info(s: &str) -> (r: String)
    ensures
        r@ == spec_info(s@),
{
    let mut r = text("<font color=\"info\">");
    push_text(&mut r, s);
    push_text(&mut r, "</font>");
    r
}

/// The names, each in the colour of good news, of those among the first `n`
/// members whose score is above [`GRIND_ABOVE`].
pub open spec fn grinds_prefix(ms: Seq<MemberView>, n: nat) -> Seq<Seq<char>>
    decreases n,
{
    if n == 0 {
        Seq::empty()
    } else {
        let p = grinds_prefix(ms, (n - 1) as nat);
        if ms[n - 1].range_real_score > GRIND_ABOVE {
            p.push(spec_info(ms[n - 1].user_name))
        } else {
            p
        }
    }
}

/// The first [`MAX_GRINDS`] of the day's best among `sorted`, each in the
/// colour of good news.
pub open spec fn spec_grinds(sorted: Seq<MemberView>) -> Seq<Seq<char>> {
    let all = grinds_prefix(sorted, sorted.len());
    if all.len() > MAX_GRINDS {
        all.take(MAX_GRINDS as int)
    } else {
        all
    }
}

fn grinds(sorted: &Vec<Member>) -> (r: Vec<String>)
    ensures
        r.deep_view() == spec_grinds(sorted.deep_view()),
{
    let mut all: Vec<String> = Vec::new();
    let mut i: usize = 0;
    while i < sorted.len()
        invariant
            i <= sorted.len(),
            all.deep_view() == grinds_prefix(sorted.deep_view(), i as nat),
        decreases sorted.len() - i,
    {
        if sorted[i].range_real_score > GRIND_ABOVE {
            let tag = info(sorted[i].user_name.as_str());
            all.push(tag);
        }
        i = i + 1;
    }
    if all.len() <= MAX_GRINDS {
        return all;
    }
    let mut r: Vec<String> = Vec::new();
    let mut j: usize = 0;
    while j < MAX_GRINDS
        invariant
            j <= MAX_GRINDS < all.len(),
            r.len() == j,
            forall|k: int| 0 <= k < j ==> (#[trigger] r[k])@ == all[k]@,
        decreases MAX_GRINDS - j,
    {
        r.push(all[j].clone());
        j = j + 1;
    }
    r
}

/// The index at or after `from` of the first entry for organisation
/// `org_id`, or the length where there is none.
pub open spec fn first_org(ranks: Seq<OrganizationRankView>, org_id: u64, from: nat) -> nat
    decreases ranks.len() - from,
{
    if from >= ranks.len() {
        ranks.len()
    } else if ranks[from as int].org_id == org_id {
        from
    } else {
        first_org(ranks, org_id, from + 1)
    }
}

/// The sentence on the place of organisation `org_id`: empty where the
/// ranking does not hold it, a headline where it is first, else its place,
/// its average and how far it lies behind.
pub open spec fn spec_org_rank_msg(ranks: Seq<OrganizationRankView>, org_id: u64) -> Seq<char> {
    let k = first_org(ranks, org_id, 0);
    if k >= ranks.len() {
        Seq::empty()
    } else if ranks[k as int].rank != 1 {
        "**园区排名 <font color=\"info\">"@ + decimal(ranks[k as int].rank as nat)
            + "</font>名**, 平均分"@ + ranks[k as int].avg_score
            + ", <font color=\"comment\">落后"@ + ranks[k as int].pre_diff_score + "分</font>"@
    } else {
        "# 园区排名 <font color=\"info\">第一</font>**"@
    }
}

/// The sentence on the place of organisation `org_id` in the ranking.
pub fn org_rank_msg(ranks: &Vec<OrganizationRank>, org_id: u64) -> (r: String)
    ensures
        r@ == spec_org_rank_msg(ranks.deep_view(), org_id),
{
    let mut k: usize = 0;
    while k < ranks.len() && ranks[k].org_id != org_id
        invariant
            k <= ranks.len(),
            first_org(ranks.deep_view(), org_id, k as nat) == first_org(
                ranks.deep_view(),
                org_id,
                0,
            ),
        decreases ranks.len() - k,
    {
        k = k + 1;
    }
    if k >= ranks.len() {
        String::new()
    } else if ranks[k].rank != 1 {
        let a = &ranks[k];
        let mut r = text("**园区排名 <font color=\"info\">");
        push_decimal(&mut r, a.rank);
        push_text(&mut r, "</font>名**, 平均分");
        push_text(&mut r, a.avg_score.as_str());
        push_text(&mut r, ", <font color=\"comment\">落后");
        push_text(&mut r, a.pre_diff_score.as_str());
        push_text(&mut r, "分</font>");
        r
    } else {
        text("# 园区排名 <font color=\"info\">第一</font>**")
    }
}

/// The report for the group robots: the date, the day's best, the place of
/// the organisation, and how many members did nothing.
pub open spec fn spec_daily_message(score: MemberScoreView, org_id: u64) -> Seq<char> {
    let sorted = spec_sort_by_score(score.data);
    let best = spec_grinds(sorted);
    let grind_msg = if best.len() > 0 {
        "**当日学霸**\n> "@ + spec_join(best, "，"@)
    } else {
        Seq::empty()
    };
    let inactive = spec_inactive_count(sorted);
    let encourage_msg = if inactive > 0 {
        decimal(inactive) + "位同学未完成学习任务。"@
    } else {
        Seq::empty()
    };
    "**"@ + score.date + " 学习积分情况**\n\n"@ + grind_msg + "\n\n"@ + spec_org_rank_msg(
        score.organization_rank,
        org_id,
    ) + "\n\n"@ + encourage_msg
}

/// The line of one member in the administrator's list: name and score, the
/// score as a warning below [`WARN_BELOW`] and as good news above
/// [`GRIND_ABOVE`].
pub open spec fn spec_member_line(m: MemberView) -> Seq<char> {
    if m.range_real_score < WARN_BELOW {
        "> "@ + m.user_name + ": <font color=\"warning\">"@ + decimal(m.range_real_score as nat)
            + "</font>"@
    } else if m.range_real_score <= GRIND_ABOVE {
        "> "@ + m.user_name + ": "@ + decimal(m.range_real_score as nat)
    } else {
        "> "@ + m.user_name + ": <font color=\"info\">"@ + decimal(m.range_real_score as nat)
            + "</font>"@
    }
}

fn member_line(m: &Member) -> (r: String)
    ensures
        r@ == spec_member_line(m@),
{
    let mut r = text("> ");
    push_text(&mut r, m.user_name.as_str());
    if m.range_real_score < WARN_BELOW {
        push_text(&mut r, ": <font color=\"warning\">");
        push_decimal(&mut r, m.range_real_score);
        push_text(&mut r, "</font>");
    } else if m.range_real_score <= GRIND_ABOVE {
        push_text(&mut r, ": ");
        push_decimal(&mut r, m.range_real_score);
    } else {
        push_text(&mut r, ": <font color=\"info\">");
        push_decimal(&mut r, m.range_real_score);
        push_text(&mut r, "</font>");
    }
    r
}

/// The lines of those among the first `n` members that have a score.
pub open spec fn lines_prefix(ms: Seq<MemberView>, n: nat) -> Seq<Seq<char>>
    decreases n,
{
    if n == 0 {
        Seq::empty()
    } else {
        let p = lines_prefix(ms, (n - 1) as nat);
        if ms[n - 1].range_real_score > 0 {
            p.push(spec_member_line(ms[n - 1]))
        } else {
            p
        }
    }
}

/// The report for the administrator: the date, one line for every member
/// with a score, in the order given, and how many have none.
pub open spec fn spec_total_message(date: Seq<char>, ms: Seq<MemberView>) -> Seq<char> {
    "**"@ + date + " 学习强国积分情况**\n"@ + spec_join(lines_prefix(ms, ms.len()), "\n"@) + "\n\n"@
        + decimal(spec_inactive_count(ms)) + " 人未学习"@
}

/// The report for the administrator.
pub fn total_message(date: &str, ms: &Vec<Member>) -> (r: String)
    ensures
        r@ == spec_total_message(date@, ms.deep_view()),
{
    let mut lines: Vec<String> = Vec::new();
    let mut i: usize = 0;
    while i < ms.len()
        invariant
            i <= ms.len(),
            lines.deep_view() == lines_prefix(ms.deep_view(), i as nat),
        decreases ms.len() - i,
    {
        if ms[i].range_real_score > 0 {
            let line = member_line(&ms[i]);
            lines.push(line);
        }
        i = i + 1;
    }
    let body = join(&lines, "\n");
    let inactive = inactive_count(ms);
    let mut r = text("**");
    push_text(&mut r, date);
    push_text(&mut r, " 学习强国积分情况**\n");
    push_text(&mut r, body.as_str());
    push_text(&mut r, "\n\n");
    push_decimal(&mut r, inactive as u64);
    push_text(&mut r, " 人未学习");
    r
}

/// The report for the group robots.
pub fn daily_message(score: &MemberScore, org_id: u64) -> (r: String)
    ensures
        r@ == spec_daily_message(score@, org_id),
{
    let sorted = sort_by_score(&score.data);
    let best = grinds(&sorted);
    let grind_msg = if best.len() > 0 {
        let mut g = text("**当日学霸**\n> ");
        let names = join(&best, "，");
        push_text(&mut g, names.as_str());
        g
    } else {
        String::new()
    };
    let inactive = inactive_count(&sorted);
    let mut encourage_msg = String::new();
    if inactive > 0 {
        push_decimal(&mut encourage_msg, inactive as u64);
        push_text(&mut encourage_msg, "位同学未完成学习任务。");
    }
    let org = org_rank_msg(&score.organization_rank, org_id);
    let mut r = text("**");
    push_text(&mut r, score.date.as_str());
    push_text(&mut r, " 学习积分情况**\n\n");
    push_text(&mut r, grind_msg.as_str());
    push_text(&mut r, "\n\n");
    push_text(&mut r, org.as_str());
    push_text(&mut r, "\n\n");
    push_text(&mut r, encourage_msg.as_str());
    r
}

/// The two reports of a day.
#[derive(Debug)]
pub struct DailyReport {
    /// For every group robot.
    pub bot_msg: String,
    /// For the administrator.
    pub admin_msg: String,
}

/// The reports of a day from its scores: the ranking for the group robots,
/// and for the administrator the list of all scores in descending order.
pub fn daily_score(score: &MemberScore, org_id: u64) -> (r: DailyReport)
    ensures
        r.bot_msg@ == spec_daily_message(score@, org_id),
        r.admin_msg@ == spec_total_message(score@.date, spec_sort_by_score(score@.data)),
{
    let bot_msg = daily_message(score, org_id);
    let sorted = sort_by_score(&score.data);
    let admin_msg = total_message(score.date.as_str(), &sorted);
    DailyReport { bot_msg, admin_msg }
}

/// One message of the daily reports.
#[derive(Debug)]
pub enum ScoreSend {
    /// The ranking, through the group robot at this address.
    Bot(String, String),
    /// The full list, to this user.
    Admin(String, String),
}

/// Mathematical value of a [`ScoreSend`].
pub enum ScoreSendView {
    Bot(Seq<char>, Seq<char>),
    Admin(Seq<char>, Seq<char>),
}

impl View for ScoreSend {
    type V = ScoreSendView;

    open spec fn view(&self) -> ScoreSendView {
        match *self {
            ScoreSend::Bot(api, msg) => ScoreSendView::Bot(api@, msg@),
            ScoreSend::Admin(user, msg) => ScoreSendView::Admin(user@, msg@),
        }
    }
}

impl DeepView for ScoreSend {
    type V = ScoreSendView;

    open spec fn deep_view(&self) -> ScoreSendView {
        self@
    }
}

/// The messages of the daily reports in the order in which they go out: the
/// ranking through each robot, in the order of the robots, then the full
/// list to the administrator.
pub open spec fn spec_daily_sends(
    score: MemberScoreView,
    bots: Seq<Seq<char>>,
    org_id: u64,
    admin_user: Seq<char>,
) -> Seq<ScoreSendView> {
    Seq::new(bots.len(), |i: int| ScoreSendView::Bot(bots[i], spec_daily_message(score, org_id))).push(
        ScoreSendView::Admin(
            admin_user,
            spec_total_message(score.date, spec_sort_by_score(score.data)),
        ),
    )
}

/// The messages of the daily reports in the order in which they go out.
/// Sending stops at the first failure.
pub fn daily_sends(score: &MemberScore, wechat_bots: &Vec<String>, org_id: u64, admin_user: &str) -> (r:
    Vec<ScoreSend>)
    ensures
        r.deep_view() == spec_daily_sends(score@, wechat_bots.deep_view(), org_id, admin_user@),
{
    let report = daily_score(score, org_id);
    let mut r: Vec<ScoreSend> = Vec::new();
    let mut i: usize = 0;
    while i < wechat_bots.len()
        invariant
            i <= wechat_bots.len(),
            r.len() == i,
            report.bot_msg@ == spec_daily_message(score@, org_id),
            forall|j: int|
                0 <= j < i ==> (#[trigger] r[j])@ == ScoreSendView::Bot(
                    wechat_bots[j]@,
                    spec_daily_message(score@, org_id),
                ),
        decreases wechat_bots.len() - i,
    {
        r.push(ScoreSend::Bot(wechat_bots[i].clone(), report.bot_msg.clone()));
        i = i + 1;
    }
    r.push(ScoreSend::Admin(crate::text::text(admin_user), report.admin_msg));
    assert(r.deep_view() =~= spec_daily_sends(
        score@,
        wechat_bots.deep_view(),
        org_id,
        admin_user@,
    ));
    r
}

} // verus!
