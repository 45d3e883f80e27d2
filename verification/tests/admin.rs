use study::admin::config::{AdminConfig, MpConfig, NoticeSchedule, Schedule};
use study::admin::cron::{due_notices, due_studies, is_due, push_notice, NoticeSend};
use study::admin::fetcher::{AdminAction, AdminEvent, AdminPhase, AdminTask};
use study::admin::session::StateSession;
use study::admin::state::{Member, MemberScore, OrganizationRank, State, StateChange};
use study::admin::xx::XxAdmin;
use study::admin::xxscore::{
    daily_message, daily_score, daily_sends, inactive_count, org_rank_msg, sort_by_score,
    total_message, ScoreSend,
};
use study::error::TaskError;

fn member(name: &str, score: u64) -> Member {
    Member {
        range_real_score: score,
        dept_names: "d".to_string(),
        score_month: 0,
        range_score: score,
        dept_ids: "1".to_string(),
        user_name: name.to_string(),
        user_id: 1,
        total_score: 100,
        org_id: 9,
        is_activate: 1,
    }
}

fn org(rank: u64, org_id: u64, avg: &str, diff: &str) -> OrganizationRank {
    OrganizationRank {
        rank,
        org_name: "o".to_string(),
        org_id,
        stat_date: "20231105".to_string(),
        avg_score: avg.to_string(),
        pre_diff_score: diff.to_string(),
    }
}

fn names(v: &[Member]) -> Vec<String> {
    v.iter().map(|m| m.user_name.clone()).collect()
}

#[test]
fn sort_is_descending_and_stable() {
    let data = vec![
        member("a", 10),
        member("b", 40),
        member("c", 10),
        member("d", 0),
        member("e", 40),
        member("f", 35),
    ];
    let sorted = sort_by_score(&data);
    assert_eq!(names(&sorted), vec!["b", "e", "f", "a", "c", "d"]);
    assert_eq!(sorted[0].total_score, 100);
    assert_eq!(sorted[0].dept_names, "d");
    assert!(sort_by_score(&vec![]).is_empty());
    assert_eq!(inactive_count(&data), 1);
    assert_eq!(inactive_count(&vec![]), 0);
}

#[test]
fn organisation_sentence() {
    let ranks = vec![org(3, 5, "31.5", "0.25"), org(1, 6, "33", "0"), org(2, 5, "1", "1")];
    assert_eq!(
        org_rank_msg(&ranks, 5),
        "**园区排名 <font color=\"info\">3</font>名**, 平均分31.5, <font color=\"comment\">落后0.25分</font>"
    );
    assert_eq!(org_rank_msg(&ranks, 6), "# 园区排名 <font color=\"info\">第一</font>**");
    assert_eq!(org_rank_msg(&ranks, 7), "");
    assert_eq!(org_rank_msg(&vec![], 5), "");
}

#[test]
fn daily_reports() {
    let score = MemberScore {
        date: "20231105".to_string(),
        count: 4,
        data: vec![member("low", 3), member("top", 41), member("none", 0), member("mid", 30), member("best", 50)],
        organization_rank: vec![org(2, 9, "30.1", "1.5")],
    };
    let r = daily_score(&score, 9);
    assert_eq!(
        r.bot_msg,
        "**20231105 学习积分情况**\n\n**当日学霸**\n> <font color=\"info\">best</font>，<font color=\"info\">top</font>\n\n**园区排名 <font color=\"info\">2</font>名**, 平均分30.1, <font color=\"comment\">落后1.5分</font>\n\n1位同学未完成学习任务。"
    );
    assert_eq!(
        r.admin_msg,
        "**20231105 学习强国积分情况**\n> best: <font color=\"info\">50</font>\n> top: <font color=\"info\">41</font>\n> mid: 30\n> low: <font color=\"warning\">3</font>\n\n1 人未学习"
    );
    assert_eq!(daily_message(&score, 9), r.bot_msg);
}

#[test]
fn daily_report_of_an_empty_day() {
    let r = daily_score(&MemberScore::default(), 1);
    assert_eq!(r.bot_msg, "** 学习积分情况**\n\n\n\n\n\n");
    assert_eq!(r.admin_msg, "** 学习强国积分情况**\n\n\n0 人未学习");
}

#[test]
fn at_most_twenty_of_the_best_are_named() {
    let mut data = vec![];
    for i in 0..25u64 {
        data.push(member(&format!("m{}", i), 35 + i));
    }
    let score = MemberScore { date: "d".to_string(), count: 25, data, organization_rank: vec![] };
    let msg = daily_message(&score, 1);
    assert_eq!(msg.matches("<font color=\"info\">").count(), 20);
    assert!(msg.contains("<font color=\"info\">m24</font>，<font color=\"info\">m23</font>"));
    assert!(msg.contains("m5</font>"));
    assert!(!msg.contains("m4</font>"));
    assert!(msg.ends_with("\n\n\n\n"));
}

#[test]
fn score_lines_by_band() {
    let ms = vec![member("a", 24), member("b", 25), member("c", 34), member("d", 35), member("e", 0)];
    assert_eq!(
        total_message("20230606", &ms),
        "**20230606 学习强国积分情况**\n> a: <font color=\"warning\">24</font>\n> b: 25\n> c: 34\n> d: <font color=\"info\">35</font>\n\n1 人未学习"
    );
}

#[test]
fn what_is_due_at_a_minute() {
    assert!(is_due(8, 30, 8, 30));
    assert!(!is_due(8, 30, 8, 31));
    assert!(!is_due(8, 30, 9, 30));
    let notice = |hour, minute| NoticeSchedule { hour, minute, notice_bot: None, notice_id: None, text: None };
    let schedule = vec![notice(8, 30), notice(9, 0), notice(8, 30), notice(8, 31)];
    assert_eq!(due_notices(&schedule, 8, 30), vec![0, 2]);
    assert_eq!(due_notices(&schedule, 9, 0), vec![1]);
    assert!(due_notices(&schedule, 10, 0).is_empty());
    let study = |hour, minute| Schedule { target: "u".to_string(), hour, minute };
    assert_eq!(due_studies(&vec![study(7, 0), study(7, 1), study(7, 0)], 7, 0), vec![0, 2]);
    let conf = AdminConfig {
        org_id: 1,
        xx_org_gray_id: "g".to_string(),
        admin_user: "admin".to_string(),
        notice_bot: vec![],
        proxy_server: None,
        exec_hour: 6,
        exec_minute: 5,
        mp: MpConfig { proxy_server: None, corp_id: "c".to_string(), corp_secret: "s".to_string(), agent_id: 1 },
        notice_schedule: schedule,
    };
    assert!(conf.score_due(6, 5));
    assert!(!conf.score_due(6, 6));
}

fn shown(sends: &[NoticeSend]) -> Vec<String> {
    sends.iter().map(|s| format!("{:?}", s)).collect()
}

#[test]
fn messages_of_a_reminder() {
    let ids = Some(vec!["u1".to_string(), "u2".to_string()]);
    let bots = Some(vec!["b1".to_string(), "b2".to_string()]);
    let text = Some("go".to_string());
    assert_eq!(
        shown(&push_notice(&ids, &bots, &text)),
        vec![
            "Image(\"u1|u2\")",
            "Text(\"u1|u2\", \"go\")",
            "BotImage(\"b1\")",
            "BotText(\"b1\", \"go\")",
            "BotImage(\"b2\")",
            "BotText(\"b2\", \"go\")",
        ]
    );
    assert_eq!(
        shown(&push_notice(&ids, &bots, &None)),
        vec!["Image(\"u1|u2\")", "BotImage(\"b1\")", "BotImage(\"b2\")"]
    );
    assert_eq!(shown(&push_notice(&None, &bots, &None)), vec!["BotImage(\"b1\")", "BotImage(\"b2\")"]);
    assert_eq!(shown(&push_notice(&Some(vec![]), &None, &text)), vec!["Image(\"\")", "Text(\"\", \"go\")"]);
    assert!(push_notice(&None, &None, &text).is_empty());
}

#[test]
fn admin_run_to_completion() {
    let mut x = XxAdmin::new_at(100);
    let mut t = AdminTask::standard();
    let s = t.step(AdminEvent::Start);
    assert_eq!(s.action, AdminAction::Launch);
    x.publish_at(s.emit.unwrap(), 100);
    assert!(matches!(x.get_state(), State::Init));
    assert!(x.ping_at(101));
    assert_eq!(t.step(AdminEvent::Launched).action, AdminAction::FetchTicket);
    let s = t.step(AdminEvent::Ticket("tk".to_string()));
    assert_eq!(s.action, AdminAction::WaitLogin(130));
    x.publish_at(s.emit.unwrap(), 110);
    assert!(matches!(x.get_state(), State::WaitingLogin((t, 260)) if t == "tk"));
    assert!(x.ping_at(259));
    assert!(!x.ping_at(260));
    // one timed out wait, then a new ticket
    let s = t.step(AdminEvent::Login(false));
    assert!(s.emit.is_none());
    assert_eq!(s.action, AdminAction::FetchTicket);
    let s = t.step(AdminEvent::Ticket("tk2".to_string()));
    x.publish_at(s.emit.unwrap(), 250);
    let s = t.step(AdminEvent::Login(true));
    assert_eq!(s.action, AdminAction::ReadScore);
    x.publish_at(s.emit.unwrap(), 260);
    assert!(matches!(x.get_state(), State::Logged));
    assert!(!x.ping_at(261));
    let s = t.step(AdminEvent::Score(MemberScore::default()));
    assert_eq!(s.action, AdminAction::Release);
    assert!(!x.publish_at(s.emit.unwrap(), 270));
    assert!(matches!(x.get_state(), State::Complete(_)));
    assert_eq!(t.phase(), AdminPhase::Done);
    assert_eq!(t.step(AdminEvent::Start).action, AdminAction::Nothing);
    assert!(!x.publish_at(StateChange::Init, 280));
    assert!(matches!(x.get_state(), State::Complete(_)));
}

#[test]
fn admin_run_fails() {
    let mut t = AdminTask::new(2);
    t.step(AdminEvent::Start);
    t.step(AdminEvent::Launched);
    t.step(AdminEvent::Ticket("a".to_string()));
    assert_eq!(t.step(AdminEvent::Login(false)).action, AdminAction::FetchTicket);
    t.step(AdminEvent::Ticket("b".to_string()));
    let s = t.step(AdminEvent::Login(false));
    assert_eq!(s.action, AdminAction::Release);
    assert!(matches!(s.emit, Some(StateChange::BrowserClosed(r)) if r == "exceeded 2 retries without login"));
    let mut t = AdminTask::standard();
    t.step(AdminEvent::Start);
    let s = t.step(AdminEvent::Failed(TaskError::ConstructionFailed("x".to_string())));
    assert!(matches!(s.emit, Some(StateChange::BrowserClosed(r)) if r == "construction failed: x"));
    let mut t = AdminTask::standard();
    let s = t.step(AdminEvent::Cancelled);
    assert!(matches!(s.emit, Some(StateChange::BrowserClosed(r)) if r == "cancelled"));
    assert_eq!(t.step(AdminEvent::Cancelled).action, AdminAction::Nothing);
}

#[test]
fn admin_connection_by_the_wall_clock() {
    let mut x = XxAdmin::new().unwrap();
    assert!(x.ping());
    assert!(!XxAdmin::new_at(-300).ping());
    assert!(XxAdmin::new_at(1i64 << 48).ping());
    assert!(x.publish(StateChange::WaitingLogin("t".to_string())));
    assert!(x.ping());
    assert!(x.publish(StateChange::LoggedIn));
    assert!(!x.ping());
    assert!(!x.publish(StateChange::BrowserClosed("e".to_string())));
    assert!(matches!(x.get_state(), State::Broken(r) if r == "e"));
}

#[test]
fn admin_session_renews_after_the_end() {
    let mut ss = StateSession::new_at("gray", None, vec!["bot".to_string()], 9, "admin".to_string(), 1000);
    assert_eq!(ss.admin_user(), "admin");
    assert_eq!(ss.wechat_bots(), &vec!["bot".to_string()]);
    assert_eq!(ss.xx_org_gray_id(), "gray");
    assert_eq!(ss.proxy_server(), &None);
    let p = ss.get_at(1001);
    assert!(matches!(p.state, State::Prepare));
    assert!(p.sends.is_empty());
    assert!(!p.renewed);
    assert_eq!(ss.run(), 0);
    assert!(ss.publish_at(0, StateChange::Init, 1002));
    assert!(ss.publish_at(0, StateChange::WaitingLogin("t".to_string()), 1003));
    // an event of another run is dropped
    assert!(!ss.publish_at(1, StateChange::BrowserClosed("stray".to_string()), 1003));
    let p = ss.get_at(1004);
    assert!(matches!(p.state, State::WaitingLogin((t, 1153)) if t == "t"));
    assert!(!p.renewed);
    let score = MemberScore {
        date: "20231105".to_string(),
        count: 1,
        data: vec![member("a", 36)],
        organization_rank: vec![org(1, 9, "36", "0")],
    };
    assert!(!ss.publish_at(0, StateChange::Complete(score), 1005));
    let p = ss.get_at(1006);
    assert!(matches!(p.state, State::Complete(_)));
    assert!(p.renewed);
    let bot_msg = "**20231105 学习积分情况**\n\n**当日学霸**\n> <font color=\"info\">a</font>\n\n# 园区排名 <font color=\"info\">第一</font>**\n\n";
    let admin_msg = "**20231105 学习强国积分情况**\n> a: <font color=\"info\">36</font>\n\n0 人未学习";
    assert_eq!(p.sends.len(), 2);
    assert!(matches!(&p.sends[0], ScoreSend::Bot(api, msg) if api == "bot" && msg == bot_msg));
    assert!(matches!(&p.sends[1], ScoreSend::Admin(user, msg) if user == "admin" && msg == admin_msg));
    // the next poll sees the fresh connection
    let p = ss.get_at(1007);
    assert!(matches!(p.state, State::Prepare));
    assert!(!p.renewed);
    assert_eq!(ss.run(), 1);
    // the relay of the run before writes no more
    assert!(!ss.publish_at(0, StateChange::Init, 1008));
    assert!(matches!(ss.get_at(1008).state, State::Prepare));
    ss.publish_at(1, StateChange::BrowserClosed("x".to_string()), 1008);
    let p = ss.get_at(1009);
    assert!(matches!(p.state, State::Broken(r) if r == "x"));
    assert!(p.sends.is_empty());
    assert!(p.renewed);
    assert!(matches!(ss.get_at(1010).state, State::Prepare));
    assert_eq!(ss.run(), 2);
    let mut now = StateSession::new("gray", None, vec![], 9, "admin".to_string()).unwrap();
    let p = now.get().unwrap();
    assert!(matches!(p.state, State::Prepare));
    assert!(!p.renewed);
}

#[test]
fn daily_reports_go_to_each_robot_and_then_to_the_administrator() {
    let score = MemberScore {
        date: "20231105".to_string(),
        count: 2,
        data: vec![member("low", 3), member("top", 41)],
        organization_rank: vec![],
    };
    let report = daily_score(&score, 9);
    let bots = vec!["b1".to_string(), "b2".to_string()];
    let sends = daily_sends(&score, &bots, 9, "boss");
    assert_eq!(sends.len(), 3);
    assert!(matches!(&sends[0], ScoreSend::Bot(api, msg) if api == "b1" && msg == &report.bot_msg));
    assert!(matches!(&sends[1], ScoreSend::Bot(api, msg) if api == "b2" && msg == &report.bot_msg));
    assert!(matches!(&sends[2], ScoreSend::Admin(user, msg) if user == "boss" && msg == &report.admin_msg));
    let sends = daily_sends(&score, &vec![], 9, "boss");
    assert_eq!(sends.len(), 1);
    assert!(matches!(&sends[0], ScoreSend::Admin(user, msg) if user == "boss" && msg == &report.admin_msg));
}
