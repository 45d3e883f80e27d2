//! Settings of the services, as their configuration files hold them.

use vstd::prelude::*;

verus! {

/// The account of the notification service.
#[derive(Debug)]
pub struct MpConfig {
    pub proxy_server: Option<String>,
    pub corp_id: String,
    pub corp_secret: String,
    pub agent_id: i64,
}

/// One reminder of the day: when it goes out, to whom, and with what text.
#[derive(Debug)]
pub struct NoticeSchedule {
    pub hour: u32,
    pub minute: u32,
    pub notice_bot: Option<Vec<String>>,
    pub notice_id: Option<Vec<String>>,
    pub text: Option<String>,
}

/// Settings of the administrator's service.
#[derive(Debug)]
pub struct AdminConfig {
    pub org_id: u64,
    pub xx_org_gray_id: String,
    /// The administrator's id at the notification service.
    pub admin_user: String,
    /// Addresses of the group robots.
    pub notice_bot: Vec<String>,
    pub proxy_server: Option<String>,
    /// Hour and minute at which the scores of the day before are fetched.
    pub exec_hour: u32,
    pub exec_minute: u32,
    pub mp: MpConfig,
    pub notice_schedule: Vec<NoticeSchedule>,
}

/// One study run of the day: for whom and when.
#[derive(Debug)]
pub struct Schedule {
    pub target: String,
    pub hour: u32,
    pub minute: u32,
}

/// Settings of the study service.
#[derive(Debug)]
pub struct StudyConfig {
    pub proxy_server: Option<String>,
    pub study_schedule: Vec<Schedule>,
    pub app_caller: String,
    pub corp_id: String,
    pub corp_secret: String,
    pub agent_id: i64,
}

} // verus!
