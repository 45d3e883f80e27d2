//! The notification service: message requests, and the access token that
//! every call needs.

pub mod msg;

use crate::clock::{now_timestamp, on_clock};
use crate::text::{push_signed_decimal, push_text, signed_decimal, text};
use crate::wx::msg::{MsgType, SendMsgReq};
use vstd::prelude::*;

verus! {

/// Seconds before its announced end at which a token is taken for stale.
pub const TOKEN_MARGIN: i64 = 30;

/// An access token and the time after which it must be fetched anew.
#[derive(Debug)]
pub struct Token {
    pub content: String,
    pub expires_after: i64,
}

/// What the token endpoint answered, or why the answer is no token.
pub open spec fn spec_token_response(
    errcode: i64,
    errmsg: Seq<char>,
    access_token: Option<String>,
    expires_in: Option<i64>,
) -> Result<(Seq<char>, i64), Seq<char>> {
    if errcode != 0 {
        Err("errcode: "@ + signed_decimal(errcode as int) + ", errmsg: "@ + errmsg)
    } else {
        match (access_token, expires_in) {
            (Some(t), Some(e)) => Ok((t@, e)),
            _ => Err("access_token or expires_in is None"@),
        }
    }
}

/// Reads the answer of the token endpoint: an error code other than 0 is an
/// error that shows code and message; otherwise token and lifetime must both
/// be there.
pub fn check_token_response(
    errcode: i64,
    errmsg: &str,
    access_token: Option<String>,
    expires_in: Option<i64>,
) -> (r: Result<(String, i64), String>)
    ensures
        match r {
            Ok(p) => spec_token_response(errcode, errmsg@, access_token, expires_in) == Ok::<
                (Seq<char>, i64),
                Seq<char>,
            >((p.0@, p.1)),
            Err(e) => spec_token_response(errcode, errmsg@, access_token, expires_in) == Err::<
                (Seq<char>, i64),
                Seq<char>,
            >(e@),
        },
{
    if errcode != 0 {
        let mut m = text("errcode: ");
        push_signed_decimal(&mut m, errcode);
        push_text(&mut m, ", errmsg: ");
        push_text(&mut m, errmsg);
        return Err(m);
    }
    match (access_token, expires_in) {
        (Some(t), Some(e)) => Ok((t, e)),
        _ => Err(text("access_token or expires_in is None")),
    }
}

fn with_token(prefix: &str, token: &str) -> (r: String)
    ensures
        r@ == prefix@ + token@,
{
    let mut r = text(prefix);
    push_text(&mut r, token);
    r
}

/// The address at which messages are recalled with `token`.
pub fn recall_url(token: &str) -> (r: String)
    ensures
        r@ == "https://qyapi.weixin.qq.com/cgi-bin/message/recall?access_token="@ + token@,
{
    with_token("https://qyapi.weixin.qq.com/cgi-bin/message/recall?access_token=", token)
}

/// The address at which media are uploaded with `token`.
pub fn upload_url(token: &str) -> (r: String)
    ensures
        r@ == "https://qyapi.weixin.qq.com/cgi-bin/media/upload?access_token="@ + token@,
{
    with_token("https://qyapi.weixin.qq.com/cgi-bin/media/upload?access_token=", token)
}

/// The address at which messages are sent with `token`.
pub fn send_url(token: &str) -> (r: String)
    ensures
        r@ == "https://qyapi.weixin.qq.com/cgi-bin/message/send?access_token="@ + token@,
{
    with_token("https://qyapi.weixin.qq.com/cgi-bin/message/send?access_token=", token)
}

/// An account of the notification service with its cached access token.
#[derive(Debug)]
pub struct MP {
    corp_id: String,
    corp_secret: String,
    agent_id: i64,
    access_token: Token,
}

/// Mathematical value of an [`MP`].
pub struct MPView {
    pub corp_id: Seq<char>,
    pub corp_secret: Seq<char>,
    pub agent_id: i64,
    pub token: Seq<char>,
    pub expires_after: i64,
}

impl MPView {
    /// Whether the token must be fetched anew before a call at `now`.
    pub open spec fn stale_at(self, now: i64) -> bool {
        self.expires_after < now
    }

    /// The end of validity of a token that was announced at `now` to live
    /// for `expires_in` seconds.
    pub open spec fn expiry(expires_in: i64, now: i64) -> int {
        now + (expires_in - TOKEN_MARGIN)
    }
}

impl View for MP {
    type V = MPView;

    closed spec fn view(&self) -> MPView {
        MPView {
            corp_id: self.corp_id@,
            corp_secret: self.corp_secret@,
            agent_id: self.agent_id,
            token: self.access_token.content@,
            expires_after: self.access_token.expires_after,
        }
    }
}

impl MP {
    /// An account made at `now`, with an empty token that is stale from the
    /// next second on.
    pub fn new_at(corp_id: &str, corp_secret: &str, agent_id: i64, now: i64) -> (r: Self)
        ensures
            r@ == (MPView {
                corp_id: corp_id@,
                corp_secret: corp_secret@,
                agent_id,
                token: Seq::empty(),
                expires_after: now,
            }),
    {
        MP {
            corp_id: text(corp_id),
            corp_secret: text(corp_secret),
            agent_id,
            access_token: Token { content: String::new(), expires_after: now },
        }
    }

    /// An account made now, with an empty token.
    pub fn new(corp_id: &str, corp_secret: &str, agent_id: i64) -> (r: Self)
        ensures
            r@.corp_id == corp_id@,
            r@.corp_secret == corp_secret@,
            r@.agent_id == agent_id,
            r@.token == Seq::<char>::empty(),
            on_clock(r@.expires_after),
    {
        MP::new_at(corp_id, corp_secret, agent_id, now_timestamp())
    }

    pub fn agent_id(&self) -> (r: i64)
        ensures
            r == self@.agent_id,
    {
        self.agent_id
    }

    /// The cached token, fresh or not.
    pub fn token(&self) -> (r: &String)
        ensures
            r@ == self@.token,
    {
        &self.access_token.content
    }

    /// The address that hands out a token for this account.
    pub fn token_url(&self) -> (r: String)
        ensures
            r@ == "https://qyapi.weixin.qq.com/cgi-bin/gettoken?corpid="@ + self@.corp_id
                + "&corpsecret="@ + self@.corp_secret,
    {
        let mut r = text("https://qyapi.weixin.qq.com/cgi-bin/gettoken?corpid=");
        push_text(&mut r, self.corp_id.as_str());
        push_text(&mut r, "&corpsecret=");
        push_text(&mut r, self.corp_secret.as_str());
        r
    }

    /// Whether the token must be fetched anew before a call at `now`.
    pub fn needs_refresh_at(&self, now: i64) -> (r: bool)
        ensures
            r == self@.stale_at(now),
    {
        self.access_token.expires_after < now
    }

    /// Stores a token that was announced at `now` to live for `expires_in`
    /// seconds: it counts as fresh until [`TOKEN_MARGIN`] seconds before its
    /// end. Returns `false`, and stores nothing, where that time cannot be
    /// represented.
    pub fn store_token_at(&mut self, access_token: String, expires_in: i64, now: i64) -> (stored:
        bool)
        ensures
            stored == (i64::MIN <= MPView::expiry(expires_in, now) <= i64::MAX),
            stored ==> final(self)@ == (MPView {
                token: access_token@,
                expires_after: MPView::expiry(expires_in, now) as i64,
                ..old(self)@
            }),
            !stored ==> final(self)@ == old(self)@,
    {
        let e: i128 = now as i128 + (expires_in as i128 - TOKEN_MARGIN as i128);
        if e < i64::MIN as i128 || e > i64::MAX as i128 {
            false
        } else {
            self.access_token = Token { content: access_token, expires_after: e as i64 };
            true
        }
    }

    /// A text message of this account to one user.
    pub fn text_msg(&self, to_user: &str, msg: &str) -> (r: SendMsgReq)
        ensures
            r matches SendMsgReq::Text(d) && d.common.plain(to_user@, MsgType::Text, self@.agent_id)
                && d.text.content@ == msg@,
    {
        SendMsgReq::text(to_user, self.agent_id, msg)
    }

    /// A markdown message of this account to one user.
    pub fn markdown_msg(&self, to_user: &str, msg: &str) -> (r: SendMsgReq)
        ensures
            r matches SendMsgReq::Markdown(d) && d.common.plain(
                to_user@,
                MsgType::Markdown,
                self@.agent_id,
            ) && d.markdown.content@ == msg@,
    {
        SendMsgReq::markdown(to_user, self.agent_id, msg)
    }

    /// An image message of this account to one user.
    pub fn image_msg(&self, to_user: &str, media_id: String) -> (r: SendMsgReq)
        ensures
            r matches SendMsgReq::Image(d) && d.common.plain(
                to_user@,
                MsgType::Image,
                self@.agent_id,
            ) && d.image.media_id == media_id && d.image.title is None
                && d.image.description is None,
    {
        SendMsgReq::image(to_user, self.agent_id, media_id)
    }
}

} // verus!
