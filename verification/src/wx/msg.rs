//! Messages of the notification service: their kinds, their requests, and
//! the interface through which they are sent.

use crate::text::{str_eq, text};
use vstd::prelude::*;
use vstd::std_specs::convert::FromSpecImpl;

verus! {

/// The notification service as the engine uses it. Each call either returns
/// what the service answered (the id of the message, where it gives one), or
/// the reason why the call failed.
pub trait MsgApi {
    fn recall_msgs(&self, msgs: Vec<String>) -> Result<(), String>;

    fn send_image_msg(&self, to_user: &str, img_data: &[u8]) -> Result<String, String>;

    fn send_text_msg(&self, to_user: &str, msg: &str) -> Result<String, String>;

    fn send_markdown_msg(&self, to_user: &str, msg: &str) -> Result<String, String>;

    fn send_bot_msg(&self, msg: &str, api: &str) -> Result<(), String>;

    fn send_msg(&self, d: SendMsgReq) -> Result<String, String>;
}

/// The kind of a message.
#[derive(Clone, Copy, Debug, PartialEq, Eq, Structural)]
pub enum MsgType {
    Text,
    Image,
    Voice,
    Video,
    File,
    TextCard,
    News,
    Mpnews,
    Markdown,
}

impl MsgType {
    /// The name of the kind on the wire.
    pub open spec fn spec_name(self) -> Seq<char> {
        match self {
            MsgType::Text => "text"@,
            MsgType::Image => "image"@,
            MsgType::Voice => "voice"@,
            MsgType::Video => "video"@,
            MsgType::File => "file"@,
            MsgType::Markdown => "markdown"@,
            MsgType::TextCard => "textcard"@,
            MsgType::News => "news"@,
            MsgType::Mpnews => "mpnews"@,
        }
    }

    /// The kind that a name on the wire stands for; a name that is none of
    /// the known ones stands for `Text`.
    pub open spec fn spec_from_name(s: Seq<char>) -> MsgType {
        if s == "text"@ {
            MsgType::Text
        } else if s == "image"@ {
            MsgType::Image
        } else if s == "voice"@ {
            MsgType::Voice
        } else if s == "video"@ {
            MsgType::Video
        } else if s == "file"@ {
            MsgType::File
        } else if s == "markdown"@ {
            MsgType::Markdown
        } else if s == "textcard"@ {
            MsgType::TextCard
        } else if s == "news"@ {
            MsgType::News
        } else if s == "mpnews"@ {
            MsgType::Mpnews
        } else {
            MsgType::Text
        }
    }

    /// The name of the kind on the wire.
    pub fn as_str(&self) -> (r: &'static str)
        ensures
            r@ == self.spec_name(),
    {
        match self {
            MsgType::Text => "text",
            MsgType::Image => "image",
            MsgType::Voice => "voice",
            MsgType::Video => "video",
            MsgType::File => "file",
            MsgType::Markdown => "markdown",
            MsgType::TextCard => "textcard",
            MsgType::News => "news",
            MsgType::Mpnews => "mpnews",
        }
    }

    /// The kind that the name `s` stands for.
    pub fn from_name(s: &str) -> (r: MsgType)
        ensures
            r == Self::spec_from_name(s@),
    {
        if str_eq(s, "text") {
            MsgType::Text
        } else if str_eq(s, "image") {
            MsgType::Image
        } else if str_eq(s, "voice") {
            MsgType::Voice
        } else if str_eq(s, "video") {
            MsgType::Video
        } else if str_eq(s, "file") {
            MsgType::File
        } else if str_eq(s, "markdown") {
            MsgType::Markdown
        } else if str_eq(s, "textcard") {
            MsgType::TextCard
        } else if str_eq(s, "news") {
            MsgType::News
        } else if str_eq(s, "mpnews") {
            MsgType::Mpnews
        } else {
            MsgType::Text
        }
    }
}

impl Default for MsgType {
    fn default() -> (r: Self)
        ensures
            r == MsgType::Text,
    {
        MsgType::Text
    }
}

impl From<String> for MsgType {
    fn from(s: String) -> (r: MsgType) {
        MsgType::from_name(s.as_str())
    }
}

impl FromSpecImpl<String> for MsgType {
    open spec fn obeys_from_spec() -> bool {
        true
    }

    open spec fn from_spec(s: String) -> MsgType {
        MsgType::spec_from_name(s@)
    }
}

/// Every name of a kind stands for that kind again.
pub proof fn lemma_name_round_trip(t: MsgType)
    ensures
        MsgType::spec_from_name(t.spec_name()) == t,
{
    reveal_strlit("text");
    reveal_strlit("image");
    reveal_strlit("voice");
    reveal_strlit("video");
    reveal_strlit("file");
    reveal_strlit("markdown");
    reveal_strlit("textcard");
    reveal_strlit("news");
    reveal_strlit("mpnews");
    assert("text"@[0] == 't' && "news"@[0] == 'n' && "file"@[0] == 'f');
    assert("image"@[0] == 'i' && "voice"@[3] == 'c' && "video"@[3] == 'e');
    assert("markdown"@.len() == 8 && "textcard"@.len() == 8 && "mpnews"@.len() == 6);
    assert("markdown"@[0] == 'm' && "textcard"@[0] == 't');
}

/// The body of a text or markdown message.
#[derive(Debug)]
pub struct TextContent {
    pub content: String,
}

/// The body of a message that shows an uploaded medium.
#[derive(Debug)]
pub struct MediaContent {
    pub media_id: String,
    pub title: Option<String>,
    pub description: Option<String>,
}

/// The body of a card with a title, a text and a button.
#[derive(Debug)]
pub struct TextCardContent {
    pub title: String,
    pub description: String,
    pub url: String,
    pub btn_txt: String,
}

/// One article of a news message.
#[derive(Debug)]
pub struct NewsArticle {
    pub title: String,
    pub description: String,
    pub url: String,
    pub pic_url: String,
}

/// The body of a news message.
#[derive(Debug)]
pub struct NewsContent {
    pub articles: Vec<NewsArticle>,
}

/// What every request carries: the receivers, the kind, the sending agent,
/// and the delivery options.
#[derive(Debug)]
pub struct SendMsgCommon {
    pub to_user: Option<String>,
    pub to_party: Option<String>,
    pub to_tag: Option<String>,
    pub msg_type: MsgType,
    pub agent_id: i64,
    pub safe: Option<i8>,
    pub enable_id_trans: Option<i8>,
    pub enable_duplicate_check: Option<i8>,
    pub duplicate_check_interval: Option<i32>,
}

impl SendMsgCommon {
    /// The common part of a request of kind `ty` to the user `to_user` alone,
    /// with no option set.
    pub open spec fn plain(self, to_user: Seq<char>, ty: MsgType, agent_id: i64) -> bool {
        &&& self.to_user matches Some(u) && u@ == to_user
        &&& self.to_party is None
        &&& self.to_tag is None
        &&& self.msg_type == ty
        &&& self.agent_id == agent_id
        &&& self.safe is None
        &&& self.enable_id_trans is None
        &&& self.enable_duplicate_check is None
        &&& self.duplicate_check_interval is None
    }

    /// The common part of a request of kind `msg_type` to one user.
    pub fn to_one(to_user: &str, msg_type: MsgType, agent_id: i64) -> (r: Self)
        ensures
            r.plain(to_user@, msg_type, agent_id),
    {
        SendMsgCommon {
            to_user: Some(text(to_user)),
            to_party: None,
            to_tag: None,
            msg_type,
            agent_id,
            safe: None,
            enable_id_trans: None,
            enable_duplicate_check: None,
            duplicate_check_interval: None,
        }
    }
}

/// A request to send a picture.
#[derive(Debug)]
pub struct SendImageMsgReq {
    pub common: SendMsgCommon,
    pub image: MediaContent,
}

/// A request to send a text.
#[derive(Debug)]
pub struct SendTextMsgReq {
    pub common: SendMsgCommon,
    pub text: TextContent,
}

/// A request to send a voice recording.
#[derive(Debug)]
pub struct SendVoiceMsgReq {
    pub common: SendMsgCommon,
    pub voice: MediaContent,
}

/// A request to send a video.
#[derive(Debug)]
pub struct SendVideoMsgReq {
    pub common: SendMsgCommon,
    pub video: MediaContent,
}

/// A request to send a file.
#[derive(Debug)]
pub struct SendFileMsgReq {
    pub common: SendMsgCommon,
    pub file: MediaContent,
}

/// A request to send a markdown text.
#[derive(Debug)]
pub struct SendMarkdownMsgReq {
    pub common: SendMsgCommon,
    pub markdown: TextContent,
}

/// A request to send a card.
#[derive(Debug)]
pub struct SendTextCardMsgReq {
    pub common: SendMsgCommon,
    pub textcard: TextCardContent,
}

/// A request to send news.
#[derive(Debug)]
pub struct SendNewsMsgReq {
    pub common: SendMsgCommon,
    pub news: NewsContent,
}

/// A request to send one message.
#[derive(Debug)]
pub enum SendMsgReq {
    Text(SendTextMsgReq),
    Image(SendImageMsgReq),
    Voice(SendVoiceMsgReq),
    Video(SendVideoMsgReq),
    File(SendFileMsgReq),
    Markdown(SendMarkdownMsgReq),
    TextCard(SendTextCardMsgReq),
    News(SendNewsMsgReq),
}

impl SendMsgReq {
    /// The common part of the request.
    pub open spec fn common(self) -> SendMsgCommon {
        match self {
            SendMsgReq::Text(d) => d.common,
            SendMsgReq::Image(d) => d.common,
            SendMsgReq::Voice(d) => d.common,
            SendMsgReq::Video(d) => d.common,
            SendMsgReq::File(d) => d.common,
            SendMsgReq::Markdown(d) => d.common,
            SendMsgReq::TextCard(d) => d.common,
            SendMsgReq::News(d) => d.common,
        }
    }

    /// The request with another common part and the same content.
    pub open spec fn with_common(self, common: SendMsgCommon) -> SendMsgReq {
        match self {
            SendMsgReq::Text(d) => SendMsgReq::Text(SendTextMsgReq { common, ..d }),
            SendMsgReq::Image(d) => SendMsgReq::Image(SendImageMsgReq { common, ..d }),
            SendMsgReq::Voice(d) => SendMsgReq::Voice(SendVoiceMsgReq { common, ..d }),
            SendMsgReq::Video(d) => SendMsgReq::Video(SendVideoMsgReq { common, ..d }),
            SendMsgReq::File(d) => SendMsgReq::File(SendFileMsgReq { common, ..d }),
            SendMsgReq::Markdown(d) => SendMsgReq::Markdown(SendMarkdownMsgReq { common, ..d }),
            SendMsgReq::TextCard(d) => SendMsgReq::TextCard(SendTextCardMsgReq { common, ..d }),
            SendMsgReq::News(d) => SendMsgReq::News(SendNewsMsgReq { common, ..d }),
        }
    }

    /// Sets the agent that sends the message; nothing else changes.
    pub fn set_agent_id(&mut self, agent_id: i64)
        ensures
            *final(self) == old(self).with_common(
                SendMsgCommon { agent_id, ..old(self).common() },
            ),
    {
        match self {
            SendMsgReq::Text(d) => d.common.agent_id = agent_id,
            SendMsgReq::Image(d) => d.common.agent_id = agent_id,
            SendMsgReq::Voice(d) => d.common.agent_id = agent_id,
            SendMsgReq::Video(d) => d.common.agent_id = agent_id,
            SendMsgReq::File(d) => d.common.agent_id = agent_id,
            SendMsgReq::Markdown(d) => d.common.agent_id = agent_id,
            SendMsgReq::TextCard(d) => d.common.agent_id = agent_id,
            SendMsgReq::News(d) => d.common.agent_id = agent_id,
        }
    }

    /// The agent that sends the message.
    pub fn agent_id(&self) -> (r: i64)
        ensures
            r == self.common().agent_id,
    {
        match self {
            SendMsgReq::Text(d) => d.common.agent_id,
            SendMsgReq::Image(d) => d.common.agent_id,
            SendMsgReq::Voice(d) => d.common.agent_id,
            SendMsgReq::Video(d) => d.common.agent_id,
            SendMsgReq::File(d) => d.common.agent_id,
            SendMsgReq::Markdown(d) => d.common.agent_id,
            SendMsgReq::TextCard(d) => d.common.agent_id,
            SendMsgReq::News(d) => d.common.agent_id,
        }
    }

    /// A text message to one user.
    pub fn text(to_user: &str, agent_id: i64, msg: &str) -> (r: Self)
        ensures
            r matches SendMsgReq::Text(d) && d.common.plain(to_user@, MsgType::Text, agent_id)
                && d.text.content@ == msg@,
    {
        SendMsgReq::Text(
            SendTextMsgReq {
                common: SendMsgCommon::to_one(to_user, MsgType::Text, agent_id),
                text: TextContent { content: text(msg) },
            },
        )
    }

    /// A markdown message to one user.
    pub fn markdown(to_user: &str, agent_id: i64, msg: &str) -> (r: Self)
        ensures
            r matches SendMsgReq::Markdown(d) && d.common.plain(
                to_user@,
                MsgType::Markdown,
                agent_id,
            ) && d.markdown.content@ == msg@,
    {
        SendMsgReq::Markdown(
            SendMarkdownMsgReq {
                common: SendMsgCommon::to_one(to_user, MsgType::Markdown, agent_id),
                markdown: TextContent { content: text(msg) },
            },
        )
    }

    /// An image message to one user, for an image that was uploaded under
    /// `media_id`.
    pub fn image(to_user: &str, agent_id: i64, media_id: String) -> (r: Self)
        ensures
            r matches SendMsgReq::Image(d) && d.common.plain(to_user@, MsgType::Image, agent_id)
                && d.image.media_id == media_id && d.image.title is None
                && d.image.description is None,
    {
        SendMsgReq::Image(
            SendImageMsgReq {
                common: SendMsgCommon::to_one(to_user, MsgType::Image, agent_id),
                image: MediaContent { media_id, title: None, description: None },
            },
        )
    }
}

} // verus!
