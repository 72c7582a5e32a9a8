//! Links: telling the ones that point into a chat channel, resolving them
//! to a direct address through the resolver service, and the messages that
//! show an address.

use crate::bot::callback::{encode, encoded, Callback, CallbackView};
use crate::bot::render::{Button, ButtonView};
use crate::cloudreve::file_source::{source_error_text, SourceError, SourceErrorView};
use crate::cloudreve::list_files::{browse_root, browse_root_of};
use crate::cloudreve::request::{reply_body, Reply, ReplyView};
use crate::json::{parse_json, parsed_json, Json, JsonValue};
use crate::text::{contains, join, occurs_in, push_signed_decimal, signed_decimal, trim, trimmed};
use vstd::prelude::*;

verus! {

/// The path that a list command names: what was typed without the white
/// space around it, or the browse root where nothing was typed.
pub open spec fn command_path_of(typed: Seq<char>, configured: Option<Seq<char>>) -> Seq<char> {
    if trimmed(typed).len() == 0 {
        browse_root_of(configured)
    } else {
        trimmed(typed)
    }
}

/// The path that a list command names.
pub fn command_path(typed: &str, configured: Option<&str>) -> (r: String)
    ensures
        r@ == command_path_of(
            typed@,
            match configured {
                Some(c) => Some(c@),
                None => None,
            },
        ),
{
    let path = trim(typed);
    if path.is_empty() {
        browse_root(configured)
    } else {
        String::from_str(path)
    }
}

/// Whether an address points into the chat service: whether it names the
/// service's short host anywhere.
pub fn is_telegram_link(url: &str) -> (r: bool)
    ensures
        r == occurs_in(url@, "t.me"@),
{
    contains(url, "t.me")
}

/// The address of a post in a public channel.
pub open spec fn post_link(username: Seq<char>, message_id: i32) -> Seq<char> {
    "https://t.me/"@ + username + "/"@ + signed_decimal(message_id as int)
}

/// The address of a post in a public channel.
pub fn channel_post_link(username: &str, message_id: i32) -> (r: String)
    ensures
        r@ == post_link(username@, message_id),
{
    let mut out = String::from_str("https://t.me/");
    out.append(username);
    out.append("/");
    push_signed_decimal(&mut out, message_id as i64);
    out
}

/// The address at which the resolver service resolves `url`.
pub open spec fn resolver_address(url: Seq<char>) -> Seq<char> {
    "https://tg.taro.cat/api/resolve?url="@ + url
}

/// The address at which the resolver service resolves `url`.
pub fn resolve_request(url: &str) -> (r: String)
    ensures
        r@ == resolver_address(url@),
{
    join("https://tg.taro.cat/api/resolve?url=", url)
}

/// Why a link was not resolved.
#[derive(Debug, PartialEq)]
pub enum ResolveError {
    /// The resolver did not answer; the text says why.
    Unreachable(String),
    /// The resolver's answer is no JSON; the text is the answer.
    Unreadable(String),
    /// The resolver's answer names no address.
    Unresolved,
}

/// The mathematical value of a [`ResolveError`].
pub enum ResolveErrorView {
    Unreachable(Seq<char>),
    Unreadable(Seq<char>),
    Unresolved,
}

impl View for ResolveError {
    type V = ResolveErrorView;

    open spec fn view(&self) -> ResolveErrorView {
        match self {
            ResolveError::Unreachable(reason) => ResolveErrorView::Unreachable(reason@),
            ResolveError::Unreadable(body) => ResolveErrorView::Unreadable(body@),
            ResolveError::Unresolved => ResolveErrorView::Unresolved,
        }
    }
}

/// A resolution error as a line of text.
pub open spec fn resolve_error_text(e: ResolveErrorView) -> Seq<char> {
    match e {
        ResolveErrorView::Unreachable(reason) => reason,
        ResolveErrorView::Unreadable(body) => "Failed to parse response: "@ + body,
        ResolveErrorView::Unresolved => "Failed to resolve URL"@,
    }
}

/// The value of a resolution's result.
pub open spec fn resolution_view(r: Result<String, ResolveError>) -> Result<
    Seq<char>,
    ResolveErrorView,
> {
    match r {
        Ok(link) => Ok(link@),
        Err(e) => Err(e@),
    }
}

/// What the resolver's answer comes to, given what its body decoded to:
/// the string `stream_link`, provided that `ok` is true.
pub open spec fn resolution(body: Seq<char>, decoded: Option<JsonValue>) -> Result<
    Seq<char>,
    ResolveErrorView,
> {
    match decoded {
        Some(answer) => if answer.member("ok"@) == Some(JsonValue::Bool(true)) {
            match answer.text_member("stream_link"@) {
                Some(link) => Ok(link),
                None => Err(ResolveErrorView::Unresolved),
            }
        } else {
            Err(ResolveErrorView::Unresolved)
        },
        None => Err(ResolveErrorView::Unreadable(body)),
    }
}

/// What a reply of the resolver comes to, given what its body decoded to.
pub open spec fn link_outcome(reply: ReplyView, decoded: Option<JsonValue>) -> Result<
    Seq<char>,
    ResolveErrorView,
> {
    match reply {
        ReplyView::Unreachable(reason) => Err(ResolveErrorView::Unreachable(reason)),
        ReplyView::Received { status, body } => resolution(body, decoded),
    }
}

/// Settles the resolver's answer from its body and what the body decoded
/// to.
pub fn read_resolution(body: &str, decoded: Option<Json>) -> (r: Result<String, ResolveError>)
    ensures
        resolution_view(r) == resolution(
            body@,
            match decoded {
                Some(j) => Some(j@),
                None => None,
            },
        ),
{
    match decoded {
        Some(answer) => {
            let ok = match answer.get("ok") {
                Some(flag) => match flag.as_bool() {
                    Some(b) => b,
                    None => false,
                },
                None => false,
            };
            if ok {
                match answer.get_str("stream_link") {
                    Some(link) => Ok(String::from_str(link)),
                    None => Err(ResolveError::Unresolved),
                }
            } else {
                Err(ResolveError::Unresolved)
            }
        },
        None => Err(ResolveError::Unreadable(String::from_str(body))),
    }
}

/// Reads a reply of the resolver into the direct address it names. The
/// body is decoded as JSON; everything after that follows
/// [`link_outcome`].
pub fn get_source_link(reply: &Reply) -> (r: Result<String, ResolveError>)
    ensures
        resolution_view(r) == link_outcome(reply@, parsed_json(reply_body(reply@))),
{
    match reply {
        Reply::Unreachable(reason) => Err(ResolveError::Unreachable(reason.clone())),
        Reply::Received { status, body } => {
            let decoded = parse_json(body.as_str());
            read_resolution(body.as_str(), decoded)
        },
    }
}

impl ResolveError {
    /// The error as a line of text.
    pub fn message(&self) -> (r: String)
        ensures
            r@ == resolve_error_text(self@),
    {
        match self {
            ResolveError::Unreachable(reason) => reason.clone(),
            ResolveError::Unreadable(body) => join("Failed to parse response: ", body.as_str()),
            ResolveError::Unresolved => String::from_str("Failed to resolve URL"),
        }
    }
}

/// The message that offers an address for copying.
pub open spec fn copyable(link: Seq<char>) -> Seq<char> {
    "单击下面的链接可直接复制：\n<code>"@ + link + "</code>"@
}

/// The message that offers an address for copying.
pub fn render_copyable(link: &str) -> (r: String)
    ensures
        r@ == copyable(link@),
{
    let mut text = String::from_str("单击下面的链接可直接复制：\n<code>");
    text.append(link);
    text.append("</code>");
    text
}

/// The message that shows what asking for a file's address came to.
pub open spec fn source_message(result: Result<Seq<char>, SourceErrorView>) -> Seq<char> {
    match result {
        Ok(url) => copyable(url),
        Err(e) => "获取下载链接失败: "@ + source_error_text(e),
    }
}

/// The message that shows what asking for a file's address came to.
pub fn render_source(result: &Result<String, SourceError>) -> (r: String)
    ensures
        r@ == source_message(
            match *result {
                Ok(url) => Ok(url@),
                Err(e) => Err(e@),
            },
        ),
{
    match result {
        Ok(url) => render_copyable(url.as_str()),
        Err(e) => {
            let inner = e.message();
            join("获取下载链接失败: ", inner.as_str())
        },
    }
}

/// What is shown in place of an address: the address, or the reason why
/// there is none.
pub open spec fn shown_link(link: Result<Seq<char>, ResolveErrorView>) -> Seq<char> {
    match link {
        Ok(l) => l,
        Err(e) => "解析链接失败: "@ + resolve_error_text(e),
    }
}

/// A message about a link, with the button that submits it for download.
#[derive(Debug, PartialEq)]
pub struct LinkMessage {
    pub text: String,
    pub button: Button,
}

/// The mathematical value of a [`LinkMessage`].
pub struct LinkMessageView {
    pub text: Seq<char>,
    pub button: ButtonView,
}

impl View for LinkMessage {
    type V = LinkMessageView;

    open spec fn view(&self) -> LinkMessageView {
        LinkMessageView { text: self.text@, button: self.button@ }
    }
}

/// The message that answers a link: what is shown for it, offered for
/// copying, and a button that submits the same for download.
pub open spec fn link_message(link: Result<Seq<char>, ResolveErrorView>) -> LinkMessageView {
    LinkMessageView {
        text: copyable(shown_link(link)),
        button: ButtonView {
            text: "提交云盘下载"@,
            data: encoded(CallbackView::RemoteDownload(shown_link(link))),
        },
    }
}

/// The message that answers a link.
pub fn render_link(link: Result<String, ResolveError>) -> (r: LinkMessage)
    ensures
        r@ == link_message(resolution_view(link)),
{
    let shown = match link {
        Ok(l) => l,
        Err(e) => {
            let inner = e.message();
            join("解析链接失败: ", inner.as_str())
        },
    };
    let text = render_copyable(shown.as_str());
    LinkMessage {
        text,
        button: Button {
            text: String::from_str("提交云盘下载"),
            data: encode(&Callback::RemoteDownload(shown)),
        },
    }
}

} // verus!
