use vstd::prelude::*;
use vstd::string::StringExecFns;
use crate::routing::{RelayState, ChatID, IrcChannel, TelegramGroup, opt_view, recorded};
use crate::messages::{TgUser, TgChat, MessageContent, TGFile, display_name, same_user, media_of, format_tg_nick};

verus! {

/// `k` ends a leading `<name>` of `t`, with a non-empty name free of `>`.
pub open spec fn closes_nick(t: Seq<char>, k: int) -> bool {
    &&& 2 <= k < t.len()
    &&& t[0] == '<'
    &&& t[k] == '>'
    &&& forall|j: int| 1 <= j < k ==> t[j] != '>'
}

/// The name in a leading `<name>` of a line, as written by this relay.
pub open spec fn leading_nick(t: Seq<char>) -> Option<Seq<char>> {
    if exists|k: int| closes_nick(t, k) {
        Some(t.subrange(1, choose|k: int| closes_nick(t, k)))
    } else {
        None
    }
}

/// Relies on regex's `Regex::captures` with the pattern `^<([^>]+)>`: it
/// matches at the start only, the class takes every character but `>`, so
/// the first group is the text between a leading `<` and the first `>`
/// after it, when that text is not empty.
#[verifier::external_body]
fn capture_leading_nick(text: &str) -> (r: Option<String>)
    ensures
        opt_view(r) == leading_nick(text@),
{
    let re = match regex::Regex::new("^<([^>]+)>") {
        Ok(re) => re,
        Err(_) => return None,
    };
    match re.captures(text) {
        Some(caps) => match caps.get(1) {
            Some(m) => Some(m.as_str().to_string()),
            None => None,
        },
        None => None,
    }
}

/// The message that a Telegram message answers.
pub struct ReplyInfo {
    pub from: TgUser,
    pub content: MessageContent,
}

/// One line of a relayed message: `<nick> body`.
pub open spec fn relay_line(nick: Seq<char>, body: Seq<char>) -> Seq<char> {
    "<"@ + nick + "> "@ + body
}

/// Text that a message kind contributes to the relayed body.
pub open spec fn content_text(c: MessageContent) -> Seq<char> {
    match c {
        MessageContent::Text(t) => t@,
        MessageContent::Sticker(Some(emoji)) => "(Sticker) "@ + emoji@,
        MessageContent::Sticker(None) => "(Sticker)"@,
        _ => Seq::empty(),
    }
}

pub open spec fn media_text(url: Option<String>) -> Seq<char> {
    match url {
        Some(u) => u@,
        None => Seq::empty(),
    }
}

/// Name credited for a reply: for a reply to one of the relay's own lines,
/// the nick at its start; for a reply to someone else, that user's name.
pub open spec fn attribution(reply: Option<ReplyInfo>, me: Option<TgUser>) -> Option<Seq<char>> {
    match reply {
        None => None,
        Some(r) => if me matches Some(m) && same_user(m, r.from) {
            match r.content {
                MessageContent::Text(t) => leading_nick(t@),
                _ => None,
            }
        } else {
            Some(display_name(r.from))
        },
    }
}

/// Body relayed for a Telegram message: the content's text followed by the
/// media link, after the credited name and `: ` when there is one.
pub open spec fn tg_body(
    content: MessageContent,
    media_url: Option<String>,
    reply: Option<ReplyInfo>,
    me: Option<TgUser>,
) -> Seq<char> {
    let base = content_text(content) + media_text(media_url);
    match attribution(reply, me) {
        Some(name) => name + ": "@ + base,
        None => base,
    }
}

/// Builds `<nick> body`.
pub fn format_relay_line(nick: &str, body: &str) -> (r: String)
    ensures
        r@ == relay_line(nick@, body@),
{
    let mut r = String::from_str("<");
    r.append(nick);
    r.append("> ");
    r.append(body);
    r
}

/// Text that a message kind contributes to the relayed body.
pub fn content_body(content: &MessageContent) -> (r: String)
    ensures
        r@ == content_text(*content),
{
    match content {
        MessageContent::Text(t) => t.clone(),
        MessageContent::Sticker(Some(emoji)) => {
            let mut r = String::from_str("(Sticker) ");
            r.append(emoji.as_str());
            r
        },
        MessageContent::Sticker(None) => String::from_str("(Sticker)"),
        _ => String::new(),
    }
}

/// Name credited for a reply, given the relay's own identity when known.
pub fn reply_attribution(reply: &Option<ReplyInfo>, me: &Option<TgUser>) -> (r: Option<String>)
    ensures
        opt_view(r) == attribution(*reply, *me),
{
    match reply {
        None => None,
        Some(rep) => {
            let from_me = match me {
                Some(m) => m.same_as(&rep.from),
                None => false,
            };
            if from_me {
                match &rep.content {
                    MessageContent::Text(t) => capture_leading_nick(t.as_str()),
                    _ => None,
                }
            } else {
                Some(format_tg_nick(&rep.from))
            }
        },
    }
}

/// The line sent to IRC for a Telegram message from `sender`, with the link
/// to its relayed media, if any, and the message it answers, if any.
pub fn compose_tg_line(
    sender: &TgUser,
    content: &MessageContent,
    media_url: Option<String>,
    reply: &Option<ReplyInfo>,
    me: &Option<TgUser>,
) -> (r: String)
    ensures
        r@ == relay_line(display_name(*sender), tg_body(*content, media_url, *reply, *me)),
{
    let mut base = content_body(content);
    match &media_url {
        Some(u) => base.append(u.as_str()),
        None => {},
    }
    let body = match reply_attribution(reply, me) {
        Some(name) => {
            let mut b = name;
            b.append(": ");
            b.append(base.as_str());
            b
        },
        None => base,
    };
    let nick = format_tg_nick(sender);
    format_relay_line(nick.as_str(), body.as_str())
}

/// What to do with a line read from an IRC channel.
pub enum IrcRoute {
    /// Send `text` to the Telegram chat `chat_id`.
    Relay { chat_id: ChatID, text: String },
    /// The channel's group has not been seen yet, so its chat id is unknown.
    UnknownChatId { group: TelegramGroup },
    /// The channel is not mapped to any group.
    Unmapped,
    /// The line has no sender nick.
    NoSender,
}

/// Decides the fate of the line `body`, said by `sender` in `channel`.
pub fn route_irc_message(state: &RelayState, channel: &String, sender: &Option<String>, body: &str) -> (r: IrcRoute)
    requires
        state.wf(),
    ensures
        match r {
            IrcRoute::NoSender => sender is None,
            IrcRoute::Unmapped => sender is Some && !state.groups().contains_key(channel@),
            IrcRoute::UnknownChatId { group } => {
                &&& sender is Some
                &&& state.groups().contains_key(channel@)
                &&& group@ == state.groups()[channel@]
                &&& !state.ids().contains_key(group@)
            },
            IrcRoute::Relay { chat_id, text } => {
                &&& sender matches Some(nick)
                &&& state.groups().contains_key(channel@)
                &&& state.ids().contains_key(state.groups()[channel@])
                &&& chat_id == state.ids()[state.groups()[channel@]]
                &&& text@ == relay_line(nick@, body@)
            },
        },
{
    let nick = match sender {
        Some(n) => n,
        None => return IrcRoute::NoSender,
    };
    let group = match state.tg_group_of(channel) {
        Some(g) => g,
        None => return IrcRoute::Unmapped,
    };
    match state.lookup_chat_id(&group) {
        Some(chat_id) => IrcRoute::Relay { chat_id, text: format_relay_line(nick.as_str(), body) },
        None => IrcRoute::UnknownChatId { group },
    }
}

/// Whether attachments are relayed: only when switched on and both a public
/// base URL and a download directory are configured.
pub fn media_relay_enabled(relay_media: Option<bool>, has_base_url: bool, has_download_dir: bool) -> (r: bool)
    ensures
        r == (relay_media == Some(true) && has_base_url && has_download_dir),
{
    match relay_media {
        Some(on) => on && has_base_url && has_download_dir,
        None => false,
    }
}

/// What to do with a message read from Telegram, once its group is recorded.
pub enum TgRoute {
    /// Not posted in a group.
    NotGroup,
    /// The group is not mapped to any channel.
    Unmapped { title: TelegramGroup, discovered: bool },
    /// Relay to `channel`, after fetching `media` if there is one.
    Relay { channel: IrcChannel, media: Option<TGFile>, discovered: bool },
}

/// Records the chat id of a group seen for the first time and decides where
/// a message posted in `chat` goes. `discovered` says that the chat-id table
/// gained an entry and must be saved.
pub fn accept_tg_message(state: &mut RelayState, chat: &TgChat, content: &MessageContent, media_enabled: bool) -> (r: TgRoute)
    requires
        old(state).wf(),
    ensures
        final(state).wf(),
        final(state).channels() == old(state).channels(),
        final(state).groups() == old(state).groups(),
        final(state).queue() == old(state).queue(),
        match chat {
            TgChat::Other => r is NotGroup && final(state).ids() == old(state).ids()
                && final(state).id_entry_count() == old(state).id_entry_count(),
            TgChat::Group { id, title } => {
                let (ids, added) = recorded(old(state).ids(), title@, *id);
                &&& final(state).ids() == ids
                &&& final(state).id_entry_count() == old(state).id_entry_count() + if added { 1nat } else { 0nat }
                &&& match r {
                    TgRoute::NotGroup => false,
                    TgRoute::Unmapped { title: t, discovered } => {
                        &&& !old(state).channels().contains_key(title@)
                        &&& t@ == title@
                        &&& discovered == added
                    },
                    TgRoute::Relay { channel, media, discovered } => {
                        &&& old(state).channels().contains_key(title@)
                        &&& channel@ == old(state).channels()[title@]
                        &&& discovered == added
                        &&& match media {
                            Some(f) => media_enabled && media_of(*content) == Some((f.id_view(), f.size_view())),
                            None => !(media_enabled && media_of(*content) is Some),
                        }
                    },
                }
            },
        },
{
    match chat {
        TgChat::Other => TgRoute::NotGroup,
        TgChat::Group { id, title } => {
            let discovered = state.record_chat_id(title, *id);
            match state.irc_channel_of(title) {
                None => TgRoute::Unmapped { title: title.clone(), discovered },
                Some(channel) => {
                    let media = if media_enabled {
                        TGFile::from_message(content)
                    } else {
                        None
                    };
                    TgRoute::Relay { channel, media, discovered }
                },
            }
        },
    }
}

} // verus!
