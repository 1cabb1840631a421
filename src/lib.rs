//! Verified core of a bridge that relays chat between IRC channels and
//! Telegram groups: routing and discovery state, message composition,
//! reply attribution and media naming.

pub mod table;
pub mod routing;
pub mod messages;
pub mod media;
pub mod relay;

pub use routing::{RelayState, ChatID, IrcChannel, TelegramGroup};
pub use messages::{
    TgUser, FileRef, MessageContent, TgChat, TGFile, format_tg_nick, get_username, file_id_size,
};
pub use media::{MediaTarget, generate_name, replace_filename, plan_download, after_last_char, last_index, NAME_LEN};
pub use relay::{
    ReplyInfo, IrcRoute, TgRoute, route_irc_message, accept_tg_message, compose_tg_line,
    reply_attribution, content_body, format_relay_line, media_relay_enabled,
};
