use vstd::prelude::*;
use vstd::string::StringExecFns;
use crate::routing::opt_view;

verus! {

/// A Telegram user as the relay sees it.
pub struct TgUser {
    pub id: i64,
    pub first_name: String,
    pub last_name: Option<String>,
    pub username: Option<String>,
}

/// A file attached to a Telegram message.
pub struct FileRef {
    pub file_id: String,
    pub file_size: Option<i64>,
}

/// What a Telegram message carries.
pub enum MessageContent {
    Text(String),
    /// A sticker, with its emoji when it has one.
    Sticker(Option<String>),
    /// A photo in each of its sizes, smallest first.
    Photo(Vec<FileRef>),
    Document(FileRef),
    Audio(FileRef),
    Video(FileRef),
    Voice(FileRef),
    Other,
}

/// The chat a Telegram message was posted in.
pub enum TgChat {
    Group { id: i64, title: String },
    Other,
}

/// Name shown for a Telegram user: the first name, or first and last name.
pub open spec fn display_name(u: TgUser) -> Seq<char> {
    match u.last_name {
        Some(last) => u.first_name@ + " "@ + last@,
        None => u.first_name@,
    }
}

/// Directory key of an uploading user: the handle, or `anonymous`.
pub open spec fn user_key(u: TgUser) -> Seq<char> {
    match u.username {
        Some(name) => name@,
        None => "anonymous"@,
    }
}

pub open spec fn same_user(a: TgUser, b: TgUser) -> bool {
    &&& a.id == b.id
    &&& a.first_name@ == b.first_name@
    &&& opt_view(a.last_name) == opt_view(b.last_name)
    &&& opt_view(a.username) == opt_view(b.username)
}

/// The file that can be relayed from a message and its declared size: the
/// largest size of a photo, or the attached document, audio, video or voice.
pub open spec fn media_of(c: MessageContent) -> Option<(Seq<char>, Option<i64>)> {
    match c {
        MessageContent::Photo(sizes) => if sizes@.len() > 0 {
            Some((sizes@.last().file_id@, sizes@.last().file_size))
        } else {
            None
        },
        MessageContent::Document(f) => Some((f.file_id@, f.file_size)),
        MessageContent::Audio(f) => Some((f.file_id@, f.file_size)),
        MessageContent::Video(f) => Some((f.file_id@, f.file_size)),
        MessageContent::Voice(f) => Some((f.file_id@, f.file_size)),
        _ => None,
    }
}

fn clone_opt(o: &Option<String>) -> (r: Option<String>)
    ensures
        opt_view(r) == opt_view(*o),
{
    match o {
        Some(s) => Some(s.clone()),
        None => None,
    }
}

fn opt_eq(a: &Option<String>, b: &Option<String>) -> (r: bool)
    ensures
        r == (opt_view(*a) == opt_view(*b)),
{
    match (a, b) {
        (Some(x), Some(y)) => *x == *y,
        (None, None) => true,
        _ => false,
    }
}

impl TgUser {
    /// Whether both values describe the same user, field by field.
    pub fn same_as(&self, other: &TgUser) -> (r: bool)
        ensures
            r == same_user(*self, *other),
    {
        self.id == other.id && self.first_name == other.first_name && opt_eq(
            &self.last_name,
            &other.last_name,
        ) && opt_eq(&self.username, &other.username)
    }
}

/// Name shown for a Telegram user on the IRC side.
pub fn format_tg_nick(user: &TgUser) -> (r: String)
    ensures
        r@ == display_name(*user),
{
    match &user.last_name {
        None => user.first_name.clone(),
        Some(last) => {
            let mut r = user.first_name.clone();
            r.append(" ");
            r.append(last.as_str());
            r
        },
    }
}

/// Directory key under which a user's uploads are kept.
pub fn get_username(user: &TgUser) -> (r: String)
    ensures
        r@ == user_key(*user),
{
    match &user.username {
        Some(name) => name.clone(),
        None => String::from_str("anonymous"),
    }
}

/// Identifier and declared size of the relayable file of a message.
pub fn file_id_size(msg: &MessageContent) -> (r: Option<(String, Option<i64>)>)
    ensures
        match r {
            Some((id, size)) => media_of(*msg) == Some((id@, size)),
            None => media_of(*msg) is None,
        },
{
    match msg {
        MessageContent::Photo(sizes) => {
            if sizes.len() == 0 {
                None
            } else {
                let largest = &sizes[sizes.len() - 1];
                Some((largest.file_id.clone(), largest.file_size))
            }
        },
        MessageContent::Document(f) => Some((f.file_id.clone(), f.file_size)),
        MessageContent::Audio(f) => Some((f.file_id.clone(), f.file_size)),
        MessageContent::Video(f) => Some((f.file_id.clone(), f.file_size)),
        MessageContent::Voice(f) => Some((f.file_id.clone(), f.file_size)),
        _ => None,
    }
}

/// A file to relay, with its declared size when the message gives one.
pub struct TGFile {
    file_id: String,
    file_size: Option<i64>,
}

impl TGFile {
    pub closed spec fn id_view(&self) -> Seq<char> {
        self.file_id@
    }

    pub closed spec fn size_view(&self) -> Option<i64> {
        self.file_size
    }

    /// The relayable file of a message, if it carries one.
    pub fn from_message(msg: &MessageContent) -> (r: Option<TGFile>)
        ensures
            match r {
                Some(f) => media_of(*msg) == Some((f.id_view(), f.size_view())),
                None => media_of(*msg) is None,
            },
    {
        match file_id_size(msg) {
            Some((file_id, file_size)) => Some(TGFile { file_id, file_size }),
            None => None,
        }
    }

    pub fn file_id(&self) -> (r: &str)
        ensures
            r@ == self.id_view(),
    {
        self.file_id.as_str()
    }

    pub fn file_size(&self) -> (r: Option<i64>)
        ensures
            r == self.size_view(),
    {
        self.file_size
    }
}

} // verus!
