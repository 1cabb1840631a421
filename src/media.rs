use vstd::prelude::*;
use vstd::string::{StrSliceExecFns, StringExecFns};
use rand::distributions::DistString;
use crate::messages::{TgUser, user_key, get_username};

verus! {

/// Length of the random stem given to a relayed file.
pub const NAME_LEN: usize = 6;

pub open spec fn is_ascii_alphanumeric(c: char) -> bool {
    ('A' <= c && c <= 'Z') || ('a' <= c && c <= 'z') || ('0' <= c && c <= '9')
}

/// `k` is the position of the last `c` in `s`.
pub open spec fn is_last(s: Seq<char>, c: char, k: int) -> bool {
    &&& 0 <= k < s.len()
    &&& s[k] == c
    &&& forall|j: int| k < j < s.len() ==> s[j] != c
}

/// What follows the last `c` in `s`, or all of `s` when it holds no `c`.
pub open spec fn after_last(s: Seq<char>, c: char) -> Seq<char> {
    if exists|k: int| is_last(s, c, k) {
        s.subrange((choose|k: int| is_last(s, c, k)) + 1, s.len() as int)
    } else {
        s
    }
}

/// Name of a stored file: the stem, followed by the extension of the source
/// name (what follows its last `.`) when the source name has one.
pub open spec fn renamed(filename: Seq<char>, stem: Seq<char>) -> Seq<char> {
    if exists|k: int| 0 <= k < filename.len() && filename[k] == '.' {
        stem + "."@ + after_last(filename, '.')
    } else {
        stem
    }
}

proof fn lemma_last_unique(s: Seq<char>, c: char, k: int)
    requires
        is_last(s, c, k),
    ensures
        (choose|k2: int| is_last(s, c, k2)) == k,
{
    let k2 = choose|k2: int| is_last(s, c, k2);
    if k2 < k {
        assert(s[k] == c);
    } else if k < k2 {
        assert(s[k2] == c);
    }
}

/// Position of the last `c` in `s`.
pub fn last_index(s: &str, c: char) -> (r: Option<usize>)
    ensures
        match r {
            Some(k) => is_last(s@, c, k as int),
            None => forall|j: int| 0 <= j < s@.len() ==> s@[j] != c,
        },
{
    let n = s.unicode_len();
    let mut i: usize = n;
    while i > 0
        invariant
            n == s@.len(),
            i <= n,
            forall|j: int| i <= j < n ==> s@[j] != c,
        decreases i,
    {
        if s.get_char(i - 1) == c {
            return Some(i - 1);
        }
        i = i - 1;
    }
    None
}

/// What follows the last `c` in `s`, or all of `s` when it holds no `c`.
pub fn after_last_char(s: &str, c: char) -> (r: String)
    ensures
        r@ == after_last(s@, c),
{
    match last_index(s, c) {
        Some(k) => {
            proof {
                lemma_last_unique(s@, c, k as int);
            }
            let n = s.unicode_len();
            String::from_str(s.substring_char(k + 1, n))
        },
        None => {
            assert(!exists|k: int| is_last(s@, c, k));
            String::from_str(s)
        },
    }
}

/// Names a file `name`, keeping the extension of `filename` if it has one.
pub fn replace_filename(filename: &str, name: &str) -> (r: String)
    ensures
        r@ == renamed(filename@, name@),
{
    match last_index(filename, '.') {
        Some(k) => {
            let ext = after_last_char(filename, '.');
            let mut r = String::from_str(name);
            r.append(".");
            r.append(ext.as_str());
            r
        },
        None => String::from_str(name),
    }
}

/// Relies on rand's `Alphanumeric::sample_string` with the thread-local
/// generator: `len` characters, each drawn from `A-Z`, `a-z` and `0-9`.
#[verifier::external_body]
fn sample_alphanumeric(len: usize) -> (r: String)
    ensures
        r@.len() == len,
        forall|i: int| 0 <= i < r@.len() ==> is_ascii_alphanumeric(#[trigger] r@[i]),
{
    rand::distributions::Alphanumeric.sample_string(&mut rand::thread_rng(), len)
}

/// A fresh random stem for a relayed file.
pub fn generate_name() -> (r: String)
    ensures
        r@.len() == NAME_LEN,
        forall|i: int| 0 <= i < r@.len() ==> is_ascii_alphanumeric(#[trigger] r@[i]),
{
    sample_alphanumeric(NAME_LEN)
}

/// Where a relayed file goes: a directory per uploader, and the file's name
/// inside it.
pub struct MediaTarget {
    pub user_dir: String,
    pub file_name: String,
}

/// Places the file at `remote_path`, uploaded by `user`, under the stem
/// `stem`: the directory is the uploader's key, the name is the stem with the
/// extension of the last segment of the remote path.
pub fn plan_download(user: &TgUser, remote_path: &str, stem: &str) -> (r: MediaTarget)
    ensures
        r.user_dir@ == user_key(*user),
        r.file_name@ == renamed(after_last(remote_path@, '/'), stem@),
{
    let source_name = after_last_char(remote_path, '/');
    MediaTarget {
        user_dir: get_username(user),
        file_name: replace_filename(source_name.as_str(), stem),
    }
}

} // verus!
