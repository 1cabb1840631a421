use vstd::prelude::*;
use crate::table::{distinct_keys, table_map, find_key, keys_distinct, lemma_keys_unique_view, lemma_entry_in_map, lemma_absent_key, lemma_push_new_key};

verus! {

/// Numeric identifier of a Telegram chat.
pub type ChatID = i64;

/// Name of an IRC channel.
pub type IrcChannel = String;

/// Display title of a Telegram group.
pub type TelegramGroup = String;

/// Abstract view of string-keyed entries.
pub open spec fn name_pairs(s: Seq<(String, String)>) -> Seq<(Seq<char>, Seq<char>)> {
    s.map_values(|p: (String, String)| (p.0@, p.1@))
}

pub open spec fn id_pairs(s: Seq<(String, ChatID)>) -> Seq<(Seq<char>, ChatID)> {
    s.map_values(|p: (String, ChatID)| (p.0@, p.1))
}

/// Values of the entries are pairwise distinct.
pub open spec fn distinct_values(s: Seq<(Seq<char>, Seq<char>)>) -> bool {
    forall|i: int, j: int|
        0 <= i < s.len() && 0 <= j < s.len() && #[trigger] s[i].1 == #[trigger] s[j].1 ==> i == j
}

/// `inv` maps each value of `m` back to its key, and nothing else.
pub open spec fn is_inverse(m: Map<Seq<char>, Seq<char>>, inv: Map<Seq<char>, Seq<char>>) -> bool {
    &&& forall|a: Seq<char>| #[trigger]
        m.contains_key(a) ==> inv.contains_key(m[a]) && inv[m[a]] == a
    &&& forall|b: Seq<char>| #[trigger]
        inv.contains_key(b) ==> m.contains_key(inv[b]) && m[inv[b]] == b
}

/// The chat-id table after recording `(group, id)`, and whether it gained an entry.
pub open spec fn recorded(ids: Map<Seq<char>, ChatID>, group: Seq<char>, id: ChatID) -> (Map<
    Seq<char>,
    ChatID,
>, bool) {
    if ids.contains_key(group) {
        (ids, false)
    } else {
        (ids.insert(group, id), true)
    }
}

/// Lookup in a finite map, as an `Option`.
pub open spec fn map_get<V>(m: Map<Seq<char>, V>, k: Seq<char>) -> Option<V> {
    if m.contains_key(k) {
        Some(m[k])
    } else {
        None
    }
}

/// View of an optional string.
pub open spec fn opt_view(o: Option<String>) -> Option<Seq<char>> {
    match o {
        Some(x) => Some(x@),
        None => None,
    }
}

/// Shared routing and discovery state of the relay: the fixed room mapping in
/// both directions, the learned chat ids, and the queue of lines bound for IRC.
pub struct RelayState {
    /// IRC channel to Telegram group.
    tg_group: Vec<(IrcChannel, TelegramGroup)>,
    /// Telegram group to IRC channel.
    irc_channel: Vec<(TelegramGroup, IrcChannel)>,
    /// Telegram group title to chat id.
    chat_ids: Vec<(TelegramGroup, ChatID)>,
    /// Lines queued in the Telegram to IRC direction.
    irc_message_queue: Vec<String>,
}

impl RelayState {
    /// Channel of each mapped group.
    pub closed spec fn channels(&self) -> Map<Seq<char>, Seq<char>> {
        table_map(name_pairs(self.irc_channel@))
    }

    /// Group of each mapped channel.
    pub closed spec fn groups(&self) -> Map<Seq<char>, Seq<char>> {
        table_map(name_pairs(self.tg_group@))
    }

    /// Known chat id of each group.
    pub closed spec fn ids(&self) -> Map<Seq<char>, ChatID> {
        table_map(id_pairs(self.chat_ids@))
    }

    /// Number of stored chat-id entries.
    pub closed spec fn id_entry_count(&self) -> nat {
        self.chat_ids@.len()
    }

    pub closed spec fn queue(&self) -> Seq<String> {
        self.irc_message_queue@
    }

    pub closed spec fn wf(&self) -> bool {
        &&& distinct_keys(name_pairs(self.tg_group@))
        &&& distinct_keys(name_pairs(self.irc_channel@))
        &&& distinct_keys(id_pairs(self.chat_ids@))
        &&& is_inverse(self.channels(), self.groups())
    }
}

proof fn lemma_reversed_inverse(fwd: Seq<(String, String)>, rev: Seq<(String, String)>)
    requires
        distinct_keys(name_pairs(fwd)),
        distinct_keys(name_pairs(rev)),
        rev.len() == fwd.len(),
        forall|i: int| 0 <= i < fwd.len() ==> #[trigger] rev[i].0@ == fwd[i].1@ && rev[i].1@ == fwd[i].0@,
    ensures
        is_inverse(table_map(name_pairs(fwd)), table_map(name_pairs(rev))),
{
    let m = table_map(name_pairs(fwd));
    let inv = table_map(name_pairs(rev));
    assert forall|a: Seq<char>| #[trigger] m.contains_key(a) implies inv.contains_key(m[a]) && inv[m[a]] == a by {
        let i = choose|i: int| 0 <= i < name_pairs(fwd).len() && #[trigger] name_pairs(fwd)[i].0 == a;
        lemma_entry_in_map(name_pairs(fwd), i);
        lemma_entry_in_map(name_pairs(rev), i);
        assert(rev[i].0@ == fwd[i].1@);
    }
    assert forall|b: Seq<char>| #[trigger] inv.contains_key(b) implies m.contains_key(inv[b]) && m[inv[b]] == b by {
        let i = choose|i: int| 0 <= i < name_pairs(rev).len() && #[trigger] name_pairs(rev)[i].0 == b;
        lemma_entry_in_map(name_pairs(fwd), i);
        lemma_entry_in_map(name_pairs(rev), i);
        assert(rev[i].0@ == fwd[i].1@);
    }
}

/// The values of `fwd` are distinct exactly when the keys of its reversal are.
proof fn lemma_flipped_distinct(fwd: Seq<(String, String)>, rev: Seq<(String, String)>)
    requires
        rev.len() == fwd.len(),
        forall|i: int| 0 <= i < fwd.len() ==> #[trigger] rev[i].0@ == fwd[i].1@ && rev[i].1@ == fwd[i].0@,
    ensures
        distinct_keys(name_pairs(rev)) == distinct_values(name_pairs(fwd)),
{
    let (f, r) = (name_pairs(fwd), name_pairs(rev));
    assert forall|i: int| 0 <= i < f.len() implies #[trigger] r[i].0 == f[i].1 by {
        assert(rev[i].0@ == fwd[i].1@);
    }
    if distinct_keys(r) {
        assert forall|a: int, b: int| 0 <= a < f.len() && 0 <= b < f.len() && #[trigger] f[a].1
            == #[trigger] f[b].1 implies a == b by {
            assert(r[a].0 == r[b].0);
        }
    } else {
        let (a, b) = choose|a: int, b: int|
            0 <= a < r.len() && 0 <= b < r.len() && #[trigger] r[a].0 == #[trigger] r[b].0 && a != b;
        assert(f[a].1 == f[b].1);
    }
}

impl RelayState {
    /// Builds the state from the (group, channel) room mapping and the chat ids
    /// known so far. `None` when the mapping is not one to one, or a group has
    /// two chat ids.
    pub fn new(irc_channel: Vec<(TelegramGroup, IrcChannel)>, chat_ids: Vec<(TelegramGroup, ChatID)>) -> (r: Option<RelayState>)
        ensures
            r is Some <==> distinct_keys(name_pairs(irc_channel@))
                && distinct_values(name_pairs(irc_channel@))
                && distinct_keys(id_pairs(chat_ids@)),
            r matches Some(st) ==> {
                &&& st.wf()
                &&& st.channels() == table_map(name_pairs(irc_channel@))
                &&& st.ids() == table_map(id_pairs(chat_ids@))
                &&& st.queue() == Seq::<String>::empty()
            },
    {
        let mut tg_group: Vec<(IrcChannel, TelegramGroup)> = Vec::new();
        let mut i: usize = 0;
        while i < irc_channel.len()
            invariant
                i <= irc_channel@.len(),
                tg_group@.len() == i,
                forall|j: int| 0 <= j < i ==> #[trigger] tg_group@[j].0@ == irc_channel@[j].1@
                    && tg_group@[j].1@ == irc_channel@[j].0@,
            decreases irc_channel@.len() - i,
        {
            let channel = irc_channel[i].1.clone();
            let group = irc_channel[i].0.clone();
            tg_group.push((channel, group));
            i = i + 1;
        }
        let ok_groups = keys_distinct(&irc_channel);
        let ok_channels = keys_distinct(&tg_group);
        let ok_ids = keys_distinct(&chat_ids);
        proof {
            lemma_keys_unique_view(irc_channel@, name_pairs(irc_channel@));
            lemma_keys_unique_view(tg_group@, name_pairs(tg_group@));
            lemma_keys_unique_view(chat_ids@, id_pairs(chat_ids@));
            lemma_flipped_distinct(irc_channel@, tg_group@);
        }
        if !(ok_groups && ok_channels && ok_ids) {
            return None;
        }
        proof {
            lemma_reversed_inverse(irc_channel@, tg_group@);
        }
        Some(RelayState { tg_group, irc_channel, chat_ids, irc_message_queue: Vec::new() })
    }
}

impl RelayState {
    /// Telegram group mapped to an IRC channel.
    pub fn tg_group_of(&self, channel: &String) -> (r: Option<TelegramGroup>)
        requires
            self.wf(),
        ensures
            opt_view(r) == map_get(self.groups(), channel@),
    {
        match find_key(&self.tg_group, channel) {
            Some(i) => {
                proof {
                    lemma_entry_in_map(name_pairs(self.tg_group@), i as int);
                }
                Some(self.tg_group[i].1.clone())
            },
            None => {
                proof {
                    assert forall|j: int| 0 <= j < name_pairs(self.tg_group@).len() implies
                        #[trigger] name_pairs(self.tg_group@)[j].0 != channel@ by {
                        assert(self.tg_group@[j].0@ != channel@);
                    }
                    lemma_absent_key(name_pairs(self.tg_group@), channel@);
                }
                None
            },
        }
    }

    /// IRC channel mapped to a Telegram group.
    pub fn irc_channel_of(&self, group: &String) -> (r: Option<IrcChannel>)
        requires
            self.wf(),
        ensures
            opt_view(r) == map_get(self.channels(), group@),
    {
        match find_key(&self.irc_channel, group) {
            Some(i) => {
                proof {
                    lemma_entry_in_map(name_pairs(self.irc_channel@), i as int);
                }
                Some(self.irc_channel[i].1.clone())
            },
            None => {
                proof {
                    assert forall|j: int| 0 <= j < name_pairs(self.irc_channel@).len() implies
                        #[trigger] name_pairs(self.irc_channel@)[j].0 != group@ by {
                        assert(self.irc_channel@[j].0@ != group@);
                    }
                    lemma_absent_key(name_pairs(self.irc_channel@), group@);
                }
                None
            },
        }
    }

    /// Chat id learned for a Telegram group, if any.
    pub fn lookup_chat_id(&self, group: &String) -> (r: Option<ChatID>)
        requires
            self.wf(),
        ensures
            r == map_get(self.ids(), group@),
    {
        match find_key(&self.chat_ids, group) {
            Some(i) => {
                proof {
                    lemma_entry_in_map(id_pairs(self.chat_ids@), i as int);
                }
                Some(self.chat_ids[i].1)
            },
            None => {
                proof {
                    assert forall|j: int| 0 <= j < id_pairs(self.chat_ids@).len() implies
                        #[trigger] id_pairs(self.chat_ids@)[j].0 != group@ by {
                        assert(self.chat_ids@[j].0@ != group@);
                    }
                    lemma_absent_key(id_pairs(self.chat_ids@), group@);
                }
                None
            },
        }
    }

    /// Records the chat id of a group seen for the first time. Returns whether
    /// the table gained an entry, that is, whether it must be saved again; a
    /// group already known keeps its id.
    pub fn record_chat_id(&mut self, group: &String, id: ChatID) -> (r: bool)
        requires
            old(self).wf(),
        ensures
            final(self).wf(),
            (final(self).ids(), r) == recorded(old(self).ids(), group@, id),
            final(self).id_entry_count() == old(self).id_entry_count() + if r { 1nat } else { 0nat },
            final(self).channels() == old(self).channels(),
            final(self).groups() == old(self).groups(),
            final(self).queue() == old(self).queue(),
    {
        match self.lookup_chat_id(group) {
            Some(_) => false,
            None => {
                proof {
                    lemma_push_new_key(id_pairs(self.chat_ids@), group@, id);
                }
                self.chat_ids.push((group.clone(), id));
                proof {
                    assert(id_pairs(self.chat_ids@) =~= id_pairs(old(self).chat_ids@).push((group@, id)));
                }
                true
            },
        }
    }

    /// The chat-id table, one entry per group, as it is to be saved.
    pub fn chat_id_entries(&self) -> (r: &Vec<(TelegramGroup, ChatID)>)
        requires
            self.wf(),
        ensures
            distinct_keys(id_pairs(r@)),
            table_map(id_pairs(r@)) == self.ids(),
            r@.len() == self.id_entry_count(),
    {
        &self.chat_ids
    }

    /// Queues a line for the IRC side.
    pub fn send_message_irc(&mut self, msg: String)
        ensures
            final(self).queue() == old(self).queue().push(msg),
            final(self).channels() == old(self).channels(),
            final(self).groups() == old(self).groups(),
            final(self).ids() == old(self).ids(),
            final(self).id_entry_count() == old(self).id_entry_count(),
            old(self).wf() ==> final(self).wf(),
    {
        self.irc_message_queue.push(msg);
    }

    /// Lines queued for the IRC side, oldest first.
    pub fn irc_queue(&self) -> (r: &Vec<String>)
        ensures
            r@ == self.queue(),
    {
        &self.irc_message_queue
    }
}

/// Each configured pair resolves both ways: a channel resolves to a group
/// exactly when that group resolves back to the channel, and a room that no
/// pair names resolves to nothing.
pub proof fn lemma_mapping_bijective(st: RelayState, group: Seq<char>, channel: Seq<char>)
    requires
        st.wf(),
    ensures
        map_get(st.groups(), channel) == Some(group) <==> map_get(st.channels(), group) == Some(
            channel,
        ),
        map_get(st.groups(), channel) is None <==> forall|g: Seq<char>|
            !(#[trigger] st.channels().contains_key(g) && st.channels()[g] == channel),
        map_get(st.channels(), group) is None <==> forall|c: Seq<char>|
            !(#[trigger] st.groups().contains_key(c) && st.groups()[c] == group),
{
    if st.groups().contains_key(channel) {
        let g = st.groups()[channel];
        assert(st.channels().contains_key(g) && st.channels()[g] == channel);
    }
    if st.channels().contains_key(group) {
        let c = st.channels()[group];
        assert(st.groups().contains_key(c) && st.groups()[c] == group);
    }
}

/// Recording the same (group, id) twice is the same as recording it once: the
/// second call adds nothing and asks for no save, and the group has one entry.
pub proof fn lemma_record_idempotent(ids: Map<Seq<char>, ChatID>, group: Seq<char>, id: ChatID)
    ensures
        recorded(recorded(ids, group, id).0, group, id) == (recorded(ids, group, id).0, false),
        recorded(ids, group, id).0.contains_key(group),
        !(recorded(ids, group, id).1 && recorded(recorded(ids, group, id).0, group, id).1),
{
}

/// A group recorded for the first time is found by the very next lookup, with
/// the id it was recorded with.
pub proof fn lemma_recorded_visible(ids: Map<Seq<char>, ChatID>, group: Seq<char>, id: ChatID)
    requires
        !ids.contains_key(group),
    ensures
        map_get(recorded(ids, group, id).0, group) == Some(id),
        recorded(ids, group, id).1,
{
}

} // verus!
