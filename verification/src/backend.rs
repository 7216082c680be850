//! The commands that the bucket operations send to the key-value backend, the
//! replies it hands back, and the shapes of the keys they are sent under.
//!
//! Nothing here talks to a backend. A command is a value; whoever drives an
//! operation performs it and returns the reply.

use vstd::prelude::*;
use vstd::string::*;

verus! {

/// Field of a bucket record that holds the content type.
pub const HASH_KF_MIME: &'static str = "mime";

/// Field of a bucket record that holds the payload.
pub const HASH_KF_DATA: &'static str = "data";

/// Field of a bucket record that holds the optional public key.
pub const HASH_KF_RSA: &'static str = "rsa";

/// Ordering weight under which every alias enters an alias set.
pub const SLANG_SCORE: isize = 0;

/// A status reported by a command that writes.
#[derive(Debug, Clone, PartialEq, Eq)]
pub enum Status {
    Int(isize),
    String(String),
}

/// What a command that succeeded hands back.
#[derive(Debug, Clone, PartialEq, Eq)]
pub enum RedisRtn {
    Payload(String),
    Status(Status),
    Payloads(Vec<String>),
}

/// The backend's answer to one command.
#[derive(Debug, Clone, PartialEq, Eq)]
pub enum Reply {
    /// The command could not be carried out.
    Failed,
    /// The command was carried out and found nothing to return.
    Nil,
    /// The command was carried out and returned a value.
    Value(RedisRtn),
}

/// One command to the backend.
#[derive(Debug, Clone, PartialEq, Eq)]
pub enum Command {
    Get { key: String },
    Put { key: String, value: String },
    Del { key: String },
    HashGet { key: String, field: String },
    HashPut { key: String, field: String, value: String },
    HashDel { key: String, field: String },
    SortedAdd { key: String, member: String, score: isize },
    SortedRemove { key: String, member: String },
    SortedRange { key: String },
}

/// Mathematical form of [`Status`].
pub ghost enum StatusView {
    Int(int),
    String(Seq<char>),
}

/// Mathematical form of [`RedisRtn`].
pub ghost enum RedisRtnView {
    Payload(Seq<char>),
    Status(StatusView),
    Payloads(Seq<Seq<char>>),
}

/// Mathematical form of [`Reply`].
pub ghost enum ReplyView {
    Failed,
    Nil,
    Value(RedisRtnView),
}

/// Mathematical form of [`Command`].
pub ghost enum CommandView {
    Get { key: Seq<char> },
    Put { key: Seq<char>, value: Seq<char> },
    Del { key: Seq<char> },
    HashGet { key: Seq<char>, field: Seq<char> },
    HashPut { key: Seq<char>, field: Seq<char>, value: Seq<char> },
    HashDel { key: Seq<char>, field: Seq<char> },
    SortedAdd { key: Seq<char>, member: Seq<char>, score: int },
    SortedRemove { key: Seq<char>, member: Seq<char> },
    SortedRange { key: Seq<char> },
}

impl View for Status {
    type V = StatusView;

    open spec fn view(&self) -> StatusView {
        match self {
            Status::Int(n) => StatusView::Int(*n as int),
            Status::String(s) => StatusView::String(s@),
        }
    }
}

impl View for RedisRtn {
    type V = RedisRtnView;

    open spec fn view(&self) -> RedisRtnView {
        match self {
            RedisRtn::Payload(s) => RedisRtnView::Payload(s@),
            RedisRtn::Status(s) => RedisRtnView::Status(s@),
            RedisRtn::Payloads(v) => RedisRtnView::Payloads(v.deep_view()),
        }
    }
}

impl View for Reply {
    type V = ReplyView;

    open spec fn view(&self) -> ReplyView {
        match self {
            Reply::Failed => ReplyView::Failed,
            Reply::Nil => ReplyView::Nil,
            Reply::Value(v) => ReplyView::Value(v@),
        }
    }
}

impl View for Command {
    type V = CommandView;

    open spec fn view(&self) -> CommandView {
        match self {
            Command::Get { key } => CommandView::Get { key: key@ },
            Command::Put { key, value } => CommandView::Put { key: key@, value: value@ },
            Command::Del { key } => CommandView::Del { key: key@ },
            Command::HashGet { key, field } => CommandView::HashGet { key: key@, field: field@ },
            Command::HashPut { key, field, value } => CommandView::HashPut {
                key: key@,
                field: field@,
                value: value@,
            },
            Command::HashDel { key, field } => CommandView::HashDel { key: key@, field: field@ },
            Command::SortedAdd { key, member, score } => CommandView::SortedAdd {
                key: key@,
                member: member@,
                score: *score as int,
            },
            Command::SortedRemove { key, member } => CommandView::SortedRemove {
                key: key@,
                member: member@,
            },
            Command::SortedRange { key } => CommandView::SortedRange { key: key@ },
        }
    }
}

impl ReplyView {
    /// The text that a reply carries; the empty text where it carries none.
    pub open spec fn text(self) -> Seq<char> {
        match self {
            ReplyView::Value(RedisRtnView::Payload(text)) => text,
            _ => Seq::empty(),
        }
    }

    /// The text that a reply carries, if it carries one.
    pub open spec fn maybe_text(self) -> Option<Seq<char>> {
        match self {
            ReplyView::Value(RedisRtnView::Payload(text)) => Some(text),
            _ => None,
        }
    }

    /// The list of texts that a reply carries; the empty list where it
    /// carries none.
    pub open spec fn texts(self) -> Seq<Seq<char>> {
        match self {
            ReplyView::Value(RedisRtnView::Payloads(texts)) => texts,
            _ => Seq::empty(),
        }
    }
}

impl Reply {
    /// The reply of a command that reads one text: the text, or nothing.
    pub fn from_text(found: Option<String>) -> (reply: Reply)
        ensures
            reply@ == match found {
                Some(text) => ReplyView::Value(RedisRtnView::Payload(text@)),
                None => ReplyView::Nil,
            },
    {
        match found {
            Some(text) => Reply::Value(RedisRtn::Payload(text)),
            None => Reply::Nil,
        }
    }

    /// The reply of a command that lists texts: the list, or nothing.
    pub fn from_texts(found: Option<Vec<String>>) -> (reply: Reply)
        ensures
            reply@ == match found {
                Some(texts) => ReplyView::Value(RedisRtnView::Payloads(texts.deep_view())),
                None => ReplyView::Nil,
            },
    {
        match found {
            Some(texts) => Reply::Value(RedisRtn::Payloads(texts)),
            None => Reply::Nil,
        }
    }

    /// The reply of a command that reports how many entries it changed.
    pub fn from_count(count: isize) -> (reply: Reply)
        ensures
            reply@ == ReplyView::Value(RedisRtnView::Status(StatusView::Int(count as int))),
    {
        Reply::Value(RedisRtn::Status(Status::Int(count)))
    }

    /// The reply of a command that reports in words how it went.
    pub fn from_status(status: String) -> (reply: Reply)
        ensures
            reply@ == ReplyView::Value(RedisRtnView::Status(StatusView::String(status@))),
    {
        Reply::Value(RedisRtn::Status(Status::String(status)))
    }

    /// Whether the command could not be carried out.
    pub fn is_failed(&self) -> (failed: bool)
        ensures
            failed == (self@ is Failed),
    {
        match self {
            Reply::Failed => true,
            _ => false,
        }
    }

    /// Whether the command found nothing to return.
    pub fn is_nil(&self) -> (nil: bool)
        ensures
            nil == (self@ is Nil),
    {
        match self {
            Reply::Nil => true,
            _ => false,
        }
    }

    /// Takes the text out of a reply; the empty text where it carries none.
    pub fn into_text(self) -> (text: String)
        ensures
            text@ == self@.text(),
    {
        match self {
            Reply::Value(RedisRtn::Payload(text)) => text,
            _ => String::new(),
        }
    }

    /// Takes the text out of a reply, if it carries one.
    pub fn into_maybe_text(self) -> (text: Option<String>)
        ensures
            text.deep_view() == self@.maybe_text(),
    {
        match self {
            Reply::Value(RedisRtn::Payload(text)) => Some(text),
            _ => None,
        }
    }

    /// Takes the list of texts out of a reply; the empty list where it
    /// carries none.
    pub fn into_texts(self) -> (texts: Vec<String>)
        ensures
            texts.deep_view() == self@.texts(),
    {
        match self {
            Reply::Value(RedisRtn::Payloads(texts)) => texts,
            _ => {
                let texts: Vec<String> = Vec::new();
                assert(texts.deep_view() =~= Seq::<Seq<char>>::empty());
                texts
            },
        }
    }
}

/// Name of the content-type field.
pub open spec fn mime_field() -> Seq<char> {
    "mime"@
}

/// Name of the payload field.
pub open spec fn data_field() -> Seq<char> {
    "data"@
}

/// Name of the public-key field.
pub open spec fn rsa_field() -> Seq<char> {
    "rsa"@
}

/// Key of the index entry that maps an alias to its identifier.
pub open spec fn slang_key(slang: Seq<char>) -> Seq<char> {
    "idx:str:slg:"@ + slang
}

/// Key of the record of an identifier.
pub open spec fn bucket_key(id: Seq<char>) -> Seq<char> {
    "bkt:hash:id:"@ + id
}

/// Key of the alias set of an identifier.
pub open spec fn slangs_key(id: Seq<char>) -> Seq<char> {
    "slgs:zset:id:"@ + id
}

/// The three field names are pairwise different.
pub proof fn lemma_fields_differ()
    ensures
        mime_field() != data_field(),
        mime_field() != rsa_field(),
        data_field() != rsa_field(),
{
    reveal_strlit("mime");
    reveal_strlit("data");
    reveal_strlit("rsa");
    assert(mime_field()[0] == 'm');
    assert(data_field()[0] == 'd');
    assert(rsa_field()[0] == 'r');
}

/// Keys of different shapes never coincide, and a key determines the alias
/// or identifier it was made from.
pub proof fn lemma_key_shapes(a: Seq<char>, b: Seq<char>)
    ensures
        slang_key(a) != bucket_key(b),
        slang_key(a) != slangs_key(b),
        bucket_key(a) != slangs_key(b),
        slang_key(a) == slang_key(b) ==> a == b,
        bucket_key(a) == bucket_key(b) ==> a == b,
        slangs_key(a) == slangs_key(b) ==> a == b,
{
    reveal_strlit("idx:str:slg:");
    reveal_strlit("bkt:hash:id:");
    reveal_strlit("slgs:zset:id:");
    assert(slang_key(a)[0] == 'i');
    assert(bucket_key(a)[0] == 'b');
    assert(bucket_key(b)[0] == 'b');
    assert(slangs_key(b)[0] == 's');
    if slang_key(a) == slang_key(b) {
        assert(a =~= slang_key(a).subrange(12, slang_key(a).len() as int));
        assert(b =~= slang_key(b).subrange(12, slang_key(b).len() as int));
    }
    if bucket_key(a) == bucket_key(b) {
        assert(a =~= bucket_key(a).subrange(12, bucket_key(a).len() as int));
        assert(b =~= bucket_key(b).subrange(12, bucket_key(b).len() as int));
    }
    if slangs_key(a) == slangs_key(b) {
        assert(a =~= slangs_key(a).subrange(13, slangs_key(a).len() as int));
        assert(b =~= slangs_key(b).subrange(13, slangs_key(b).len() as int));
    }
}

/// The facts of [`lemma_key_shapes`], for all aliases and identifiers at
/// once.
pub proof fn lemma_all_key_shapes()
    ensures
        forall|a: Seq<char>, b: Seq<char>| #[trigger] slang_key(a) != #[trigger] bucket_key(b),
        forall|a: Seq<char>, b: Seq<char>| #[trigger] slang_key(a) != #[trigger] slangs_key(b),
        forall|a: Seq<char>, b: Seq<char>| #[trigger] bucket_key(a) != #[trigger] slangs_key(b),
        forall|a: Seq<char>, b: Seq<char>|
            #[trigger] slang_key(a) == #[trigger] slang_key(b) ==> a == b,
        forall|a: Seq<char>, b: Seq<char>|
            #[trigger] bucket_key(a) == #[trigger] bucket_key(b) ==> a == b,
        forall|a: Seq<char>, b: Seq<char>|
            #[trigger] slangs_key(a) == #[trigger] slangs_key(b) ==> a == b,
{
    assert forall|a: Seq<char>, b: Seq<char>| #[trigger]
        slang_key(a) != #[trigger] bucket_key(b) by {
        lemma_key_shapes(a, b);
    }
    assert forall|a: Seq<char>, b: Seq<char>| #[trigger]
        slang_key(a) != #[trigger] slangs_key(b) by {
        lemma_key_shapes(a, b);
    }
    assert forall|a: Seq<char>, b: Seq<char>| #[trigger]
        bucket_key(a) != #[trigger] slangs_key(b) by {
        lemma_key_shapes(a, b);
    }
    assert forall|a: Seq<char>, b: Seq<char>| #[trigger]
        slang_key(a) == #[trigger] slang_key(b) implies a == b by {
        lemma_key_shapes(a, b);
    }
    assert forall|a: Seq<char>, b: Seq<char>| #[trigger]
        bucket_key(a) == #[trigger] bucket_key(b) implies a == b by {
        lemma_key_shapes(a, b);
    }
    assert forall|a: Seq<char>, b: Seq<char>| #[trigger]
        slangs_key(a) == #[trigger] slangs_key(b) implies a == b by {
        lemma_key_shapes(a, b);
    }
}

/// Builds the key of the index entry of an alias.
pub fn str_k_slang(s: &String) -> (key: String)
    ensures
        key@ == slang_key(s@),
{
    let mut key = String::from_str("idx:str:slg:");
    key.append(s.as_str());
    key
}

/// Builds the key of the record of an identifier.
pub fn hash_k_id(s: &String) -> (key: String)
    ensures
        key@ == bucket_key(s@),
{
    let mut key = String::from_str("bkt:hash:id:");
    key.append(s.as_str());
    key
}

/// Builds the key of the alias set of an identifier.
pub fn zset_k_id(s: &String) -> (key: String)
    ensures
        key@ == slangs_key(s@),
{
    let mut key = String::from_str("slgs:zset:id:");
    key.append(s.as_str());
    key
}

/// The command that reads the text stored under `key`.
pub fn get_kv(key: &String) -> (command: Command)
    ensures
        command@ == (CommandView::Get { key: key@ }),
{
    Command::Get { key: key.clone() }
}

/// The command that stores `value` as the text under `key`.
pub fn set_kv(key: &String, value: &String) -> (command: Command)
    ensures
        command@ == (CommandView::Put { key: key@, value: value@ }),
{
    Command::Put { key: key.clone(), value: value.clone() }
}

/// The command that removes whatever is stored under `key`.
pub fn del_kv(key: &String) -> (command: Command)
    ensures
        command@ == (CommandView::Del { key: key@ }),
{
    Command::Del { key: key.clone() }
}

/// The command that reads field `key` of the record stored under `id`.
pub fn get_hash_kfv(id: &String, key: &String) -> (command: Command)
    ensures
        command@ == (CommandView::HashGet { key: id@, field: key@ }),
{
    Command::HashGet { key: id.clone(), field: key.clone() }
}

/// The command that writes `value` to field `key` of the record stored
/// under `id`.
pub fn set_hash_kfv(id: &String, key: &String, value: &String) -> (command: Command)
    ensures
        command@ == (CommandView::HashPut { key: id@, field: key@, value: value@ }),
{
    Command::HashPut { key: id.clone(), field: key.clone(), value: value.clone() }
}

/// The command that removes field `key` from the record stored under `id`.
pub fn del_hash_kf(id: &String, key: &String) -> (command: Command)
    ensures
        command@ == (CommandView::HashDel { key: id@, field: key@ }),
{
    Command::HashDel { key: id.clone(), field: key.clone() }
}

/// The command that enters `value` with weight `score` into the sorted set
/// stored under `key`.
pub fn set_sorted_kvs(key: &String, value: &String, score: isize) -> (command: Command)
    ensures
        command@ == (CommandView::SortedAdd { key: key@, member: value@, score: score as int }),
{
    Command::SortedAdd { key: key.clone(), member: value.clone(), score }
}

/// The command that takes `member` out of the sorted set stored under `key`.
pub fn del_sorted_kvs(key: &String, member: &String) -> (command: Command)
    ensures
        command@ == (CommandView::SortedRemove { key: key@, member: member@ }),
{
    Command::SortedRemove { key: key.clone(), member: member.clone() }
}

/// The command that lists, in order, every member of the sorted set stored
/// under `key`.
pub fn get_sorted_kv(key: &String) -> (command: Command)
    ensures
        command@ == (CommandView::SortedRange { key: key@ }),
{
    Command::SortedRange { key: key.clone() }
}

} // verus!
