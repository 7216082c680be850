use slangbucket::alias::{set_slang, Binding, SlangAddition, SlangRemoval};
use slangbucket::backend::{Command, RedisRtn, Reply, Status};
use slangbucket::bucket::{
    Bucket, BucketContext, BucketMeta, ErrorKind, FieldError, Label, MetaChange, NewBucket,
    Progress,
};
use slangbucket::create::Creation;
use slangbucket::delete::Deletion;
use slangbucket::hash::{get_id_from_context, get_slang_from_id};
use slangbucket::mutation::MutationRoot;
use slangbucket::query::{
    query_bucket_context, query_bucket_meta, ContextQuery, MetaQuery, QueryRoot,
};
use std::collections::BTreeMap;

const HELLO_ID: &str = "2cf24dba5fb0a30e26e83b2ac5b9e29e1b161e5c1fa7425e73043362938b9824";
const HELLO_SLANG: &str = "avuyuwesebe";

fn text(s: &str) -> String {
    s.to_string()
}

enum Held {
    Text(String),
    Record(BTreeMap<String, String>),
    Sorted(Vec<(isize, String)>),
}

/// A backend in memory: one command at a time, a command on a key that
/// holds another kind of value fails, a sorted set lists by weight and then
/// by member, and an empty sorted set is gone.
struct Backend {
    held: BTreeMap<String, Held>,
    log: Vec<Command>,
    fail_at: Option<usize>,
}

impl Backend {
    fn new() -> Backend {
        Backend { held: BTreeMap::new(), log: Vec::new(), fail_at: None }
    }

    fn failing_at(mut self, nth: usize) -> Backend {
        self.fail_at = Some(self.log.len() + nth);
        self
    }

    fn count(n: isize) -> Reply {
        Reply::Value(RedisRtn::Status(Status::Int(n)))
    }

    fn perform(&mut self, command: Command) -> Reply {
        self.log.push(command.clone());
        if self.fail_at == Some(self.log.len() - 1) {
            return Reply::Failed;
        }
        match command {
            Command::Get { key } => match self.held.get(&key) {
                None => Reply::Nil,
                Some(Held::Text(value)) => Reply::Value(RedisRtn::Payload(value.clone())),
                Some(_) => Reply::Failed,
            },
            Command::Put { key, value } => {
                self.held.insert(key, Held::Text(value));
                Reply::Value(RedisRtn::Status(Status::String(text("OK"))))
            }
            Command::Del { key } => match self.held.remove(&key) {
                Some(_) => Backend::count(1),
                None => Backend::count(0),
            },
            Command::HashGet { key, field } => match self.held.get(&key) {
                None => Reply::Nil,
                Some(Held::Record(fields)) => match fields.get(&field) {
                    Some(value) => Reply::Value(RedisRtn::Payload(value.clone())),
                    None => Reply::Nil,
                },
                Some(_) => Reply::Failed,
            },
            Command::HashPut { key, field, value } => {
                match self.held.entry(key).or_insert_with(|| Held::Record(BTreeMap::new())) {
                    Held::Record(fields) => match fields.insert(field, value) {
                        Some(_) => Backend::count(0),
                        None => Backend::count(1),
                    },
                    _ => Reply::Failed,
                }
            }
            Command::HashDel { key, field } => {
                let (reply, empty) = match self.held.get_mut(&key) {
                    None => (Backend::count(0), false),
                    Some(Held::Record(fields)) => match fields.remove(&field) {
                        Some(_) => (Backend::count(1), fields.is_empty()),
                        None => (Backend::count(0), false),
                    },
                    Some(_) => (Reply::Failed, false),
                };
                if empty {
                    self.held.remove(&key);
                }
                reply
            }
            Command::SortedAdd { key, member, score } => {
                match self.held.entry(key).or_insert_with(|| Held::Sorted(Vec::new())) {
                    Held::Sorted(set) => {
                        let before = set.len();
                        set.retain(|(_, held)| *held != member);
                        let added = if set.len() == before { 1 } else { 0 };
                        set.push((score, member));
                        set.sort();
                        Backend::count(added)
                    }
                    _ => Reply::Failed,
                }
            }
            Command::SortedRemove { key, member } => {
                let (reply, empty) = match self.held.get_mut(&key) {
                    None => (Backend::count(0), false),
                    Some(Held::Sorted(set)) => {
                        let before = set.len();
                        set.retain(|(_, held)| *held != member);
                        (Backend::count((before - set.len()) as isize), set.is_empty())
                    }
                    Some(_) => (Reply::Failed, false),
                };
                if empty {
                    self.held.remove(&key);
                }
                reply
            }
            Command::SortedRange { key } => match self.held.get(&key) {
                None => Reply::Value(RedisRtn::Payloads(Vec::new())),
                Some(Held::Sorted(set)) => Reply::Value(RedisRtn::Payloads(
                    set.iter().map(|(_, member)| member.clone()).collect(),
                )),
                Some(_) => Reply::Failed,
            },
        }
    }

    fn drive<S, T>(
        &mut self,
        start: Progress<S, T>,
        step: fn(S, Reply) -> Progress<S, T>,
    ) -> Result<T, FieldError> {
        let mut at = start;
        loop {
            match at {
                Progress::Ask(state, command) => {
                    let reply = self.perform(command);
                    at = step(state, reply);
                }
                Progress::Done(result) => return result,
            }
        }
    }

    fn context(&mut self, slang: &str) -> Result<BucketContext, FieldError> {
        self.drive(QueryRoot::bucketContext(text(slang)), ContextQuery::step)
    }

    fn meta(&mut self, slang: &str) -> Result<BucketMeta, FieldError> {
        self.drive(QueryRoot::bucketMeta(text(slang)), MetaQuery::step)
    }

    fn create(&mut self, data: &str, mime: &str, rsa: Option<&str>) -> Result<BucketMeta, FieldError> {
        let bucket = NewBucket { data: text(data), mime: text(mime), rsa: rsa.map(text) };
        self.drive(MutationRoot::createBucket(bucket), Creation::step)
    }

    fn add(&mut self, id: &str, slang: &str) -> Result<BucketMeta, FieldError> {
        let change = MetaChange { id: text(id), slang: text(slang) };
        self.drive(MutationRoot::setSlang(change), SlangAddition::step)
    }

    fn remove(&mut self, id: &str, slang: &str) -> Result<BucketMeta, FieldError> {
        let change = MetaChange { id: text(id), slang: text(slang) };
        self.drive(MutationRoot::dropSlang(change), SlangRemoval::step)
    }

    fn delete(&mut self, id: &str) -> Result<Bucket, FieldError> {
        self.drive(MutationRoot::deleteBucket(text(id)), Deletion::step)
    }
}

fn failure(kind: ErrorKind, label: Label) -> FieldError {
    FieldError { kind, label }
}

fn meta_of(id: &str, slang: &[&str], rsa: Option<&str>) -> BucketMeta {
    BucketMeta {
        id: text(id),
        slang: slang.iter().map(|s| text(s)).collect(),
        rsa: rsa.map(text),
    }
}

#[test]
fn create_returns_id_and_derived_alias() {
    let mut backend = Backend::new();
    let created = backend.create("hello", "text/plain", None);
    assert_eq!(created, Ok(meta_of(HELLO_ID, &[HELLO_SLANG], None)));
    assert_eq!(get_id_from_context(&text("hello")), HELLO_ID);
    assert_eq!(get_slang_from_id(&text(HELLO_ID)), HELLO_SLANG);
}

#[test]
fn meta_after_create_lists_the_primary_alias_and_no_key() {
    let mut backend = Backend::new();
    backend.create("hello", "text/plain", None).unwrap();
    assert_eq!(backend.meta(HELLO_SLANG), Ok(meta_of(HELLO_ID, &[HELLO_SLANG], None)));
}

#[test]
fn context_after_create_returns_data_and_mime() {
    let mut backend = Backend::new();
    backend.create("hello", "text/plain", None).unwrap();
    assert_eq!(
        backend.context(HELLO_SLANG),
        Ok(BucketContext { id: text(HELLO_ID), data: text("hello"), mime: text("text/plain") })
    );
}

#[test]
fn create_round_trips_several_payloads() {
    for (data, mime) in [("", ""), ("{\"a\":1}", "application/json"), ("\u{e9}t\u{e9}", "text/x")] {
        let mut backend = Backend::new();
        let created = backend.create(data, mime, None).unwrap();
        let read = backend.context(&created.slang[0]).unwrap();
        assert_eq!(read.id, created.id);
        assert_eq!(read.data, data);
        assert_eq!(read.mime, mime);
    }
}

#[test]
fn create_with_public_key_stores_and_returns_it() {
    let mut backend = Backend::new();
    let created = backend.create("hello", "text/plain", Some("ssh-rsa AAAA"));
    assert_eq!(created, Ok(meta_of(HELLO_ID, &[HELLO_SLANG], Some("ssh-rsa AAAA"))));
    assert_eq!(
        backend.meta(HELLO_SLANG),
        Ok(meta_of(HELLO_ID, &[HELLO_SLANG], Some("ssh-rsa AAAA")))
    );
}

#[test]
fn create_sends_its_commands_in_order() {
    let mut backend = Backend::new();
    backend.create("hello", "text/plain", Some("key")).unwrap();
    let record = format!("bkt:hash:id:{}", HELLO_ID);
    let set = format!("slgs:zset:id:{}", HELLO_ID);
    let index = format!("idx:str:slg:{}", HELLO_SLANG);
    assert_eq!(
        backend.log,
        vec![
            Command::HashPut { key: record.clone(), field: text("mime"), value: text("text/plain") },
            Command::HashPut { key: record.clone(), field: text("data"), value: text("hello") },
            Command::HashPut { key: record, field: text("rsa"), value: text("key") },
            Command::Put { key: index, value: text(HELLO_ID) },
            Command::SortedAdd { key: set.clone(), member: text(HELLO_SLANG), score: 0 },
            Command::SortedRange { key: set },
        ]
    );
}

#[test]
fn create_without_key_removes_the_key_field_before_binding() {
    let mut backend = Backend::new();
    backend.create("hello", "text/plain", None).unwrap();
    let record = format!("bkt:hash:id:{}", HELLO_ID);
    let set = format!("slgs:zset:id:{}", HELLO_ID);
    assert_eq!(
        backend.log,
        vec![
            Command::HashPut { key: record.clone(), field: text("mime"), value: text("text/plain") },
            Command::HashPut { key: record.clone(), field: text("data"), value: text("hello") },
            Command::HashDel { key: record, field: text("rsa") },
            Command::Put { key: format!("idx:str:slg:{}", HELLO_SLANG), value: text(HELLO_ID) },
            Command::SortedAdd { key: set.clone(), member: text(HELLO_SLANG), score: 0 },
            Command::SortedRange { key: set },
        ]
    );
}

#[test]
fn create_twice_overwrites_and_keeps_one_alias() {
    let mut backend = Backend::new();
    backend.create("hello", "text/plain", None).unwrap();
    let again = backend.create("hello", "text/html", None);
    assert_eq!(again, Ok(meta_of(HELLO_ID, &[HELLO_SLANG], None)));
    assert_eq!(backend.context(HELLO_SLANG).unwrap().mime, "text/html");
}

#[test]
fn create_again_without_key_drops_the_stored_key() {
    let mut backend = Backend::new();
    backend.create("hello", "text/plain", Some("key")).unwrap();
    let again = backend.create("hello", "text/plain", None);
    assert_eq!(again, Ok(meta_of(HELLO_ID, &[HELLO_SLANG], None)));
    assert_eq!(backend.meta(HELLO_SLANG), Ok(meta_of(HELLO_ID, &[HELLO_SLANG], None)));
}

#[test]
fn create_again_with_another_key_replaces_the_stored_key() {
    let mut backend = Backend::new();
    backend.create("hello", "text/plain", Some("old")).unwrap();
    let again = backend.create("hello", "text/plain", Some("new"));
    assert_eq!(again, Ok(meta_of(HELLO_ID, &[HELLO_SLANG], Some("new"))));
    assert_eq!(backend.meta(HELLO_SLANG), Ok(meta_of(HELLO_ID, &[HELLO_SLANG], Some("new"))));
}

#[test]
fn create_over_a_colliding_alias_takes_the_alias_over() {
    let mut backend = Backend::new();
    backend.perform(Command::HashPut {
        key: text("bkt:hash:id:other"),
        field: text("mime"),
        value: text("m"),
    });
    backend.perform(Command::HashPut {
        key: text("bkt:hash:id:other"),
        field: text("data"),
        value: text("d"),
    });
    backend.drive(
        set_slang(MetaChange { id: text("other"), slang: text(HELLO_SLANG) }),
        Binding::step,
    )
    .unwrap();
    let created = backend.create("hello", "text/plain", None);
    assert_eq!(created, Ok(meta_of(HELLO_ID, &[HELLO_SLANG], None)));
    assert_eq!(backend.context(HELLO_SLANG).unwrap().id, HELLO_ID);
    let listed = backend.perform(Command::SortedRange { key: text("slgs:zset:id:other") });
    assert_eq!(listed, Reply::Value(RedisRtn::Payloads(vec![text(HELLO_SLANG)])));
}

#[test]
fn query_of_unknown_alias_is_not_found() {
    let mut backend = Backend::new();
    assert_eq!(backend.context("nobody"), Err(failure(ErrorKind::NotFound, Label::NoSlang)));
    assert_eq!(backend.meta("nobody"), Err(failure(ErrorKind::NotFound, Label::NoSlang)));
    assert_eq!(backend.log.len(), 2);
}

#[test]
fn context_reads_missing_fields_as_empty() {
    let mut backend = Backend::new();
    backend.perform(Command::Put { key: text("idx:str:slg:lone"), value: text("someid") });
    assert_eq!(
        backend.context("lone"),
        Ok(BucketContext { id: text("someid"), data: String::new(), mime: String::new() })
    );
    assert_eq!(backend.meta("lone"), Ok(meta_of("someid", &[], None)));
}

#[test]
fn context_query_sends_its_commands_in_order() {
    let mut backend = Backend::new();
    backend.create("hello", "text/plain", None).unwrap();
    backend.log.clear();
    backend.context(HELLO_SLANG).unwrap();
    let record = format!("bkt:hash:id:{}", HELLO_ID);
    assert_eq!(
        backend.log,
        vec![
            Command::Get { key: format!("idx:str:slg:{}", HELLO_SLANG) },
            Command::HashGet { key: record.clone(), field: text("data") },
            Command::HashGet { key: record, field: text("mime") },
        ]
    );
}

#[test]
fn meta_query_sends_its_commands_in_order() {
    let mut backend = Backend::new();
    backend.create("hello", "text/plain", None).unwrap();
    backend.log.clear();
    backend.meta(HELLO_SLANG).unwrap();
    assert_eq!(
        backend.log,
        vec![
            Command::Get { key: format!("idx:str:slg:{}", HELLO_SLANG) },
            Command::SortedRange { key: format!("slgs:zset:id:{}", HELLO_ID) },
            Command::HashGet { key: format!("bkt:hash:id:{}", HELLO_ID), field: text("rsa") },
        ]
    );
}

#[test]
fn free_functions_begin_the_same_reads() {
    assert_eq!(query_bucket_context(text("a")), QueryRoot::bucketContext(text("a")));
    assert_eq!(query_bucket_meta(text("a")), QueryRoot::bucketMeta(text("a")));
    assert_eq!(
        query_bucket_context(text("a")),
        Progress::Ask(ContextQuery::AwaitId, Command::Get { key: text("idx:str:slg:a") })
    );
}

#[test]
fn add_alias_then_remove_primary_then_last_is_refused() {
    let mut backend = Backend::new();
    backend.create("hello", "text/plain", None).unwrap();
    assert_eq!(backend.add(HELLO_ID, "foo"), Ok(meta_of(HELLO_ID, &[HELLO_SLANG, "foo"], None)));
    assert_eq!(backend.remove(HELLO_ID, HELLO_SLANG), Ok(meta_of(HELLO_ID, &["foo"], None)));
    assert_eq!(
        backend.remove(HELLO_ID, "foo"),
        Err(failure(ErrorKind::Unsupported, Label::IdLastSlang))
    );
    assert_eq!(backend.meta("foo"), Ok(meta_of(HELLO_ID, &["foo"], None)));
}

#[test]
fn delete_leaves_every_former_alias_unresolved() {
    let mut backend = Backend::new();
    backend.create("hello", "text/plain", None).unwrap();
    backend.add(HELLO_ID, "foo").unwrap();
    backend.remove(HELLO_ID, HELLO_SLANG).unwrap();
    let deleted = backend.delete(HELLO_ID);
    assert_eq!(
        deleted,
        Ok(Bucket {
            bucket_context: BucketContext {
                id: text(HELLO_ID),
                data: text("hello"),
                mime: text("text/plain"),
            },
            bucket_meta: meta_of(HELLO_ID, &["foo"], None),
        })
    );
    assert_eq!(backend.context("foo"), Err(failure(ErrorKind::NotFound, Label::NoSlang)));
    assert_eq!(backend.context(HELLO_SLANG), Err(failure(ErrorKind::NotFound, Label::NoSlang)));
    assert_eq!(backend.meta("foo"), Err(failure(ErrorKind::NotFound, Label::NoSlang)));
    assert!(backend.held.is_empty());
}

#[test]
fn delete_removes_all_aliases_and_returns_the_snapshot() {
    let mut backend = Backend::new();
    backend.create("hello", "text/plain", Some("key")).unwrap();
    backend.add(HELLO_ID, "zed").unwrap();
    backend.add(HELLO_ID, "abc").unwrap();
    let deleted = backend.delete(HELLO_ID).unwrap();
    assert_eq!(deleted.bucket_meta, meta_of(HELLO_ID, &["abc", HELLO_SLANG, "zed"], Some("key")));
    assert_eq!(deleted.bucket_context.data, "hello");
    for slang in ["abc", HELLO_SLANG, "zed"] {
        assert_eq!(backend.context(slang), Err(failure(ErrorKind::NotFound, Label::NoSlang)));
    }
    assert!(backend.held.is_empty());
}

#[test]
fn delete_sends_its_commands_in_order() {
    let mut backend = Backend::new();
    backend.create("hello", "text/plain", None).unwrap();
    backend.add(HELLO_ID, "foo").unwrap();
    backend.log.clear();
    backend.delete(HELLO_ID).unwrap();
    let record = format!("bkt:hash:id:{}", HELLO_ID);
    let set = format!("slgs:zset:id:{}", HELLO_ID);
    let first = format!("idx:str:slg:{}", HELLO_SLANG);
    assert_eq!(
        backend.log,
        vec![
            Command::SortedRange { key: set.clone() },
            Command::Get { key: first.clone() },
            Command::HashGet { key: record.clone(), field: text("data") },
            Command::HashGet { key: record.clone(), field: text("mime") },
            Command::Get { key: first.clone() },
            Command::SortedRange { key: set.clone() },
            Command::HashGet { key: record.clone(), field: text("rsa") },
            Command::Del { key: record },
            Command::Del { key: first },
            Command::Del { key: text("idx:str:slg:foo") },
            Command::Del { key: set },
        ]
    );
}

#[test]
fn delete_of_unknown_id_is_not_found() {
    let mut backend = Backend::new();
    assert_eq!(backend.delete("nothing"), Err(failure(ErrorKind::NotFound, Label::NoId)));
    assert_eq!(backend.log.len(), 1);
}

#[test]
fn delete_twice_is_not_found_the_second_time() {
    let mut backend = Backend::new();
    backend.create("hello", "text/plain", None).unwrap();
    backend.delete(HELLO_ID).unwrap();
    assert_eq!(backend.delete(HELLO_ID), Err(failure(ErrorKind::NotFound, Label::NoId)));
}

#[test]
fn add_alias_to_unknown_id_is_not_found() {
    let mut backend = Backend::new();
    assert_eq!(backend.add("nothing", "foo"), Err(failure(ErrorKind::NotFound, Label::NoId)));
    assert!(backend.held.is_empty());
}

#[test]
fn add_bound_alias_already_exists() {
    let mut backend = Backend::new();
    backend.create("hello", "text/plain", None).unwrap();
    let other = backend.create("world", "text/plain", None).unwrap();
    backend.add(HELLO_ID, "foo").unwrap();
    assert_eq!(
        backend.add(&other.id, "foo"),
        Err(failure(ErrorKind::AlreadyExists, Label::SlangExists))
    );
    assert_eq!(
        backend.add(HELLO_ID, "foo"),
        Err(failure(ErrorKind::AlreadyExists, Label::SlangExists))
    );
    assert_eq!(
        backend.add(&other.id, HELLO_SLANG),
        Err(failure(ErrorKind::AlreadyExists, Label::SlangExists))
    );
    assert_eq!(backend.meta("foo"), Ok(meta_of(HELLO_ID, &[HELLO_SLANG, "foo"], None)));
    assert_eq!(backend.meta(&other.slang[0]).unwrap().slang, other.slang);
}

#[test]
fn add_alias_keeps_content_and_primary_alias() {
    let mut backend = Backend::new();
    backend.create("hello", "text/plain", Some("key")).unwrap();
    let before = backend.context(HELLO_SLANG).unwrap();
    let added = backend.add(HELLO_ID, "foo");
    assert_eq!(added, Ok(meta_of(HELLO_ID, &[HELLO_SLANG, "foo"], Some("key"))));
    assert_eq!(backend.context(HELLO_SLANG).unwrap(), before);
    assert_eq!(backend.context("foo").unwrap(), before);
}

#[test]
fn add_alias_sends_its_commands_in_order() {
    let mut backend = Backend::new();
    backend.create("hello", "text/plain", None).unwrap();
    backend.log.clear();
    backend.add(HELLO_ID, "foo").unwrap();
    let record = format!("bkt:hash:id:{}", HELLO_ID);
    let set = format!("slgs:zset:id:{}", HELLO_ID);
    assert_eq!(
        backend.log,
        vec![
            Command::HashGet { key: record.clone(), field: text("mime") },
            Command::Get { key: text("idx:str:slg:foo") },
            Command::Put { key: text("idx:str:slg:foo"), value: text(HELLO_ID) },
            Command::SortedAdd { key: set.clone(), member: text("foo"), score: 0 },
            Command::HashGet { key: record, field: text("rsa") },
            Command::SortedRange { key: set },
        ]
    );
}

#[test]
fn aliases_are_listed_in_lexical_order() {
    let mut backend = Backend::new();
    backend.create("hello", "text/plain", None).unwrap();
    backend.add(HELLO_ID, "zulu").unwrap();
    backend.add(HELLO_ID, "alpha").unwrap();
    let third = backend.add(HELLO_ID, "mike").unwrap();
    assert_eq!(third.slang, vec![text("alpha"), text(HELLO_SLANG), text("mike"), text("zulu")]);
}

#[test]
fn remove_sole_alias_is_unsupported_and_changes_nothing() {
    let mut backend = Backend::new();
    backend.create("hello", "text/plain", None).unwrap();
    assert_eq!(
        backend.remove(HELLO_ID, HELLO_SLANG),
        Err(failure(ErrorKind::Unsupported, Label::IdLastSlang))
    );
    assert_eq!(backend.meta(HELLO_SLANG), Ok(meta_of(HELLO_ID, &[HELLO_SLANG], None)));
}

#[test]
fn remove_alias_of_unknown_id_is_not_found() {
    let mut backend = Backend::new();
    assert_eq!(backend.remove("nothing", "foo"), Err(failure(ErrorKind::NotFound, Label::NoId)));
    assert_eq!(backend.log.len(), 1);
}

#[test]
fn remove_alias_of_another_id_is_unsupported() {
    let mut backend = Backend::new();
    backend.create("hello", "text/plain", None).unwrap();
    let other = backend.create("world", "text/plain", None).unwrap();
    backend.add(HELLO_ID, "foo").unwrap();
    backend.add(&other.id, "bar").unwrap();
    assert_eq!(
        backend.remove(HELLO_ID, "bar"),
        Err(failure(ErrorKind::Unsupported, Label::IdSlangMismatch))
    );
    assert_eq!(backend.meta("bar").unwrap().id, other.id);
    assert_eq!(backend.meta("foo").unwrap().slang.len(), 2);
}

#[test]
fn remove_absent_alias_is_a_no_op() {
    let mut backend = Backend::new();
    backend.create("hello", "text/plain", None).unwrap();
    backend.add(HELLO_ID, "foo").unwrap();
    assert_eq!(
        backend.remove(HELLO_ID, "never"),
        Ok(meta_of(HELLO_ID, &[HELLO_SLANG, "foo"], None))
    );
    assert_eq!(backend.remove(HELLO_ID, "never"), backend.meta("foo"));
}

#[test]
fn remove_alias_sends_its_commands_in_order() {
    let mut backend = Backend::new();
    backend.create("hello", "text/plain", None).unwrap();
    backend.add(HELLO_ID, "foo").unwrap();
    backend.log.clear();
    backend.remove(HELLO_ID, "foo").unwrap();
    let set = format!("slgs:zset:id:{}", HELLO_ID);
    assert_eq!(
        backend.log,
        vec![
            Command::SortedRange { key: set.clone() },
            Command::Get { key: text("idx:str:slg:foo") },
            Command::Del { key: text("idx:str:slg:foo") },
            Command::SortedRemove { key: set.clone(), member: text("foo") },
            Command::HashGet { key: format!("bkt:hash:id:{}", HELLO_ID), field: text("rsa") },
            Command::SortedRange { key: set },
        ]
    );
}

#[test]
fn alias_set_is_never_empty_under_adds_and_removes() {
    let mut backend = Backend::new();
    backend.create("hello", "text/plain", None).unwrap();
    let names = ["a", "b", "c", "d"];
    for round in 0..3 {
        for name in names {
            let _ = backend.add(HELLO_ID, name);
            assert!(!backend.meta(name).unwrap().slang.is_empty());
        }
        for name in names.iter().skip(round) {
            let _ = backend.remove(HELLO_ID, name);
        }
        let _ = backend.remove(HELLO_ID, HELLO_SLANG);
        for name in names {
            let _ = backend.remove(HELLO_ID, name);
        }
        let left = backend.drive(
            MutationRoot::dropSlang(MetaChange { id: text(HELLO_ID), slang: text("none") }),
            SlangRemoval::step,
        );
        assert!(!left.unwrap().slang.is_empty());
    }
}

#[test]
fn set_slang_records_the_alias_both_ways() {
    let mut backend = Backend::new();
    let change = MetaChange { id: text("someid"), slang: text("foo") };
    assert_eq!(
        set_slang(change.clone()),
        Progress::Ask(
            Binding::AwaitIndex { change: change.clone() },
            Command::Put { key: text("idx:str:slg:foo"), value: text("someid") }
        )
    );
    assert_eq!(backend.drive(set_slang(change), Binding::step), Ok(()));
    assert_eq!(
        backend.log[1],
        Command::SortedAdd { key: text("slgs:zset:id:someid"), member: text("foo"), score: 0 }
    );
    assert_eq!(backend.meta("foo"), Ok(meta_of("someid", &["foo"], None)));
}

#[test]
fn a_failed_command_ends_create_at_that_step() {
    let labels = [
        Label::SetHashKfMime,
        Label::SetHashKfData,
        Label::SetHashKfRsa,
        Label::SetStrKSlang,
        Label::SetZsetKId,
        Label::GetZsetKId,
    ];
    for (nth, label) in labels.into_iter().enumerate() {
        let mut backend = Backend::new().failing_at(nth);
        assert_eq!(
            backend.create("hello", "text/plain", Some("key")),
            Err(failure(ErrorKind::BackendUnavailable, label))
        );
        assert_eq!(backend.log.len(), nth + 1);
    }
}

#[test]
fn a_failed_removal_of_the_key_field_ends_create() {
    let mut backend = Backend::new().failing_at(2);
    assert_eq!(
        backend.create("hello", "text/plain", None),
        Err(failure(ErrorKind::BackendUnavailable, Label::DelHashKfRsa))
    );
    assert_eq!(backend.log.len(), 3);
}

#[test]
fn a_failed_key_write_leaves_the_alias_unbound() {
    let mut backend = Backend::new().failing_at(2);
    assert_eq!(
        backend.create("hello", "text/plain", Some("key")),
        Err(failure(ErrorKind::BackendUnavailable, Label::SetHashKfRsa))
    );
    assert_eq!(backend.held.len(), 1);
    assert!(!backend.held.contains_key(&format!("idx:str:slg:{}", HELLO_SLANG)));
    assert_eq!(backend.context(HELLO_SLANG), Err(failure(ErrorKind::NotFound, Label::NoSlang)));
}

#[test]
fn a_failed_bind_leaves_the_key_stored() {
    let mut backend = Backend::new().failing_at(3);
    assert_eq!(
        backend.create("hello", "text/plain", Some("key")),
        Err(failure(ErrorKind::BackendUnavailable, Label::SetStrKSlang))
    );
    let stored = backend.perform(Command::HashGet {
        key: format!("bkt:hash:id:{}", HELLO_ID),
        field: text("rsa"),
    });
    assert_eq!(stored, Reply::Value(RedisRtn::Payload(text("key"))));
}

#[test]
fn a_failed_command_leaves_earlier_writes_in_place() {
    let mut backend = Backend::new().failing_at(3);
    assert_eq!(
        backend.create("hello", "text/plain", None),
        Err(failure(ErrorKind::BackendUnavailable, Label::SetStrKSlang))
    );
    assert_eq!(backend.held.len(), 1);
    assert!(backend.held.contains_key(&format!("bkt:hash:id:{}", HELLO_ID)));
}

#[test]
fn a_failed_command_ends_the_reads_at_that_step() {
    let context = [Label::GetStrKSlang, Label::GetHashKfData, Label::GetHashKfMime];
    for (nth, label) in context.into_iter().enumerate() {
        let mut backend = Backend::new();
        backend.create("hello", "text/plain", None).unwrap();
        let mut backend = backend.failing_at(nth);
        assert_eq!(
            backend.context(HELLO_SLANG),
            Err(failure(ErrorKind::BackendUnavailable, label))
        );
    }
    let meta = [Label::GetStrKSlang, Label::GetZsetKId, Label::GetHashKfRsa];
    for (nth, label) in meta.into_iter().enumerate() {
        let mut backend = Backend::new();
        backend.create("hello", "text/plain", None).unwrap();
        let mut backend = backend.failing_at(nth);
        assert_eq!(backend.meta(HELLO_SLANG), Err(failure(ErrorKind::BackendUnavailable, label)));
    }
}

#[test]
fn a_failed_command_ends_add_alias_at_that_step() {
    let labels = [
        Label::GetHashKfMime,
        Label::GetStrKSlang,
        Label::SetStrKSlang,
        Label::SetZsetKId,
        Label::GetHashKfRsa,
        Label::GetZsetKId,
    ];
    for (nth, label) in labels.into_iter().enumerate() {
        let mut backend = Backend::new();
        backend.create("hello", "text/plain", None).unwrap();
        let mut backend = backend.failing_at(nth);
        let before = backend.log.len();
        assert_eq!(
            backend.add(HELLO_ID, "foo"),
            Err(failure(ErrorKind::BackendUnavailable, label))
        );
        assert_eq!(backend.log.len(), before + nth + 1);
    }
}

#[test]
fn a_failed_command_ends_remove_alias_at_that_step() {
    let labels = [
        Label::GetZsetKId,
        Label::GetStrKSlang,
        Label::DelStrKSlang,
        Label::DelZsetKId,
        Label::GetHashKfRsa,
        Label::GetZsetKId,
    ];
    for (nth, label) in labels.into_iter().enumerate() {
        let mut backend = Backend::new();
        backend.create("hello", "text/plain", None).unwrap();
        backend.add(HELLO_ID, "foo").unwrap();
        let mut backend = backend.failing_at(nth);
        assert_eq!(
            backend.remove(HELLO_ID, "foo"),
            Err(failure(ErrorKind::BackendUnavailable, label))
        );
    }
}

#[test]
fn a_failed_command_ends_delete_at_that_step() {
    let labels = [
        Label::GetZsetKId,
        Label::GetStrKSlang,
        Label::GetHashKfData,
        Label::GetHashKfMime,
        Label::GetStrKSlang,
        Label::GetZsetKId,
        Label::GetHashKfRsa,
        Label::DelHashKId,
        Label::DelStrKSlang,
        Label::DelStrKSlang,
        Label::DelZsetKId,
    ];
    for (nth, label) in labels.into_iter().enumerate() {
        let mut backend = Backend::new();
        backend.create("hello", "text/plain", None).unwrap();
        backend.add(HELLO_ID, "foo").unwrap();
        let mut backend = backend.failing_at(nth);
        let before = backend.log.len();
        assert_eq!(
            backend.delete(HELLO_ID),
            Err(failure(ErrorKind::BackendUnavailable, label))
        );
        assert_eq!(backend.log.len(), before + nth + 1);
    }
}

#[test]
fn delete_reads_through_the_lexically_first_alias() {
    let mut backend = Backend::new();
    backend.create("hello", "text/plain", None).unwrap();
    backend.add(HELLO_ID, "aaa").unwrap();
    backend.log.clear();
    backend.delete(HELLO_ID).unwrap();
    assert_eq!(backend.log[1], Command::Get { key: text("idx:str:slg:aaa") });
    assert_eq!(backend.log[4], Command::Get { key: text("idx:str:slg:aaa") });
}

#[test]
fn steps_follow_the_reply_not_the_backend() {
    let asked = ContextQuery::AwaitId.step(Reply::Value(RedisRtn::Payload(text("someid"))));
    assert_eq!(
        asked,
        Progress::Ask(
            ContextQuery::AwaitData { id: text("someid") },
            Command::HashGet { key: text("bkt:hash:id:someid"), field: text("data") }
        )
    );
    let done = ContextQuery::AwaitMime { id: text("someid"), data: text("d") }
        .step(Reply::Value(RedisRtn::Payload(text("m"))));
    assert_eq!(
        done,
        Progress::Done(Ok(BucketContext { id: text("someid"), data: text("d"), mime: text("m") }))
    );
    let listed = MetaQuery::AwaitSlangs { id: text("someid") }.step(Reply::Nil);
    assert_eq!(
        listed,
        Progress::Ask(
            MetaQuery::AwaitRsa { id: text("someid"), slang: Vec::new() },
            Command::HashGet { key: text("bkt:hash:id:someid"), field: text("rsa") }
        )
    );
}

#[test]
fn remove_alias_with_no_listing_is_not_found() {
    let change = MetaChange { id: text("someid"), slang: text("foo") };
    for reply in [Reply::Nil, Reply::Value(RedisRtn::Payloads(Vec::new()))] {
        assert_eq!(
            SlangRemoval::AwaitSlangs { change: change.clone() }.step(reply),
            Progress::Done(Err(failure(ErrorKind::NotFound, Label::NoId)))
        );
    }
}

#[test]
fn creation_settles_the_key_after_the_payload() {
    let with_key = Creation::AwaitData {
        id: text("someid"),
        slang: text("foo"),
        rsa: Some(text("key")),
    };
    assert_eq!(
        with_key.step(Reply::from_count(1)),
        Progress::Ask(
            Creation::AwaitRsa { id: text("someid"), slang: text("foo"), rsa: Some(text("key")) },
            Command::HashPut {
                key: text("bkt:hash:id:someid"),
                field: text("rsa"),
                value: text("key")
            }
        )
    );
    let without_key = Creation::AwaitData { id: text("someid"), slang: text("foo"), rsa: None };
    assert_eq!(
        without_key.step(Reply::from_count(1)),
        Progress::Ask(
            Creation::AwaitRsa { id: text("someid"), slang: text("foo"), rsa: None },
            Command::HashDel { key: text("bkt:hash:id:someid"), field: text("rsa") }
        )
    );
    let settled = Creation::AwaitRsa { id: text("someid"), slang: text("foo"), rsa: None };
    assert_eq!(
        settled.step(Reply::from_count(0)),
        Progress::Ask(
            Creation::Bind {
                binding: Binding::AwaitIndex {
                    change: MetaChange { id: text("someid"), slang: text("foo") }
                },
                id: text("someid"),
                rsa: None
            },
            Command::Put { key: text("idx:str:slg:foo"), value: text("someid") }
        )
    );
}

#[test]
fn creation_begins_with_a_whole_identifier_and_alias() {
    let bucket = NewBucket { data: text("hello"), mime: text("text/plain"), rsa: None };
    match MutationRoot::createBucket(bucket) {
        Progress::Ask(Creation::AwaitMime { id, slang, .. }, command) => {
            assert_eq!(id, HELLO_ID);
            assert_eq!(id.len(), 64);
            assert_eq!(slang, HELLO_SLANG);
            assert_eq!(
                command,
                Command::HashPut {
                    key: format!("bkt:hash:id:{}", HELLO_ID),
                    field: text("mime"),
                    value: text("text/plain")
                }
            );
        }
        other => panic!("creation began with {:?}", other),
    }
}
