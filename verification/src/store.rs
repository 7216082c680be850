//! A mathematical model of the key-value backend: what each command returns
//! and how it changes what is stored.
//!
//! The model is the yardstick for the bucket operations. It describes a
//! backend that carries out one command at a time and fails a command only
//! when the key holds a value of another kind.

use crate::backend::{CommandView, RedisRtnView, ReplyView, StatusView};
use vstd::prelude::*;

verus! {

/// One member of a sorted set, with its ordering weight.
pub ghost struct Ranked {
    pub score: int,
    pub member: Seq<char>,
}

/// What the backend holds under one key.
pub ghost enum Entry {
    /// A single text.
    Text(Seq<char>),
    /// A record of named fields.
    Record(Map<Seq<char>, Seq<char>>),
    /// A sorted set, kept in the order in which it is listed.
    Sorted(Seq<Ranked>),
}

/// Everything the backend holds, by key.
pub type Store = Map<Seq<char>, Entry>;

/// Whether text `a` comes strictly before text `b`, character by character.
pub open spec fn text_before(a: Seq<char>, b: Seq<char>) -> bool
    decreases a.len(),
{
    if b.len() == 0 {
        false
    } else if a.len() == 0 {
        true
    } else if a[0] != b[0] {
        (a[0] as int) < (b[0] as int)
    } else {
        text_before(a.drop_first(), b.drop_first())
    }
}

/// Whether `x` is listed before `y`: by weight, and among equal weights by
/// member.
pub open spec fn ranked_before(x: Ranked, y: Ranked) -> bool {
    x.score < y.score || (x.score == y.score && text_before(x.member, y.member))
}

/// The members of a sorted set, in listing order.
pub open spec fn members(set: Seq<Ranked>) -> Seq<Seq<char>> {
    Seq::new(set.len(), |i: int| set[i].member)
}

/// Whether `member` is in a sorted set.
pub open spec fn has_member(set: Seq<Ranked>, member: Seq<char>) -> bool {
    exists|i: int| 0 <= i < set.len() && (#[trigger] set[i]).member == member
}

/// Whether no member occurs twice in a sorted set.
pub open spec fn distinct_members(set: Seq<Ranked>) -> bool {
    forall|i: int, j: int|
        0 <= i < j < set.len() ==> (#[trigger] set[i]).member != (#[trigger] set[j]).member
}

/// Whether a sorted set is in listing order.
pub open spec fn in_order(set: Seq<Ranked>) -> bool {
    forall|i: int, j: int|
        0 <= i < j < set.len() ==> ranked_before(#[trigger] set[i], #[trigger] set[j])
}

/// A sorted set with every entry of `member` taken out.
pub open spec fn without(set: Seq<Ranked>, member: Seq<char>) -> Seq<Ranked>
    decreases set.len(),
{
    if set.len() == 0 {
        set
    } else if set[0].member == member {
        without(set.drop_first(), member)
    } else {
        seq![set[0]] + without(set.drop_first(), member)
    }
}

/// A sorted set with `entry` put in at its place in the listing order.
pub open spec fn placed(set: Seq<Ranked>, entry: Ranked) -> Seq<Ranked>
    decreases set.len(),
{
    if set.len() == 0 || ranked_before(entry, set[0]) {
        seq![entry] + set
    } else {
        seq![set[0]] + placed(set.drop_first(), entry)
    }
}

/// The reply of the backend to `command` when it holds `store`.
pub open spec fn reply_to(store: Store, command: CommandView) -> ReplyView {
    match command {
        CommandView::Get { key } => if !store.contains_key(key) {
            ReplyView::Nil
        } else {
            match store[key] {
                Entry::Text(text) => ReplyView::Value(RedisRtnView::Payload(text)),
                _ => ReplyView::Failed,
            }
        },
        CommandView::Put { key, value } => ReplyView::Value(
            RedisRtnView::Status(StatusView::String("OK"@)),
        ),
        CommandView::Del { key } => ReplyView::Value(
            RedisRtnView::Status(
                StatusView::Int(
                    if store.contains_key(key) {
                        1
                    } else {
                        0
                    },
                ),
            ),
        ),
        CommandView::HashGet { key, field } => if !store.contains_key(key) {
            ReplyView::Nil
        } else {
            match store[key] {
                Entry::Record(fields) => if fields.contains_key(field) {
                    ReplyView::Value(RedisRtnView::Payload(fields[field]))
                } else {
                    ReplyView::Nil
                },
                _ => ReplyView::Failed,
            }
        },
        CommandView::HashPut { key, field, value } => if !store.contains_key(key) {
            ReplyView::Value(RedisRtnView::Status(StatusView::Int(1)))
        } else {
            match store[key] {
                Entry::Record(fields) => ReplyView::Value(
                    RedisRtnView::Status(
                        StatusView::Int(
                            if fields.contains_key(field) {
                                0
                            } else {
                                1
                            },
                        ),
                    ),
                ),
                _ => ReplyView::Failed,
            }
        },
        CommandView::HashDel { key, field } => if !store.contains_key(key) {
            ReplyView::Value(RedisRtnView::Status(StatusView::Int(0)))
        } else {
            match store[key] {
                Entry::Record(fields) => ReplyView::Value(
                    RedisRtnView::Status(
                        StatusView::Int(
                            if fields.contains_key(field) {
                                1
                            } else {
                                0
                            },
                        ),
                    ),
                ),
                _ => ReplyView::Failed,
            }
        },
        CommandView::SortedAdd { key, member, score } => if !store.contains_key(key) {
            ReplyView::Value(RedisRtnView::Status(StatusView::Int(1)))
        } else {
            match store[key] {
                Entry::Sorted(set) => ReplyView::Value(
                    RedisRtnView::Status(
                        StatusView::Int(
                            if has_member(set, member) {
                                0
                            } else {
                                1
                            },
                        ),
                    ),
                ),
                _ => ReplyView::Failed,
            }
        },
        CommandView::SortedRemove { key, member } => if !store.contains_key(key) {
            ReplyView::Value(RedisRtnView::Status(StatusView::Int(0)))
        } else {
            match store[key] {
                Entry::Sorted(set) => ReplyView::Value(
                    RedisRtnView::Status(
                        StatusView::Int(
                            if has_member(set, member) {
                                1
                            } else {
                                0
                            },
                        ),
                    ),
                ),
                _ => ReplyView::Failed,
            }
        },
        CommandView::SortedRange { key } => if !store.contains_key(key) {
            ReplyView::Value(RedisRtnView::Payloads(Seq::empty()))
        } else {
            match store[key] {
                Entry::Sorted(set) => ReplyView::Value(RedisRtnView::Payloads(members(set))),
                _ => ReplyView::Failed,
            }
        },
    }
}

/// What the backend holds after `command`, when it held `store` before. A
/// command that fails changes nothing; a sorted set that loses its last
/// member is gone, and so is a record that loses its last field.
pub open spec fn after(store: Store, command: CommandView) -> Store {
    match command {
        CommandView::Get { key } => store,
        CommandView::HashGet { key, field } => store,
        CommandView::SortedRange { key } => store,
        CommandView::Put { key, value } => store.insert(key, Entry::Text(value)),
        CommandView::Del { key } => store.remove(key),
        CommandView::HashPut { key, field, value } => if !store.contains_key(key) {
            store.insert(key, Entry::Record(Map::empty().insert(field, value)))
        } else {
            match store[key] {
                Entry::Record(fields) => store.insert(
                    key,
                    Entry::Record(fields.insert(field, value)),
                ),
                _ => store,
            }
        },
        CommandView::HashDel { key, field } => if !store.contains_key(key) {
            store
        } else {
            match store[key] {
                Entry::Record(fields) => {
                    let rest = fields.remove(field);
                    if rest.dom() == Set::<Seq<char>>::empty() {
                        store.remove(key)
                    } else {
                        store.insert(key, Entry::Record(rest))
                    }
                },
                _ => store,
            }
        },
        CommandView::SortedAdd { key, member, score } => {
            let entry = Ranked { score, member };
            if !store.contains_key(key) {
                store.insert(key, Entry::Sorted(seq![entry]))
            } else {
                match store[key] {
                    Entry::Sorted(set) => store.insert(
                        key,
                        Entry::Sorted(placed(without(set, member), entry)),
                    ),
                    _ => store,
                }
            }
        },
        CommandView::SortedRemove { key, member } => if !store.contains_key(key) {
            store
        } else {
            match store[key] {
                Entry::Sorted(set) => {
                    let rest = without(set, member);
                    if rest.len() == 0 {
                        store.remove(key)
                    } else {
                        store.insert(key, Entry::Sorted(rest))
                    }
                },
                _ => store,
            }
        },
    }
}

/// Of two different texts one comes before the other.
pub proof fn lemma_text_order_total(a: Seq<char>, b: Seq<char>)
    ensures
        a != b ==> text_before(a, b) || text_before(b, a),
    decreases a.len(),
{
    if a.len() == 0 || b.len() == 0 {
        if a.len() == 0 && b.len() == 0 {
            assert(a =~= b);
        }
    } else if a[0] == b[0] {
        lemma_text_order_total(a.drop_first(), b.drop_first());
        if a.drop_first() == b.drop_first() {
            assert(a =~= seq![a[0]] + a.drop_first());
            assert(b =~= seq![b[0]] + b.drop_first());
        }
    }
}

/// The order of texts is transitive.
pub proof fn lemma_text_order_transitive(a: Seq<char>, b: Seq<char>, c: Seq<char>)
    requires
        text_before(a, b),
        text_before(b, c),
    ensures
        text_before(a, c),
    decreases a.len(),
{
    if a.len() > 0 && a[0] == b[0] && b[0] == c[0] {
        lemma_text_order_transitive(a.drop_first(), b.drop_first(), c.drop_first());
    }
}

/// The listing order is transitive, and of two entries with different
/// members one is listed before the other.
pub proof fn lemma_ranked_order(x: Ranked, y: Ranked, z: Ranked)
    ensures
        ranked_before(x, y) && ranked_before(y, z) ==> ranked_before(x, z),
        x.member != y.member ==> ranked_before(x, y) || ranked_before(y, x),
{
    lemma_text_order_total(x.member, y.member);
    if ranked_before(x, y) && ranked_before(y, z) && x.score == y.score && y.score == z.score {
        lemma_text_order_transitive(x.member, y.member, z.member);
    }
}

/// Membership, distinctness and order of a set, told from its first entry
/// and the rest.
pub proof fn lemma_first_and_rest(first: Ranked, rest: Seq<Ranked>)
    ensures
        forall|other: Seq<char>| #[trigger]
            has_member(seq![first] + rest, other) <==> (first.member == other || has_member(
                rest,
                other,
            )),
        distinct_members(seq![first] + rest) <==> (!has_member(rest, first.member)
            && distinct_members(rest)),
        in_order(seq![first] + rest) <==> ((forall|i: int|
            0 <= i < rest.len() ==> ranked_before(first, #[trigger] rest[i])) && in_order(rest)),
        forall|entry: Ranked| #[trigger]
            (seq![first] + rest).contains(entry) <==> (entry == first || rest.contains(entry)),
{
    let whole = seq![first] + rest;
    assert(whole[0] == first);
    assert(forall|i: int| 0 <= i < rest.len() ==> rest[i] == whole[i + 1]);
    assert forall|other: Seq<char>| #[trigger]
        has_member(whole, other) <==> (first.member == other || has_member(rest, other)) by {
        if has_member(rest, other) {
            let i = choose|i: int| 0 <= i < rest.len() && rest[i].member == other;
            assert(whole[i + 1].member == other);
        }
        if has_member(whole, other) && first.member != other {
            let i = choose|i: int| 0 <= i < whole.len() && whole[i].member == other;
            assert(rest[i - 1].member == other);
        }
    }
    assert forall|entry: Ranked| #[trigger]
        whole.contains(entry) <==> (entry == first || rest.contains(entry)) by {
        if rest.contains(entry) {
            let i = choose|i: int| 0 <= i < rest.len() && rest[i] == entry;
            assert(whole[i + 1] == entry);
        }
        if whole.contains(entry) && entry != first {
            let i = choose|i: int| 0 <= i < whole.len() && whole[i] == entry;
            assert(rest[i - 1] == entry);
        }
    }
    if distinct_members(whole) {
        if has_member(rest, first.member) {
            let i = choose|i: int| 0 <= i < rest.len() && rest[i].member == first.member;
            assert(whole[0].member != whole[i + 1].member);
        }
        assert forall|i: int, j: int| 0 <= i < j < rest.len() implies (#[trigger] rest[i]).member
            != (#[trigger] rest[j]).member by {
            assert(whole[i + 1].member != whole[j + 1].member);
        }
    }
    if !has_member(rest, first.member) && distinct_members(rest) {
        assert forall|i: int, j: int| 0 <= i < j < whole.len() implies (#[trigger] whole[i]).member
            != (#[trigger] whole[j]).member by {
            if i == 0 {
                assert(rest[j - 1].member == whole[j].member);
            } else {
                assert(rest[i - 1].member != rest[j - 1].member);
            }
        }
    }
    if in_order(whole) {
        assert forall|i: int| 0 <= i < rest.len() implies ranked_before(
            first,
            #[trigger] rest[i],
        ) by {
            assert(ranked_before(whole[0], whole[i + 1]));
        }
        assert forall|i: int, j: int| 0 <= i < j < rest.len() implies ranked_before(
            #[trigger] rest[i],
            #[trigger] rest[j],
        ) by {
            assert(ranked_before(whole[i + 1], whole[j + 1]));
        }
    }
    if (forall|i: int| 0 <= i < rest.len() ==> ranked_before(first, #[trigger] rest[i]))
        && in_order(rest) {
        assert forall|i: int, j: int| 0 <= i < j < whole.len() implies ranked_before(
            #[trigger] whole[i],
            #[trigger] whole[j],
        ) by {
            if i == 0 {
                assert(ranked_before(first, rest[j - 1]));
            } else {
                assert(ranked_before(rest[i - 1], rest[j - 1]));
            }
        }
    }
}

/// Taking a member out leaves exactly the other members, keeps them
/// distinct and in order, never lengthens the set, and changes nothing
/// where the member was not in it.
pub proof fn lemma_without(set: Seq<Ranked>, member: Seq<char>)
    ensures
        forall|other: Seq<char>| #[trigger]
            has_member(without(set, member), other) <==> (other != member && has_member(
                set,
                other,
            )),
        forall|entry: Ranked| #[trigger]
            without(set, member).contains(entry) ==> set.contains(entry),
        distinct_members(set) ==> distinct_members(without(set, member)),
        in_order(set) ==> in_order(without(set, member)),
        without(set, member).len() <= set.len(),
        !has_member(set, member) ==> without(set, member) == set,
    decreases set.len(),
{
    if set.len() > 0 {
        let rest = set.drop_first();
        let inner = without(rest, member);
        assert(set =~= seq![set[0]] + rest);
        lemma_first_and_rest(set[0], rest);
        lemma_without(rest, member);
        if set[0].member != member {
            lemma_first_and_rest(set[0], inner);
            if in_order(set) {
                assert forall|i: int| 0 <= i < inner.len() implies ranked_before(
                    set[0],
                    #[trigger] inner[i],
                ) by {
                    assert(inner.contains(inner[i]));
                    let j = choose|j: int| 0 <= j < rest.len() && rest[j] == inner[i];
                    assert(ranked_before(set[0], rest[j]));
                }
            }
        }
    }
}

/// Putting an entry in adds exactly its member and lengthens the set by
/// one. Where the member was not in the set before, the members stay
/// distinct and the set stays in order.
pub proof fn lemma_placed(set: Seq<Ranked>, entry: Ranked)
    ensures
        placed(set, entry).len() == set.len() + 1,
        forall|other: Seq<char>| #[trigger]
            has_member(placed(set, entry), other) <==> (other == entry.member || has_member(
                set,
                other,
            )),
        forall|found: Ranked| #[trigger]
            placed(set, entry).contains(found) ==> found == entry || set.contains(found),
        distinct_members(set) && !has_member(set, entry.member) ==> distinct_members(
            placed(set, entry),
        ),
        in_order(set) && !has_member(set, entry.member) ==> in_order(placed(set, entry)),
    decreases set.len(),
{
    if set.len() == 0 {
        lemma_first_and_rest(entry, set);
    } else {
        let rest = set.drop_first();
        let inner = placed(rest, entry);
        assert(set =~= seq![set[0]] + rest);
        lemma_first_and_rest(set[0], rest);
        if ranked_before(entry, set[0]) {
            lemma_first_and_rest(entry, set);
            if in_order(set) {
                assert forall|i: int| 0 <= i < set.len() implies ranked_before(
                    entry,
                    #[trigger] set[i],
                ) by {
                    if i > 0 {
                        assert(ranked_before(set[0], set[i]));
                        lemma_ranked_order(entry, set[0], set[i]);
                    }
                }
            }
        } else {
            lemma_placed(rest, entry);
            lemma_first_and_rest(set[0], inner);
            if in_order(set) && !has_member(set, entry.member) {
                lemma_ranked_order(set[0], entry, entry);
                assert forall|i: int| 0 <= i < inner.len() implies ranked_before(
                    set[0],
                    #[trigger] inner[i],
                ) by {
                    assert(inner.contains(inner[i]));
                    if inner[i] != entry {
                        let j = choose|j: int| 0 <= j < rest.len() && rest[j] == inner[i];
                        assert(ranked_before(set[0], rest[j]));
                    }
                }
            }
        }
    }
}

} // verus!
