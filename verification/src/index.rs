//! What a backend holds, read as an alias index and a store of bucket
//! records, and what it means for the two to agree.

use crate::backend::{
    bucket_key, data_field, lemma_all_key_shapes, mime_field, rsa_field, slang_key, slangs_key,
    SLANG_SCORE,
};
use crate::bucket::MetaChangeView;
use crate::store::{
    distinct_members, has_member, in_order, lemma_placed, lemma_without, members, placed,
    without, Entry, Ranked, Store,
};
use vstd::prelude::*;

verus! {

/// The identifier that an alias names, if it names one.
pub open spec fn resolve(store: Store, slang: Seq<char>) -> Option<Seq<char>> {
    if store.contains_key(slang_key(slang)) {
        match store[slang_key(slang)] {
            Entry::Text(id) => Some(id),
            _ => None,
        }
    } else {
        None
    }
}

/// The alias set of an identifier; empty where it has none.
pub open spec fn alias_set(store: Store, id: Seq<char>) -> Seq<Ranked> {
    if store.contains_key(slangs_key(id)) {
        match store[slangs_key(id)] {
            Entry::Sorted(set) => set,
            _ => Seq::empty(),
        }
    } else {
        Seq::empty()
    }
}

/// The aliases of an identifier, in listing order.
pub open spec fn aliases_of(store: Store, id: Seq<char>) -> Seq<Seq<char>> {
    members(alias_set(store, id))
}

/// Whether `slang` is in the alias set of `id`.
pub open spec fn is_alias_of(store: Store, slang: Seq<char>, id: Seq<char>) -> bool {
    has_member(alias_set(store, id), slang)
}

/// A field of the record of an identifier, if the record has it.
pub open spec fn field_of(store: Store, id: Seq<char>, field: Seq<char>) -> Option<Seq<char>> {
    if store.contains_key(bucket_key(id)) {
        match store[bucket_key(id)] {
            Entry::Record(fields) => if fields.contains_key(field) {
                Some(fields[field])
            } else {
                None
            },
            _ => None,
        }
    } else {
        None
    }
}

/// Whether an identifier has a record.
pub open spec fn has_record(store: Store, id: Seq<char>) -> bool {
    store.contains_key(bucket_key(id))
}

/// Whether `entry` is of the kind that belongs under `key`: under an alias
/// entry a text, under a record key a record with its content type and
/// payload, under an alias set key a sorted set that is not empty, lists no
/// member twice and is in listing order. Under a key of no such shape
/// anything fits.
pub open spec fn fits(key: Seq<char>, entry: Entry) -> bool {
    &&& forall|slang: Seq<char>| key == #[trigger] slang_key(slang) ==> entry is Text
    &&& forall|id: Seq<char>|
        key == #[trigger] bucket_key(id) ==> {
            &&& entry matches Entry::Record(fields)
            &&& fields.contains_key(mime_field())
            &&& fields.contains_key(data_field())
        }
    &&& forall|id: Seq<char>|
        key == #[trigger] slangs_key(id) ==> {
            &&& entry matches Entry::Sorted(set)
            &&& set.len() > 0
            &&& distinct_members(set)
            &&& in_order(set)
        }
}

/// Whether every key of one of the three shapes holds a value of the kind
/// that belongs under it: an alias entry a text, a record key a record with
/// its content type and payload, an alias set key a sorted set that is not
/// empty, lists no member twice and is in listing order.
pub open spec fn well_typed(store: Store) -> bool {
    &&& forall|slang: Seq<char>|
        store.contains_key(#[trigger] slang_key(slang)) ==> store[slang_key(slang)] is Text
    &&& forall|id: Seq<char>|
        store.contains_key(#[trigger] bucket_key(id)) ==> {
            &&& store[bucket_key(id)] matches Entry::Record(fields)
            &&& fields.contains_key(mime_field())
            &&& fields.contains_key(data_field())
        }
    &&& forall|id: Seq<char>|
        store.contains_key(#[trigger] slangs_key(id)) ==> {
            &&& store[slangs_key(id)] matches Entry::Sorted(set)
            &&& set.len() > 0
            &&& distinct_members(set)
            &&& in_order(set)
        }
}

/// A store stays well typed when every entry of it is either as it was in a
/// well-typed store or fits its key.
pub proof fn lemma_well_typed_kept(store: Store, next: Store)
    requires
        well_typed(store),
        forall|key: Seq<char>| #[trigger]
            next.contains_key(key) ==> (store.contains_key(key) && next[key] == store[key])
                || fits(key, next[key]),
    ensures
        well_typed(next),
{
    assert forall|slang: Seq<char>|
        next.contains_key(#[trigger] slang_key(slang)) implies next[slang_key(slang)] is Text by {
        if store.contains_key(slang_key(slang)) {
        }
    }
    assert forall|id: Seq<char>| next.contains_key(#[trigger] bucket_key(id)) implies {
        &&& next[bucket_key(id)] matches Entry::Record(fields)
        &&& fields.contains_key(mime_field())
        &&& fields.contains_key(data_field())
    } by {
        if store.contains_key(bucket_key(id)) {
        }
    }
    assert forall|id: Seq<char>| next.contains_key(#[trigger] slangs_key(id)) implies {
        &&& next[slangs_key(id)] matches Entry::Sorted(set)
        &&& set.len() > 0
        &&& distinct_members(set)
        &&& in_order(set)
    } by {
        if store.contains_key(slangs_key(id)) {
        }
    }
}

/// Whether the alias index and the records agree, but for the identifier
/// `spared`, which may have a record and no alias yet: every alias in the
/// alias set of an identifier names that identifier, every alias that names
/// an identifier is in its alias set, every identifier that is named has a
/// record, and every other record has at least one alias.
pub open spec fn coherent_apart_from(store: Store, spared: Option<Seq<char>>) -> bool {
    &&& well_typed(store)
    &&& forall|slang: Seq<char>, id: Seq<char>| #[trigger]
        is_alias_of(store, slang, id) ==> resolve(store, slang) == Some(id)
    &&& forall|slang: Seq<char>|
        (#[trigger] resolve(store, slang)) matches Some(id) ==> is_alias_of(store, slang, id)
            && has_record(store, id)
    &&& forall|id: Seq<char>| #[trigger]
        has_record(store, id) && spared != Some(id) ==> alias_set(store, id).len() > 0
}

/// Whether the alias index and the records agree, with no exception.
pub open spec fn coherent(store: Store) -> bool {
    coherent_apart_from(store, None)
}

/// The fields of the record of an identifier; none where it has no record.
pub open spec fn record_of(store: Store, id: Seq<char>) -> Map<Seq<char>, Seq<char>> {
    if store.contains_key(bucket_key(id)) {
        match store[bucket_key(id)] {
            Entry::Record(fields) => fields,
            _ => Map::empty(),
        }
    } else {
        Map::empty()
    }
}

/// The fields of the record of an identifier once a bucket has been written
/// to it: the content type and the payload as given, the public key as
/// given or not at all, and whatever other field the record held.
pub open spec fn record_for(
    store: Store,
    id: Seq<char>,
    mime: Seq<char>,
    data: Seq<char>,
    rsa: Option<Seq<char>>,
) -> Map<Seq<char>, Seq<char>> {
    let written = record_of(store, id).insert(mime_field(), mime).insert(data_field(), data);
    match rsa {
        Some(key) => written.insert(rsa_field(), key),
        None => written.remove(rsa_field()),
    }
}

/// The store after the record of an identifier has been set to `fields`.
pub open spec fn put(store: Store, id: Seq<char>, fields: Map<Seq<char>, Seq<char>>) -> Store {
    store.insert(bucket_key(id), Entry::Record(fields))
}

/// The store after an alias has been recorded for an identifier.
pub open spec fn bound(store: Store, change: MetaChangeView) -> Store {
    let entry = Ranked { score: SLANG_SCORE as int, member: change.slang };
    store.insert(slang_key(change.slang), Entry::Text(change.id)).insert(
        slangs_key(change.id),
        Entry::Sorted(placed(without(alias_set(store, change.id), change.slang), entry)),
    )
}

/// The store after an alias has been struck from the index and from the
/// alias set of an identifier.
pub open spec fn unbound(store: Store, change: MetaChangeView) -> Store {
    let rest = without(alias_set(store, change.id), change.slang);
    let struck = store.remove(slang_key(change.slang));
    if !store.contains_key(slangs_key(change.id)) {
        struck
    } else if rest.len() == 0 {
        struck.remove(slangs_key(change.id))
    } else {
        struck.insert(slangs_key(change.id), Entry::Sorted(rest))
    }
}

/// The keys that go when an identifier is deleted: its record, its alias
/// set, and the entry of each of its aliases.
pub open spec fn doomed_keys(store: Store, id: Seq<char>) -> Set<Seq<char>> {
    Set::new(
        |key: Seq<char>|
            key == bucket_key(id) || key == slangs_key(id) || exists|i: int|
                0 <= i < aliases_of(store, id).len() && key == slang_key(
                    #[trigger] aliases_of(store, id)[i],
                ),
    )
}

/// The store after an identifier has been deleted with all of its aliases.
pub open spec fn dropped(store: Store, id: Seq<char>) -> Store {
    store.remove_keys(doomed_keys(store, id))
}

/// Whether detaching the alias of `change` passes its guards on `store`:
/// the identifier has an alias, the alias is not its only one, and the
/// alias does not name another identifier.
pub open spec fn may_detach(store: Store, change: MetaChangeView) -> bool {
    &&& aliases_of(store, change.id).len() > 0
    &&& aliases_of(store, change.id) != seq![change.slang]
    &&& (resolve(store, change.slang) is None || resolve(store, change.slang) == Some(change.id))
}

/// Setting the record of an identifier to fields that include the content
/// type and the payload keeps the store well typed and changes nothing
/// else: no alias, no alias set, no other record.
pub proof fn lemma_put(store: Store, id: Seq<char>, fields: Map<Seq<char>, Seq<char>>)
    requires
        well_typed(store),
        fields.contains_key(mime_field()),
        fields.contains_key(data_field()),
    ensures
        well_typed(put(store, id, fields)),
        has_record(put(store, id, fields), id),
        record_of(put(store, id, fields), id) == fields,
        forall|slang: Seq<char>| #[trigger]
            resolve(put(store, id, fields), slang) == resolve(store, slang),
        forall|other: Seq<char>| #[trigger]
            alias_set(put(store, id, fields), other) == alias_set(store, other),
        forall|other: Seq<char>|
            other != id ==> #[trigger] has_record(put(store, id, fields), other) == has_record(
                store,
                other,
            ),
        forall|other: Seq<char>|
            other != id ==> #[trigger] record_of(put(store, id, fields), other) == record_of(
                store,
                other,
            ),
{
    let next = put(store, id, fields);
    lemma_all_key_shapes();
    lemma_well_typed_kept(store, next);
    assert forall|slang: Seq<char>| #[trigger] resolve(next, slang) == resolve(store, slang) by {}
    assert forall|other: Seq<char>| #[trigger]
        alias_set(next, other) == alias_set(store, other) by {}
    assert forall|other: Seq<char>| other != id implies #[trigger] has_record(next, other)
        == has_record(store, other) by {}
    assert forall|other: Seq<char>| other != id implies #[trigger] record_of(next, other)
        == record_of(store, other) by {}
}

/// Setting the record of an identifier leaves a store coherent but for that
/// identifier, which then has a record and may have no alias yet. Where the
/// identifier had a record before, a store that was coherent throughout
/// stays so.
pub proof fn lemma_put_keeps_coherence(
    store: Store,
    id: Seq<char>,
    fields: Map<Seq<char>, Seq<char>>,
)
    requires
        coherent_apart_from(store, Some(id)),
        fields.contains_key(mime_field()),
        fields.contains_key(data_field()),
    ensures
        coherent_apart_from(put(store, id, fields), Some(id)),
        coherent(store) && has_record(store, id) ==> coherent(put(store, id, fields)),
{
    let next = put(store, id, fields);
    lemma_put(store, id, fields);
    assert forall|slang: Seq<char>, other: Seq<char>| #[trigger]
        is_alias_of(next, slang, other) implies resolve(next, slang) == Some(other) by {
        assert(is_alias_of(store, slang, other));
    }
    assert forall|slang: Seq<char>| (#[trigger] resolve(next, slang)) matches Some(other) implies {
        let other = resolve(next, slang)->0;
        is_alias_of(next, slang, other) && has_record(next, other)
    } by {
        let other = resolve(next, slang)->0;
        assert(resolve(store, slang) == Some(other));
        assert(is_alias_of(store, slang, other));
        assert(has_record(store, other));
    }
    assert forall|other: Seq<char>| #[trigger]
        has_record(next, other) && Some(id) != Some(other) implies alias_set(next, other).len()
        > 0 by {
        assert(has_record(store, other));
    }
    if coherent(store) && has_record(store, id) {
        assert forall|other: Seq<char>| #[trigger] has_record(next, other) implies alias_set(
            next,
            other,
        ).len() > 0 by {
            assert(has_record(store, other));
        }
    }
}

/// Recording an alias for an identifier keeps the store well typed. The
/// alias then names the identifier and is in its alias set; nothing else in
/// the index and no record is changed. In particular the alias stays in the
/// alias set of any other identifier that listed it.
pub proof fn lemma_bound(store: Store, change: MetaChangeView)
    requires
        well_typed(store),
    ensures
        well_typed(bound(store, change)),
        resolve(bound(store, change), change.slang) == Some(change.id),
        is_alias_of(bound(store, change), change.slang, change.id),
        alias_set(bound(store, change), change.id) == placed(
            without(alias_set(store, change.id), change.slang),
            Ranked { score: SLANG_SCORE as int, member: change.slang },
        ),
        forall|other: Seq<char>|
            other != change.slang ==> (#[trigger] is_alias_of(
                bound(store, change),
                other,
                change.id,
            ) <==> is_alias_of(store, other, change.id)),
        forall|other: Seq<char>|
            other != change.slang ==> #[trigger] resolve(bound(store, change), other) == resolve(
                store,
                other,
            ),
        forall|other: Seq<char>|
            other != change.id ==> #[trigger] alias_set(bound(store, change), other) == alias_set(
                store,
                other,
            ),
        forall|other: Seq<char>| #[trigger]
            has_record(bound(store, change), other) == has_record(store, other),
        forall|other: Seq<char>| #[trigger]
            record_of(bound(store, change), other) == record_of(store, other),
        !is_alias_of(store, change.slang, change.id) ==> aliases_of(
            bound(store, change),
            change.id,
        ).len() == aliases_of(store, change.id).len() + 1,
{
    let next = bound(store, change);
    let old_set = alias_set(store, change.id);
    let entry = Ranked { score: SLANG_SCORE as int, member: change.slang };
    let rest = without(old_set, change.slang);
    let new_set = placed(rest, entry);
    lemma_all_key_shapes();
    lemma_without(old_set, change.slang);
    lemma_placed(rest, entry);
    if store.contains_key(slangs_key(change.id)) {
        assert(distinct_members(old_set) && in_order(old_set));
    }
    lemma_well_typed_kept(store, next);
    assert(alias_set(next, change.id) == new_set);
    assert forall|other: Seq<char>| other != change.id implies #[trigger] alias_set(next, other)
        == alias_set(store, other) by {}
    assert forall|slang: Seq<char>| slang != change.slang implies #[trigger] resolve(next, slang)
        == resolve(store, slang) by {}
    assert forall|id: Seq<char>| #[trigger] has_record(next, id) == has_record(store, id) by {}
    assert forall|id: Seq<char>| #[trigger] record_of(next, id) == record_of(store, id) by {}
    assert forall|other: Seq<char>| other != change.slang implies (#[trigger] is_alias_of(
        next,
        other,
        change.id,
    ) <==> is_alias_of(store, other, change.id)) by {
        assert(has_member(new_set, other) <==> has_member(rest, other));
    }
}

/// Recording an alias that is free, or that names this identifier already,
/// for an identifier that has a record makes the store coherent, the
/// identifier included.
pub proof fn lemma_bound_keeps_coherence(store: Store, change: MetaChangeView)
    requires
        coherent_apart_from(store, Some(change.id)),
        has_record(store, change.id),
        resolve(store, change.slang) is None || resolve(store, change.slang) == Some(change.id),
    ensures
        coherent(bound(store, change)),
{
    let next = bound(store, change);
    lemma_bound(store, change);
    assert forall|slang: Seq<char>, id: Seq<char>| #[trigger]
        is_alias_of(next, slang, id) implies resolve(next, slang) == Some(id) by {
        if slang != change.slang || id != change.id {
            assert(is_alias_of(store, slang, id));
            assert(resolve(store, slang) == Some(id));
        }
    }
    assert forall|slang: Seq<char>| (#[trigger] resolve(next, slang)) matches Some(id) implies {
        let id = resolve(next, slang)->0;
        is_alias_of(next, slang, id) && has_record(next, id)
    } by {
        let id = resolve(next, slang)->0;
        if slang != change.slang {
            assert(resolve(store, slang) == Some(id));
            assert(is_alias_of(store, slang, id));
        }
    }
    assert forall|id: Seq<char>| #[trigger] has_record(next, id) implies alias_set(next, id).len()
        > 0 by {
        assert(has_record(store, id));
    }
}

/// Striking an alias that passes the guards keeps a coherent store
/// coherent and leaves the identifier at least one alias.
pub proof fn lemma_unbound_keeps_coherence(store: Store, change: MetaChangeView)
    requires
        coherent(store),
        may_detach(store, change),
    ensures
        coherent(unbound(store, change)),
        alias_set(unbound(store, change), change.id) == without(
            alias_set(store, change.id),
            change.slang,
        ),
        aliases_of(unbound(store, change), change.id).len() > 0,
        resolve(unbound(store, change), change.slang) is None,
        !is_alias_of(unbound(store, change), change.slang, change.id),
        forall|other: Seq<char>|
            other != change.slang ==> (#[trigger] is_alias_of(
                unbound(store, change),
                other,
                change.id,
            ) <==> is_alias_of(store, other, change.id)),
        forall|other: Seq<char>|
            other != change.slang ==> #[trigger] resolve(unbound(store, change), other)
                == resolve(store, other),
        forall|other: Seq<char>| #[trigger]
            has_record(unbound(store, change), other) == has_record(store, other),
{
    let next = unbound(store, change);
    let set = alias_set(store, change.id);
    let rest = without(set, change.slang);
    lemma_all_key_shapes();
    lemma_without(set, change.slang);
    assert(store.contains_key(slangs_key(change.id)));
    assert(distinct_members(set) && in_order(set));
    assert(rest.len() > 0) by {
        if set[0].member != change.slang {
            assert(has_member(set, set[0].member));
            assert(has_member(rest, set[0].member));
        } else {
            if set.len() == 1 {
                assert(members(set) =~= seq![change.slang]);
            }
            assert(set[1].member != set[0].member);
            assert(has_member(set, set[1].member));
            assert(has_member(rest, set[1].member));
        }
    }
    lemma_well_typed_kept(store, next);
    assert(alias_set(next, change.id) == rest);
    assert forall|id: Seq<char>| id != change.id implies alias_set(next, id) == alias_set(
        store,
        id,
    ) by {}
    assert forall|slang: Seq<char>| slang != change.slang implies #[trigger] resolve(next, slang)
        == resolve(store, slang) by {}
    assert(resolve(next, change.slang) is None);
    assert forall|id: Seq<char>| #[trigger] has_record(next, id) == has_record(store, id) by {}
    assert forall|slang: Seq<char>, id: Seq<char>| #[trigger]
        is_alias_of(next, slang, id) implies resolve(next, slang) == Some(id) by {
        assert(is_alias_of(store, slang, id));
        if slang == change.slang {
            assert(resolve(store, slang) == Some(id));
        }
    }
    assert forall|slang: Seq<char>| (#[trigger] resolve(next, slang)) matches Some(id) implies {
        let id = resolve(next, slang)->0;
        is_alias_of(next, slang, id) && has_record(next, id)
    } by {
        let id = resolve(next, slang)->0;
        assert(resolve(store, slang) == Some(id));
        assert(is_alias_of(store, slang, id));
    }
    assert forall|id: Seq<char>| #[trigger] has_record(next, id) implies alias_set(next, id).len()
        > 0 by {
        assert(has_record(store, id));
    }
}

/// Deleting an identifier with all of its aliases keeps a coherent store
/// coherent; afterwards the identifier has no record and no alias, none of
/// its former aliases names anything, and everything else is as it was.
pub proof fn lemma_dropped(store: Store, id: Seq<char>)
    requires
        coherent(store),
    ensures
        coherent(dropped(store, id)),
        !has_record(dropped(store, id), id),
        alias_set(dropped(store, id), id).len() == 0,
        forall|slang: Seq<char>| #[trigger]
            is_alias_of(store, slang, id) ==> resolve(dropped(store, id), slang) is None,
        forall|slang: Seq<char>|
            !is_alias_of(store, slang, id) ==> #[trigger] resolve(dropped(store, id), slang)
                == resolve(store, slang),
        forall|other: Seq<char>|
            other != id ==> #[trigger] alias_set(dropped(store, id), other) == alias_set(
                store,
                other,
            ),
        forall|other: Seq<char>|
            other != id ==> #[trigger] has_record(dropped(store, id), other) == has_record(
                store,
                other,
            ),
{
    let next = dropped(store, id);
    let doomed = doomed_keys(store, id);
    let listed = aliases_of(store, id);
    let set = alias_set(store, id);
    lemma_all_key_shapes();
    lemma_well_typed_kept(store, next);
    assert forall|slang: Seq<char>| #[trigger] is_alias_of(store, slang, id) implies doomed.contains(
        slang_key(slang),
    ) by {
        let i = choose|i: int| 0 <= i < set.len() && set[i].member == slang;
        assert(listed[i] == slang);
    }
    assert forall|slang: Seq<char>| !is_alias_of(store, slang, id) implies !doomed.contains(
        slang_key(slang),
    ) by {
        if doomed.contains(slang_key(slang)) {
            let i = choose|i: int| 0 <= i < listed.len() && slang_key(slang) == slang_key(listed[i]);
            assert(set[i].member == slang);
        }
    }
    assert forall|other: Seq<char>| other != id implies !doomed.contains(slangs_key(other))
        && !doomed.contains(bucket_key(other)) by {}
    assert forall|other: Seq<char>| other != id implies #[trigger] alias_set(next, other)
        == alias_set(store, other) by {}
    assert forall|slang: Seq<char>, other: Seq<char>| #[trigger]
        is_alias_of(next, slang, other) implies resolve(next, slang) == Some(other) by {
        assert(other != id);
        assert(is_alias_of(store, slang, other));
        assert(resolve(store, slang) == Some(other));
        if is_alias_of(store, slang, id) {
            assert(resolve(store, slang) == Some(id));
        }
    }
    assert forall|slang: Seq<char>| (#[trigger] resolve(next, slang)) matches Some(other) implies {
        let other = resolve(next, slang)->0;
        is_alias_of(next, slang, other) && has_record(next, other)
    } by {
        let other = resolve(next, slang)->0;
        assert(!is_alias_of(store, slang, id));
        assert(resolve(store, slang) == Some(other));
        assert(is_alias_of(store, slang, other));
    }
    assert forall|other: Seq<char>| #[trigger] has_record(next, other) implies alias_set(
        next,
        other,
    ).len() > 0 by {
        assert(has_record(store, other));
    }
}

} // verus!
