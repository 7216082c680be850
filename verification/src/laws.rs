//! What holds of the bucket operations when they are run, command by
//! command, against the model backend.

use crate::alias::{BindingView, SlangAdditionView, SlangRemovalView};
use crate::backend::{
    bucket_key, data_field, lemma_all_key_shapes, lemma_fields_differ, lemma_key_shapes,
    mime_field, rsa_field, slang_key, slangs_key, CommandView, ReplyView,
};
use crate::bucket::{
    field_error, run, BucketContextView, BucketMetaView, BucketView, ErrorKind, Label,
    MetaChangeView, NewBucketView, Trace,
};
use crate::create::CreationView;
use crate::delete::DeletionView;
use crate::hash::{content_id, slang_of};
use crate::index::{
    alias_set, aliases_of, bound, coherent, dropped, field_of, has_record, is_alias_of,
    lemma_bound, lemma_bound_keeps_coherence, lemma_dropped, lemma_put,
    lemma_put_keeps_coherence, lemma_unbound_keeps_coherence, may_detach, put, record_for,
    record_of, resolve, unbound, well_typed,
};
use crate::store::after;
use crate::query::{ContextQueryView, MetaQueryView};
use crate::store::{members, Store};
use vstd::prelude::*;

verus! {

/// The outcome of reading the content behind `slang`, and the store after.
pub open spec fn context_read(store: Store, slang: Seq<char>) -> (
    Trace<ContextQueryView, BucketContextView>,
    Store,
) {
    run(
        |state: ContextQueryView, reply: ReplyView| state.step(reply),
        ContextQueryView::start(slang),
        store,
        3,
    )
}

/// The outcome of reading the metadata behind `slang`, and the store after.
pub open spec fn meta_read(store: Store, slang: Seq<char>) -> (
    Trace<MetaQueryView, BucketMetaView>,
    Store,
) {
    run(
        |state: MetaQueryView, reply: ReplyView| state.step(reply),
        MetaQueryView::start(slang),
        store,
        3,
    )
}

/// The outcome of creating a bucket, and the store after.
pub open spec fn creation(store: Store, bucket: NewBucketView) -> (
    Trace<CreationView, BucketMetaView>,
    Store,
) {
    run(
        |state: CreationView, reply: ReplyView| state.step(reply),
        CreationView::start(bucket),
        store,
        6,
    )
}

/// The outcome of attaching an alias, and the store after.
pub open spec fn addition(store: Store, change: MetaChangeView) -> (
    Trace<SlangAdditionView, BucketMetaView>,
    Store,
) {
    run(
        |state: SlangAdditionView, reply: ReplyView| state.step(reply),
        SlangAdditionView::start(change),
        store,
        6,
    )
}

/// The outcome of detaching an alias, and the store after.
pub open spec fn removal(store: Store, change: MetaChangeView) -> (
    Trace<SlangRemovalView, BucketMetaView>,
    Store,
) {
    run(
        |state: SlangRemovalView, reply: ReplyView| state.step(reply),
        SlangRemovalView::start(change),
        store,
        6,
    )
}

/// Reading a bucket back. On a well-typed store, creating a bucket
/// succeeds, and reading the content behind the derived alias right after
/// returns the identifier of the content with the payload and the content
/// type that were given.
pub proof fn law_create_then_read(store: Store, bucket: NewBucketView)
    requires
        well_typed(store),
    ensures
        creation(store, bucket).0 is Done,
        creation(store, bucket).0->Done_0 matches Ok(meta) && meta.id == content_id(bucket.data)
            && meta.rsa == bucket.rsa,
        context_read(creation(store, bucket).1, slang_of(content_id(bucket.data))).0
            == Trace::<ContextQueryView, BucketContextView>::Done(
            Ok(
                BucketContextView {
                    id: content_id(bucket.data),
                    data: bucket.data,
                    mime: bucket.mime,
                },
            ),
        ),
{
    let id = content_id(bucket.data);
    let slang = slang_of(id);
    lemma_fields_differ();
    lemma_key_shapes(slang, id);
    lemma_key_shapes(id, id);
    lemma_key_shapes(id, slang);
    reveal_with_fuel(run, 7);
}

/// Attaching an alias. On a coherent store the attempt is refused with
/// `NotFound` where the identifier has no record, and with `AlreadyExists`
/// where the alias already names an identifier; either way nothing is
/// changed. Otherwise the alias is recorded, the metadata returned lists the
/// aliases as they then are, and the store is coherent again.
pub proof fn law_attach(store: Store, change: MetaChangeView)
    requires
        coherent(store),
    ensures
        !has_record(store, change.id) ==> addition(store, change) == (
            Trace::<SlangAdditionView, BucketMetaView>::Done(
                Err(field_error(ErrorKind::NotFound, Label::NoId)),
            ),
            store,
        ),
        has_record(store, change.id) && resolve(store, change.slang) is Some ==> addition(
            store,
            change,
        ) == (
            Trace::<SlangAdditionView, BucketMetaView>::Done(
                Err(field_error(ErrorKind::AlreadyExists, Label::SlangExists)),
            ),
            store,
        ),
        has_record(store, change.id) && resolve(store, change.slang) is None ==> {
            let next = addition(store, change).1;
            &&& next == bound(store, change)
            &&& addition(store, change).0 == Trace::<SlangAdditionView, BucketMetaView>::Done(
                Ok(
                    BucketMetaView {
                        id: change.id,
                        slang: aliases_of(next, change.id),
                        rsa: field_of(store, change.id, rsa_field()),
                    },
                ),
            )
            &&& resolve(next, change.slang) == Some(change.id)
            &&& is_alias_of(next, change.slang, change.id)
            &&& aliases_of(next, change.id).len() == aliases_of(store, change.id).len() + 1
        },
        coherent(addition(store, change).1),
        forall|other: Seq<char>| #[trigger]
            has_record(addition(store, change).1, other) == has_record(store, other),
{
    lemma_fields_differ();
    lemma_all_key_shapes();
    reveal_with_fuel(run, 7);
    if has_record(store, change.id) && resolve(store, change.slang) is None {
        if is_alias_of(store, change.slang, change.id) {
            assert(resolve(store, change.slang) == Some(change.id));
        }
        lemma_bound(store, change);
        lemma_bound_keeps_coherence(store, change);
    }
}

/// Detaching an alias. On a coherent store the attempt is refused with
/// `Unsupported` where the alias is the only one of the identifier, with
/// `NotFound` where the identifier has no alias, and with `Unsupported`
/// where the alias names another identifier; each time nothing is changed.
/// Otherwise the alias names nothing afterwards, the other aliases of the
/// identifier stay, at least one of them is left, and the metadata returned
/// lists them. The store is coherent again in every case.
pub proof fn law_detach(store: Store, change: MetaChangeView)
    requires
        coherent(store),
    ensures
        aliases_of(store, change.id) == seq![change.slang] ==> removal(store, change) == (
            Trace::<SlangRemovalView, BucketMetaView>::Done(
                Err(field_error(ErrorKind::Unsupported, Label::IdLastSlang)),
            ),
            store,
        ),
        aliases_of(store, change.id).len() == 0 ==> removal(store, change) == (
            Trace::<SlangRemovalView, BucketMetaView>::Done(
                Err(field_error(ErrorKind::NotFound, Label::NoId)),
            ),
            store,
        ),
        aliases_of(store, change.id).len() > 0 && aliases_of(store, change.id) != seq![
            change.slang,
        ] && resolve(store, change.slang) is Some && resolve(store, change.slang) != Some(
            change.id,
        ) ==> removal(store, change) == (
            Trace::<SlangRemovalView, BucketMetaView>::Done(
                Err(field_error(ErrorKind::Unsupported, Label::IdSlangMismatch)),
            ),
            store,
        ),
        may_detach(store, change) ==> {
            let next = removal(store, change).1;
            &&& next == unbound(store, change)
            &&& removal(store, change).0 == Trace::<SlangRemovalView, BucketMetaView>::Done(
                Ok(
                    BucketMetaView {
                        id: change.id,
                        slang: aliases_of(next, change.id),
                        rsa: field_of(store, change.id, rsa_field()),
                    },
                ),
            )
            &&& resolve(next, change.slang) is None
            &&& !is_alias_of(next, change.slang, change.id)
            &&& forall|other: Seq<char>|
                other != change.slang ==> (#[trigger] is_alias_of(next, other, change.id)
                    <==> is_alias_of(store, other, change.id))
            &&& aliases_of(next, change.id).len() > 0
        },
        coherent(removal(store, change).1),
        forall|other: Seq<char>| #[trigger]
            has_record(removal(store, change).1, other) == has_record(store, other),
{
    lemma_fields_differ();
    lemma_all_key_shapes();
    reveal_with_fuel(run, 7);
    let set = alias_set(store, change.id);
    if aliases_of(store, change.id) == seq![change.slang] {
        assert(seq![change.slang].len() == 1);
        assert(members(set).len() == 1);
        assert(store.contains_key(slangs_key(change.id)));
    }
    if may_detach(store, change) {
        lemma_unbound_keeps_coherence(store, change);
        assert(store.contains_key(slangs_key(change.id)));
    }
}

/// The store after a bucket has been created: its record set to what was
/// given, then its derived alias recorded.
pub open spec fn created(store: Store, bucket: NewBucketView) -> Store {
    let id = content_id(bucket.data);
    bound(
        put(store, id, record_for(store, id, bucket.mime, bucket.data, bucket.rsa)),
        MetaChangeView { id, slang: slang_of(id) },
    )
}

/// Creating a bucket. On every well-typed store creation succeeds. The
/// record then holds the content type and the payload that were given, and
/// the public key exactly as given: the key where one was given, no key
/// where none was, whatever the record held before. The derived alias names
/// the identifier and is one of its aliases, and the metadata returned
/// lists the aliases as they then are. No other alias, no other alias set
/// and no other record is changed; an alias set of another identifier that
/// listed the derived alias lists it still.
pub proof fn law_create(store: Store, bucket: NewBucketView)
    requires
        well_typed(store),
    ensures
        ({
            let id = content_id(bucket.data);
            let slang = slang_of(id);
            let next = creation(store, bucket).1;
            &&& next == created(store, bucket)
            &&& well_typed(next)
            &&& creation(store, bucket).0 == Trace::<CreationView, BucketMetaView>::Done(
                Ok(BucketMetaView { id, slang: aliases_of(next, id), rsa: bucket.rsa }),
            )
            &&& field_of(next, id, mime_field()) == Some(bucket.mime)
            &&& field_of(next, id, data_field()) == Some(bucket.data)
            &&& field_of(next, id, rsa_field()) == bucket.rsa
            &&& resolve(next, slang) == Some(id)
            &&& is_alias_of(next, slang, id)
            &&& forall|other: Seq<char>|
                other != slang ==> #[trigger] resolve(next, other) == resolve(store, other)
            &&& forall|other: Seq<char>|
                other != slang ==> (#[trigger] is_alias_of(next, other, id) <==> is_alias_of(
                    store,
                    other,
                    id,
                ))
            &&& forall|other: Seq<char>|
                other != id ==> #[trigger] alias_set(next, other) == alias_set(store, other)
            &&& forall|other: Seq<char>|
                other != id ==> #[trigger] record_of(next, other) == record_of(store, other)
        }),
{
    let id = content_id(bucket.data);
    let change = MetaChangeView { id, slang: slang_of(id) };
    let fields = record_for(store, id, bucket.mime, bucket.data, bucket.rsa);
    let recorded = put(store, id, fields);
    lemma_fields_differ();
    lemma_all_key_shapes();
    lemma_put(store, id, fields);
    lemma_bound(recorded, change);
    let mime_written = after(
        store,
        CommandView::HashPut {
            key: bucket_key(id),
            field: mime_field(),
            value: bucket.mime,
        },
    );
    let data_written = after(
        mime_written,
        CommandView::HashPut {
            key: bucket_key(id),
            field: data_field(),
            value: bucket.data,
        },
    );
    let key_settled = after(data_written, CreationView::key_command(id, bucket.rsa));
    assert(fields.contains_key(mime_field()));
    assert(key_settled =~= recorded);
    reveal_with_fuel(run, 7);
}

/// Creating a bucket and coherence. On a coherent store in which the
/// derived alias is free, or names this content already, the store is
/// coherent again after creation. Where the derived alias names another
/// identifier, creation takes the alias over: it then names the new
/// identifier while the alias set of the other still lists it, and the
/// store is coherent no more.
pub proof fn law_create_and_coherence(store: Store, bucket: NewBucketView)
    requires
        coherent(store),
    ensures
        ({
            let id = content_id(bucket.data);
            let slang = slang_of(id);
            let next = creation(store, bucket).1;
            &&& (resolve(store, slang) is None || resolve(store, slang) == Some(id)) ==> coherent(
                next,
            )
            &&& (resolve(store, slang) is Some && resolve(store, slang) != Some(id)) ==> {
                &&& resolve(next, slang) == Some(id)
                &&& is_alias_of(next, slang, resolve(store, slang)->0)
                &&& !coherent(next)
            }
        }),
{
    let id = content_id(bucket.data);
    let slang = slang_of(id);
    let change = MetaChangeView { id, slang };
    let fields = record_for(store, id, bucket.mime, bucket.data, bucket.rsa);
    let recorded = put(store, id, fields);
    lemma_fields_differ();
    law_create(store, bucket);
    lemma_put(store, id, fields);
    lemma_put_keeps_coherence(store, id, fields);
    lemma_bound(recorded, change);
    if resolve(store, slang) is None || resolve(store, slang) == Some(id) {
        lemma_bound_keeps_coherence(recorded, change);
    } else {
        let other = resolve(store, slang)->0;
        assert(is_alias_of(store, slang, other));
        assert(alias_set(recorded, other) == alias_set(store, other));
        assert(is_alias_of(created(store, bucket), slang, other));
    }
}

/// The steps of a deletion, as a function of state and reply.
pub open spec fn deletion_steps() -> spec_fn(DeletionView, ReplyView) -> Trace<
    DeletionView,
    BucketView,
> {
    |state: DeletionView, reply: ReplyView| state.step(reply)
}

/// The outcome of deleting a bucket, and the store after.
pub open spec fn deletion(store: Store, id: Seq<char>) -> (Trace<DeletionView, BucketView>, Store) {
    run(deletion_steps(), DeletionView::start(id), store, 9 + aliases_of(store, id).len())
}

/// The keys that are still to go once the aliases before `next` have been
/// struck: the entries of the aliases from `next` on, and the alias set.
pub open spec fn keys_left(id: Seq<char>, slang: Seq<Seq<char>>, next: nat) -> Set<Seq<char>> {
    Set::new(
        |key: Seq<char>|
            key == slangs_key(id) || exists|i: int|
                next <= i < slang.len() && key == slang_key(#[trigger] slang[i]),
    )
}

/// Once the record is gone, a deletion strikes every alias that is left,
/// then the alias set, and returns the bucket it read before.
pub proof fn lemma_unbinding(
    store: Store,
    id: Seq<char>,
    slang: Seq<Seq<char>>,
    next: nat,
    bucket: BucketView,
)
    requires
        next <= slang.len(),
    ensures
        run(
            deletion_steps(),
            DeletionView::unbind_from(id, slang, next, bucket),
            store,
            (slang.len() - next + 1) as nat,
        ) == (
            Trace::<DeletionView, BucketView>::Done(Ok(bucket)),
            store.remove_keys(keys_left(id, slang, next)),
        ),
    decreases slang.len() - next,
{
    reveal_with_fuel(run, 2);
    if next < slang.len() {
        let struck = store.remove(slang_key(slang[next as int]));
        lemma_unbinding(struck, id, slang, next + 1, bucket);
        assert(struck.remove_keys(keys_left(id, slang, next + 1)) =~= store.remove_keys(
            keys_left(id, slang, next),
        ));
    } else {
        assert(store.remove(slangs_key(id)) =~= store.remove_keys(keys_left(id, slang, next)));
    }
}

/// Deleting a bucket. On a coherent store the attempt is refused with
/// `NotFound`, and nothing is changed, where the identifier has no alias.
/// Otherwise the bucket is returned as it was before, and afterwards the
/// identifier has no record and no alias, none of its former aliases names
/// anything, so that a read through any of them ends in `NotFound`, and the
/// store is coherent again.
pub proof fn law_delete(store: Store, id: Seq<char>)
    requires
        coherent(store),
    ensures
        aliases_of(store, id).len() == 0 ==> deletion(store, id) == (
            Trace::<DeletionView, BucketView>::Done(
                Err(field_error(ErrorKind::NotFound, Label::NoId)),
            ),
            store,
        ),
        aliases_of(store, id).len() > 0 ==> deletion(store, id) == (
            Trace::<DeletionView, BucketView>::Done(
                Ok(
                    BucketView {
                        bucket_context: BucketContextView {
                            id,
                            data: record_of(store, id)[data_field()],
                            mime: record_of(store, id)[mime_field()],
                        },
                        bucket_meta: BucketMetaView {
                            id,
                            slang: aliases_of(store, id),
                            rsa: field_of(store, id, rsa_field()),
                        },
                    },
                ),
            ),
            dropped(store, id),
        ),
        coherent(deletion(store, id).1),
        aliases_of(store, id).len() > 0 ==> !has_record(deletion(store, id).1, id) && aliases_of(
            deletion(store, id).1,
            id,
        ).len() == 0,
        forall|i: int|
            0 <= i < aliases_of(store, id).len() ==> context_read(
                deletion(store, id).1,
                #[trigger] aliases_of(store, id)[i],
            ).0 == Trace::<ContextQueryView, BucketContextView>::Done(
                Err(field_error(ErrorKind::NotFound, Label::NoSlang)),
            ),
{
    let listed = aliases_of(store, id);
    let set = alias_set(store, id);
    lemma_fields_differ();
    lemma_all_key_shapes();
    lemma_dropped(store, id);
    reveal_with_fuel(run, 9);
    if listed.len() > 0 {
        let first = listed[0];
        assert(set[0].member == first);
        assert(is_alias_of(store, first, id));
        assert(resolve(store, first) == Some(id));
        assert(has_record(store, id));
        let bucket = BucketView {
            bucket_context: BucketContextView {
                id,
                data: record_of(store, id)[data_field()],
                mime: record_of(store, id)[mime_field()],
            },
            bucket_meta: BucketMetaView {
                id,
                slang: listed,
                rsa: field_of(store, id, rsa_field()),
            },
        };
        let gone = store.remove(bucket_key(id));
        lemma_unbinding(gone, id, listed, 0, bucket);
        assert(gone.remove_keys(keys_left(id, listed, 0)) =~= dropped(store, id));
        assert forall|i: int| 0 <= i < listed.len() implies context_read(
            dropped(store, id),
            #[trigger] listed[i],
        ).0 == Trace::<ContextQueryView, BucketContextView>::Done(
            Err(field_error(ErrorKind::NotFound, Label::NoSlang)),
        ) by {
            assert(set[i].member == listed[i]);
            assert(is_alias_of(store, listed[i], id));
        }
    }
}

/// One change of the aliases of an identifier.
pub ghost enum AliasChange {
    /// An alias is attached.
    Attach(MetaChangeView),
    /// An alias is detached.
    Detach(MetaChangeView),
}

/// The store after one change of aliases has been attempted.
pub open spec fn changed(store: Store, change: AliasChange) -> Store {
    match change {
        AliasChange::Attach(change) => addition(store, change).1,
        AliasChange::Detach(change) => removal(store, change).1,
    }
}

/// The store after a series of changes of aliases has been attempted, one
/// after the other.
pub open spec fn changed_by_all(store: Store, changes: Seq<AliasChange>) -> Store
    decreases changes.len(),
{
    if changes.len() == 0 {
        store
    } else {
        changed_by_all(changed(store, changes[0]), changes.drop_first())
    }
}

/// An identifier never loses its last alias. Whatever aliases are attached
/// and detached, and to whichever identifiers, a coherent store stays
/// coherent, and an identifier that has a record keeps it and keeps at
/// least one alias.
pub proof fn law_alias_set_never_empty(store: Store, changes: Seq<AliasChange>, id: Seq<char>)
    requires
        coherent(store),
        has_record(store, id),
    ensures
        coherent(changed_by_all(store, changes)),
        has_record(changed_by_all(store, changes), id),
        aliases_of(changed_by_all(store, changes), id).len() > 0,
    decreases changes.len(),
{
    if changes.len() > 0 {
        match changes[0] {
            AliasChange::Attach(change) => law_attach(store, change),
            AliasChange::Detach(change) => law_detach(store, change),
        }
        law_alias_set_never_empty(changed(store, changes[0]), changes.drop_first(), id);
    }
}

/// An alias belongs to one identifier at most: in a coherent store no alias
/// is in the alias sets of two identifiers.
pub proof fn law_one_identifier_per_alias(
    store: Store,
    slang: Seq<char>,
    first: Seq<char>,
    second: Seq<char>,
)
    requires
        coherent(store),
        is_alias_of(store, slang, first),
        is_alias_of(store, slang, second),
    ensures
        first == second,
{
}

/// Reading through an alias. On a coherent store a read through an alias
/// that names nothing ends in `NotFound`. A read through an alias that
/// names an identifier returns that identifier with the payload and content
/// type of its record, or with all of its aliases in listing order and its
/// public key if it has one. No read changes the store.
pub proof fn law_read(store: Store, slang: Seq<char>)
    requires
        coherent(store),
    ensures
        resolve(store, slang) is None ==> context_read(store, slang) == (
            Trace::<ContextQueryView, BucketContextView>::Done(
                Err(field_error(ErrorKind::NotFound, Label::NoSlang)),
            ),
            store,
        ) && meta_read(store, slang) == (
            Trace::<MetaQueryView, BucketMetaView>::Done(
                Err(field_error(ErrorKind::NotFound, Label::NoSlang)),
            ),
            store,
        ),
        resolve(store, slang) matches Some(id) ==> context_read(store, slang) == (
            Trace::<ContextQueryView, BucketContextView>::Done(
                Ok(
                    BucketContextView {
                        id,
                        data: record_of(store, id)[data_field()],
                        mime: record_of(store, id)[mime_field()],
                    },
                ),
            ),
            store,
        ) && meta_read(store, slang) == (
            Trace::<MetaQueryView, BucketMetaView>::Done(
                Ok(
                    BucketMetaView {
                        id,
                        slang: aliases_of(store, id),
                        rsa: field_of(store, id, rsa_field()),
                    },
                ),
            ),
            store,
        ) && is_alias_of(store, slang, id),
{
    lemma_fields_differ();
    lemma_all_key_shapes();
    reveal_with_fuel(run, 4);
    if resolve(store, slang) is Some {
        let id = resolve(store, slang)->0;
        assert(is_alias_of(store, slang, id));
        assert(has_record(store, id));
        assert(store.contains_key(slangs_key(id)));
    }
}

/// A read changes nothing, whatever the store holds and whatever the read
/// returns.
pub proof fn law_reads_change_nothing(store: Store, slang: Seq<char>)
    ensures
        context_read(store, slang).1 == store,
        meta_read(store, slang).1 == store,
        context_read(store, slang).0 is Done,
        meta_read(store, slang).0 is Done,
{
    reveal_with_fuel(run, 4);
}

/// A command that fails ends the operation at once: whatever the state, the
/// step that takes the failure asks for nothing more and reports the
/// backend as unavailable.
pub proof fn law_failure_ends_operation(
    context: ContextQueryView,
    meta: MetaQueryView,
    binding: BindingView,
    creation: CreationView,
    addition: SlangAdditionView,
    removal: SlangRemovalView,
    deletion: DeletionView,
)
    ensures
        context.step(ReplyView::Failed) matches Trace::Done(Err(error)) && error.kind
            == ErrorKind::BackendUnavailable,
        meta.step(ReplyView::Failed) matches Trace::Done(Err(error)) && error.kind
            == ErrorKind::BackendUnavailable,
        binding.step(ReplyView::Failed) matches Trace::Done(Err(error)) && error.kind
            == ErrorKind::BackendUnavailable,
        creation.step(ReplyView::Failed) matches Trace::Done(Err(error)) && error.kind
            == ErrorKind::BackendUnavailable,
        addition.step(ReplyView::Failed) matches Trace::Done(Err(error)) && error.kind
            == ErrorKind::BackendUnavailable,
        removal.step(ReplyView::Failed) matches Trace::Done(Err(error)) && error.kind
            == ErrorKind::BackendUnavailable,
        deletion.step(ReplyView::Failed) matches Trace::Done(Err(error)) && error.kind
            == ErrorKind::BackendUnavailable,
{
}

} // verus!
