//! Attaching an alias to an identifier and detaching it again.
//!
//! An alias is recorded twice: under its own key, where it names its
//! identifier, and in the alias set of that identifier. Attaching writes
//! both, detaching removes both. The guards before either keep an alias from
//! naming two identifiers and an identifier from losing its last alias.

use crate::backend::{
    bucket_key, del_kv, del_sorted_kvs, get_hash_kfv, get_kv, get_sorted_kv, hash_k_id,
    mime_field, rsa_field, set_kv, set_sorted_kvs, slang_key, slangs_key, str_k_slang, zset_k_id,
    Command, CommandView, Reply, ReplyView, HASH_KF_MIME, HASH_KF_RSA, SLANG_SCORE,
};
use crate::bucket::{
    backend_failure, field_error, new_field_error, BucketMeta, BucketMetaView, ErrorKind, Label,
    MetaChange, MetaChangeView, Progress, Trace,
};
use vstd::prelude::*;
use vstd::string::*;

verus! {

/// How far the recording of an alias has come.
#[derive(Debug, Clone, PartialEq, Eq)]
pub enum Binding {
    /// The alias is being pointed at the identifier.
    AwaitIndex { change: MetaChange },
    /// The alias is being entered into the alias set of the identifier.
    AwaitSet,
}

/// Mathematical form of [`Binding`].
pub ghost enum BindingView {
    AwaitIndex { change: MetaChangeView },
    AwaitSet,
}

impl View for Binding {
    type V = BindingView;

    open spec fn view(&self) -> BindingView {
        match self {
            Binding::AwaitIndex { change } => BindingView::AwaitIndex { change: change@ },
            Binding::AwaitSet => BindingView::AwaitSet,
        }
    }
}

impl BindingView {
    /// The command that points the alias at the identifier.
    pub open spec fn first_command(change: MetaChangeView) -> CommandView {
        CommandView::Put { key: slang_key(change.slang), value: change.id }
    }

    /// Recording begins with the alias's own entry.
    pub open spec fn start(change: MetaChangeView) -> Trace<BindingView, ()> {
        Trace::Ask(BindingView::AwaitIndex { change }, Self::first_command(change))
    }

    /// How recording goes on when the backend has answered with `reply`.
    pub open spec fn step(self, reply: ReplyView) -> Trace<BindingView, ()> {
        match self {
            BindingView::AwaitIndex { change } => if reply is Failed {
                Trace::Done(Err(backend_failure(Label::SetStrKSlang)))
            } else {
                Trace::Ask(
                    BindingView::AwaitSet,
                    CommandView::SortedAdd {
                        key: slangs_key(change.id),
                        member: change.slang,
                        score: SLANG_SCORE as int,
                    },
                )
            },
            BindingView::AwaitSet => if reply is Failed {
                Trace::Done(Err(backend_failure(Label::SetZsetKId)))
            } else {
                Trace::Done(Ok(()))
            },
        }
    }
}

/// Begins to record the alias of `meta_change` for its identifier.
pub fn set_slang(meta_change: MetaChange) -> (progress: Progress<Binding, ()>)
    ensures
        progress@ == BindingView::start(meta_change@),
{
    let command = Binding::first_command(&meta_change);
    Progress::Ask(Binding::AwaitIndex { change: meta_change }, command)
}

impl Binding {
    /// The command that points the alias of `change` at its identifier.
    pub fn first_command(change: &MetaChange) -> (command: Command)
        ensures
            command@ == BindingView::first_command(change@),
    {
        set_kv(&str_k_slang(&change.slang), &change.id)
    }

    /// Takes the reply to the command last asked for and goes on.
    pub fn step(self, reply: Reply) -> (progress: Progress<Binding, ()>)
        ensures
            progress@ == self@.step(reply@),
    {
        match self {
            Binding::AwaitIndex { change } => {
                if reply.is_failed() {
                    return Progress::Done(
                        Err(new_field_error(ErrorKind::BackendUnavailable, Label::SetStrKSlang)),
                    );
                }
                let command = set_sorted_kvs(&zset_k_id(&change.id), &change.slang, SLANG_SCORE);
                Progress::Ask(Binding::AwaitSet, command)
            },
            Binding::AwaitSet => {
                if reply.is_failed() {
                    return Progress::Done(
                        Err(new_field_error(ErrorKind::BackendUnavailable, Label::SetZsetKId)),
                    );
                }
                Progress::Done(Ok(()))
            },
        }
    }
}

/// How far the attaching of a further alias has come.
#[derive(Debug, Clone, PartialEq, Eq)]
pub enum SlangAddition {
    /// The record of the identifier is being looked for.
    AwaitMime { change: MetaChange },
    /// The alias is being looked up, to see that it is free.
    AwaitOwner { change: MetaChange },
    /// The alias is being recorded.
    Bind { binding: Binding, id: String },
    /// The public key of the identifier is being read.
    AwaitRsa { id: String },
    /// The aliases of the identifier are being listed.
    AwaitSlangs { id: String, rsa: Option<String> },
}

/// Mathematical form of [`SlangAddition`].
pub ghost enum SlangAdditionView {
    AwaitMime { change: MetaChangeView },
    AwaitOwner { change: MetaChangeView },
    Bind { binding: BindingView, id: Seq<char> },
    AwaitRsa { id: Seq<char> },
    AwaitSlangs { id: Seq<char>, rsa: Option<Seq<char>> },
}

impl View for SlangAddition {
    type V = SlangAdditionView;

    open spec fn view(&self) -> SlangAdditionView {
        match self {
            SlangAddition::AwaitMime { change } => SlangAdditionView::AwaitMime {
                change: change@,
            },
            SlangAddition::AwaitOwner { change } => SlangAdditionView::AwaitOwner {
                change: change@,
            },
            SlangAddition::Bind { binding, id } => SlangAdditionView::Bind {
                binding: binding@,
                id: id@,
            },
            SlangAddition::AwaitRsa { id } => SlangAdditionView::AwaitRsa { id: id@ },
            SlangAddition::AwaitSlangs { id, rsa } => SlangAdditionView::AwaitSlangs {
                id: id@,
                rsa: rsa.deep_view(),
            },
        }
    }
}

impl SlangAdditionView {
    /// Attaching begins by looking for the record of the identifier.
    pub open spec fn start(change: MetaChangeView) -> Trace<SlangAdditionView, BucketMetaView> {
        Trace::Ask(
            SlangAdditionView::AwaitMime { change },
            CommandView::HashGet { key: bucket_key(change.id), field: mime_field() },
        )
    }

    /// How attaching goes on when the backend has answered with `reply`.
    pub open spec fn step(self, reply: ReplyView) -> Trace<SlangAdditionView, BucketMetaView> {
        match self {
            SlangAdditionView::AwaitMime { change } => if reply is Failed {
                Trace::Done(Err(backend_failure(Label::GetHashKfMime)))
            } else if reply is Nil {
                Trace::Done(Err(field_error(ErrorKind::NotFound, Label::NoId)))
            } else {
                Trace::Ask(
                    SlangAdditionView::AwaitOwner { change },
                    CommandView::Get { key: slang_key(change.slang) },
                )
            },
            SlangAdditionView::AwaitOwner { change } => if reply is Failed {
                Trace::Done(Err(backend_failure(Label::GetStrKSlang)))
            } else if !(reply is Nil) {
                Trace::Done(Err(field_error(ErrorKind::AlreadyExists, Label::SlangExists)))
            } else {
                Trace::Ask(
                    SlangAdditionView::Bind {
                        binding: BindingView::AwaitIndex { change },
                        id: change.id,
                    },
                    BindingView::first_command(change),
                )
            },
            SlangAdditionView::Bind { binding, id } => match binding.step(reply) {
                Trace::Ask(binding, command) => Trace::Ask(
                    SlangAdditionView::Bind { binding, id },
                    command,
                ),
                Trace::Done(Err(error)) => Trace::Done(Err(error)),
                Trace::Done(Ok(_)) => Trace::Ask(
                    SlangAdditionView::AwaitRsa { id },
                    CommandView::HashGet { key: bucket_key(id), field: rsa_field() },
                ),
            },
            SlangAdditionView::AwaitRsa { id } => if reply is Failed {
                Trace::Done(Err(backend_failure(Label::GetHashKfRsa)))
            } else {
                Trace::Ask(
                    SlangAdditionView::AwaitSlangs { id, rsa: reply.maybe_text() },
                    CommandView::SortedRange { key: slangs_key(id) },
                )
            },
            SlangAdditionView::AwaitSlangs { id, rsa } => if reply is Failed {
                Trace::Done(Err(backend_failure(Label::GetZsetKId)))
            } else {
                Trace::Done(Ok(BucketMetaView { id, slang: reply.texts(), rsa }))
            },
        }
    }
}

impl SlangAddition {
    /// Begins to attach the alias of `change` to its identifier.
    pub fn start(change: MetaChange) -> (progress: Progress<SlangAddition, BucketMeta>)
        ensures
            progress@ == SlangAdditionView::start(change@),
    {
        let command = get_hash_kfv(&hash_k_id(&change.id), &HASH_KF_MIME.to_owned());
        Progress::Ask(SlangAddition::AwaitMime { change }, command)
    }

    /// Takes the reply to the command last asked for and goes on.
    pub fn step(self, reply: Reply) -> (progress: Progress<SlangAddition, BucketMeta>)
        ensures
            progress@ == self@.step(reply@),
    {
        match self {
            SlangAddition::AwaitMime { change } => {
                if reply.is_failed() {
                    return Progress::Done(
                        Err(new_field_error(ErrorKind::BackendUnavailable, Label::GetHashKfMime)),
                    );
                }
                if reply.is_nil() {
                    return Progress::Done(Err(new_field_error(ErrorKind::NotFound, Label::NoId)));
                }
                let command = get_kv(&str_k_slang(&change.slang));
                Progress::Ask(SlangAddition::AwaitOwner { change }, command)
            },
            SlangAddition::AwaitOwner { change } => {
                if reply.is_failed() {
                    return Progress::Done(
                        Err(new_field_error(ErrorKind::BackendUnavailable, Label::GetStrKSlang)),
                    );
                }
                if !reply.is_nil() {
                    return Progress::Done(
                        Err(new_field_error(ErrorKind::AlreadyExists, Label::SlangExists)),
                    );
                }
                let id = change.id.clone();
                let command = Binding::first_command(&change);
                Progress::Ask(
                    SlangAddition::Bind { binding: Binding::AwaitIndex { change }, id },
                    command,
                )
            },
            SlangAddition::Bind { binding, id } => match binding.step(reply) {
                Progress::Ask(binding, command) => Progress::Ask(
                    SlangAddition::Bind { binding, id },
                    command,
                ),
                Progress::Done(Err(error)) => Progress::Done(Err(error)),
                Progress::Done(Ok(_)) => {
                    let command = get_hash_kfv(&hash_k_id(&id), &HASH_KF_RSA.to_owned());
                    Progress::Ask(SlangAddition::AwaitRsa { id }, command)
                },
            },
            SlangAddition::AwaitRsa { id } => {
                if reply.is_failed() {
                    return Progress::Done(
                        Err(new_field_error(ErrorKind::BackendUnavailable, Label::GetHashKfRsa)),
                    );
                }
                let rsa = reply.into_maybe_text();
                let command = get_sorted_kv(&zset_k_id(&id));
                Progress::Ask(SlangAddition::AwaitSlangs { id, rsa }, command)
            },
            SlangAddition::AwaitSlangs { id, rsa } => {
                if reply.is_failed() {
                    return Progress::Done(
                        Err(new_field_error(ErrorKind::BackendUnavailable, Label::GetZsetKId)),
                    );
                }
                let slang = reply.into_texts();
                Progress::Done(Ok(BucketMeta { id, slang, rsa }))
            },
        }
    }
}

/// How far the detaching of an alias has come.
#[derive(Debug, Clone, PartialEq, Eq)]
pub enum SlangRemoval {
    /// The aliases of the identifier are being listed.
    AwaitSlangs { change: MetaChange },
    /// The alias is being looked up, to see whose it is.
    AwaitOwner { change: MetaChange },
    /// The alias's own entry is being removed.
    AwaitUnbind { change: MetaChange },
    /// The alias is being taken out of the alias set.
    AwaitUnlist { id: String },
    /// The public key of the identifier is being read.
    AwaitRsa { id: String },
    /// The aliases that are left are being listed.
    AwaitRefreshed { id: String, rsa: Option<String> },
}

/// Mathematical form of [`SlangRemoval`].
pub ghost enum SlangRemovalView {
    AwaitSlangs { change: MetaChangeView },
    AwaitOwner { change: MetaChangeView },
    AwaitUnbind { change: MetaChangeView },
    AwaitUnlist { id: Seq<char> },
    AwaitRsa { id: Seq<char> },
    AwaitRefreshed { id: Seq<char>, rsa: Option<Seq<char>> },
}

impl View for SlangRemoval {
    type V = SlangRemovalView;

    open spec fn view(&self) -> SlangRemovalView {
        match self {
            SlangRemoval::AwaitSlangs { change } => SlangRemovalView::AwaitSlangs {
                change: change@,
            },
            SlangRemoval::AwaitOwner { change } => SlangRemovalView::AwaitOwner {
                change: change@,
            },
            SlangRemoval::AwaitUnbind { change } => SlangRemovalView::AwaitUnbind {
                change: change@,
            },
            SlangRemoval::AwaitUnlist { id } => SlangRemovalView::AwaitUnlist { id: id@ },
            SlangRemoval::AwaitRsa { id } => SlangRemovalView::AwaitRsa { id: id@ },
            SlangRemoval::AwaitRefreshed { id, rsa } => SlangRemovalView::AwaitRefreshed {
                id: id@,
                rsa: rsa.deep_view(),
            },
        }
    }
}

impl SlangRemovalView {
    /// Detaching begins by listing the aliases of the identifier.
    pub open spec fn start(change: MetaChangeView) -> Trace<SlangRemovalView, BucketMetaView> {
        Trace::Ask(
            SlangRemovalView::AwaitSlangs { change },
            CommandView::SortedRange { key: slangs_key(change.id) },
        )
    }

    /// How detaching goes on when the backend has answered with `reply`.
    pub open spec fn step(self, reply: ReplyView) -> Trace<SlangRemovalView, BucketMetaView> {
        match self {
            SlangRemovalView::AwaitSlangs { change } => if reply is Failed {
                Trace::Done(Err(backend_failure(Label::GetZsetKId)))
            } else if reply.texts() == seq![change.slang] {
                Trace::Done(Err(field_error(ErrorKind::Unsupported, Label::IdLastSlang)))
            } else if reply.texts().len() == 0 {
                Trace::Done(Err(field_error(ErrorKind::NotFound, Label::NoId)))
            } else {
                Trace::Ask(
                    SlangRemovalView::AwaitOwner { change },
                    CommandView::Get { key: slang_key(change.slang) },
                )
            },
            SlangRemovalView::AwaitOwner { change } => if reply is Failed {
                Trace::Done(Err(backend_failure(Label::GetStrKSlang)))
            } else if reply.maybe_text() is Some && reply.maybe_text() != Some(change.id) {
                Trace::Done(Err(field_error(ErrorKind::Unsupported, Label::IdSlangMismatch)))
            } else {
                Trace::Ask(
                    SlangRemovalView::AwaitUnbind { change },
                    CommandView::Del { key: slang_key(change.slang) },
                )
            },
            SlangRemovalView::AwaitUnbind { change } => if reply is Failed {
                Trace::Done(Err(backend_failure(Label::DelStrKSlang)))
            } else {
                Trace::Ask(
                    SlangRemovalView::AwaitUnlist { id: change.id },
                    CommandView::SortedRemove { key: slangs_key(change.id), member: change.slang },
                )
            },
            SlangRemovalView::AwaitUnlist { id } => if reply is Failed {
                Trace::Done(Err(backend_failure(Label::DelZsetKId)))
            } else {
                Trace::Ask(
                    SlangRemovalView::AwaitRsa { id },
                    CommandView::HashGet { key: bucket_key(id), field: rsa_field() },
                )
            },
            SlangRemovalView::AwaitRsa { id } => if reply is Failed {
                Trace::Done(Err(backend_failure(Label::GetHashKfRsa)))
            } else {
                Trace::Ask(
                    SlangRemovalView::AwaitRefreshed { id, rsa: reply.maybe_text() },
                    CommandView::SortedRange { key: slangs_key(id) },
                )
            },
            SlangRemovalView::AwaitRefreshed { id, rsa } => if reply is Failed {
                Trace::Done(Err(backend_failure(Label::GetZsetKId)))
            } else {
                Trace::Done(Ok(BucketMetaView { id, slang: reply.texts(), rsa }))
            },
        }
    }
}

impl SlangRemoval {
    /// Begins to detach the alias of `change` from its identifier.
    pub fn start(change: MetaChange) -> (progress: Progress<SlangRemoval, BucketMeta>)
        ensures
            progress@ == SlangRemovalView::start(change@),
    {
        let command = get_sorted_kv(&zset_k_id(&change.id));
        Progress::Ask(SlangRemoval::AwaitSlangs { change }, command)
    }

    /// Takes the reply to the command last asked for and goes on.
    pub fn step(self, reply: Reply) -> (progress: Progress<SlangRemoval, BucketMeta>)
        ensures
            progress@ == self@.step(reply@),
    {
        match self {
            SlangRemoval::AwaitSlangs { change } => {
                if reply.is_failed() {
                    return Progress::Done(
                        Err(new_field_error(ErrorKind::BackendUnavailable, Label::GetZsetKId)),
                    );
                }
                let ghost listed = reply@.texts();
                let slang = reply.into_texts();
                if slang.len() == 1 && slang[0] == change.slang {
                    assert(listed =~= seq![change@.slang]);
                    return Progress::Done(
                        Err(new_field_error(ErrorKind::Unsupported, Label::IdLastSlang)),
                    );
                }
                assert(listed != seq![change@.slang]) by {
                    if listed == seq![change@.slang] {
                        assert(listed.len() == 1);
                        assert(listed[0] == change@.slang);
                    }
                }
                if slang.len() == 0 {
                    return Progress::Done(Err(new_field_error(ErrorKind::NotFound, Label::NoId)));
                }
                let command = get_kv(&str_k_slang(&change.slang));
                Progress::Ask(SlangRemoval::AwaitOwner { change }, command)
            },
            SlangRemoval::AwaitOwner { change } => {
                if reply.is_failed() {
                    return Progress::Done(
                        Err(new_field_error(ErrorKind::BackendUnavailable, Label::GetStrKSlang)),
                    );
                }
                let owner = reply.into_maybe_text();
                let foreign = match &owner {
                    Some(id) => *id != change.id,
                    None => false,
                };
                if foreign {
                    return Progress::Done(
                        Err(new_field_error(ErrorKind::Unsupported, Label::IdSlangMismatch)),
                    );
                }
                let command = del_kv(&str_k_slang(&change.slang));
                Progress::Ask(SlangRemoval::AwaitUnbind { change }, command)
            },
            SlangRemoval::AwaitUnbind { change } => {
                if reply.is_failed() {
                    return Progress::Done(
                        Err(new_field_error(ErrorKind::BackendUnavailable, Label::DelStrKSlang)),
                    );
                }
                let command = del_sorted_kvs(&zset_k_id(&change.id), &change.slang);
                Progress::Ask(SlangRemoval::AwaitUnlist { id: change.id }, command)
            },
            SlangRemoval::AwaitUnlist { id } => {
                if reply.is_failed() {
                    return Progress::Done(
                        Err(new_field_error(ErrorKind::BackendUnavailable, Label::DelZsetKId)),
                    );
                }
                let command = get_hash_kfv(&hash_k_id(&id), &HASH_KF_RSA.to_owned());
                Progress::Ask(SlangRemoval::AwaitRsa { id }, command)
            },
            SlangRemoval::AwaitRsa { id } => {
                if reply.is_failed() {
                    return Progress::Done(
                        Err(new_field_error(ErrorKind::BackendUnavailable, Label::GetHashKfRsa)),
                    );
                }
                let rsa = reply.into_maybe_text();
                let command = get_sorted_kv(&zset_k_id(&id));
                Progress::Ask(SlangRemoval::AwaitRefreshed { id, rsa }, command)
            },
            SlangRemoval::AwaitRefreshed { id, rsa } => {
                if reply.is_failed() {
                    return Progress::Done(
                        Err(new_field_error(ErrorKind::BackendUnavailable, Label::GetZsetKId)),
                    );
                }
                let slang = reply.into_texts();
                Progress::Done(Ok(BucketMeta { id, slang, rsa }))
            },
        }
    }
}

} // verus!
