//! Creating a bucket: the record is written under the identifier derived
//! from the content, and the alias derived from the identifier is recorded
//! for it.
//!
//! The record comes first and whole: content type, payload, and the public
//! key, which is written where one is given and removed where none is, so
//! that the record holds what this creation was given and nothing from an
//! earlier one. Then the alias is recorded. Nothing is looked up first: a
//! record that is already there is overwritten, and the derived alias is
//! pointed at this identifier whatever it named before.

use crate::alias::{Binding, BindingView};
use crate::backend::{
    bucket_key, data_field, del_hash_kf, get_sorted_kv, hash_k_id, mime_field, rsa_field,
    set_hash_kfv, slangs_key, zset_k_id, Command, CommandView, Reply, ReplyView, HASH_KF_DATA,
    HASH_KF_MIME, HASH_KF_RSA,
};
use crate::bucket::{
    backend_failure, new_field_error, BucketMeta, BucketMetaView, ErrorKind, Label, MetaChange,
    MetaChangeView, NewBucket, NewBucketView, Progress, Trace,
};
use crate::hash::{
    alternates, content_id, get_id_from_context, get_slang_from_id, is_lower_hex, slang_of,
    SLANG_LEN,
};
use vstd::prelude::*;
use vstd::string::*;

verus! {

/// How far the creation of a bucket has come.
#[derive(Debug, Clone, PartialEq, Eq)]
pub enum Creation {
    /// The content type is being written.
    AwaitMime { id: String, slang: String, bucket: NewBucket },
    /// The payload is being written.
    AwaitData { id: String, slang: String, rsa: Option<String> },
    /// The public key is being written, or removed where none was given.
    AwaitRsa { id: String, slang: String, rsa: Option<String> },
    /// The derived alias is being recorded.
    Bind { binding: Binding, id: String, rsa: Option<String> },
    /// The aliases of the identifier are being listed.
    AwaitSlangs { id: String, rsa: Option<String> },
}

/// Mathematical form of [`Creation`].
pub ghost enum CreationView {
    AwaitMime { id: Seq<char>, slang: Seq<char>, bucket: NewBucketView },
    AwaitData { id: Seq<char>, slang: Seq<char>, rsa: Option<Seq<char>> },
    AwaitRsa { id: Seq<char>, slang: Seq<char>, rsa: Option<Seq<char>> },
    Bind { binding: BindingView, id: Seq<char>, rsa: Option<Seq<char>> },
    AwaitSlangs { id: Seq<char>, rsa: Option<Seq<char>> },
}

impl View for Creation {
    type V = CreationView;

    open spec fn view(&self) -> CreationView {
        match self {
            Creation::AwaitMime { id, slang, bucket } => CreationView::AwaitMime {
                id: id@,
                slang: slang@,
                bucket: bucket@,
            },
            Creation::AwaitData { id, slang, rsa } => CreationView::AwaitData {
                id: id@,
                slang: slang@,
                rsa: rsa.deep_view(),
            },
            Creation::AwaitRsa { id, slang, rsa } => CreationView::AwaitRsa {
                id: id@,
                slang: slang@,
                rsa: rsa.deep_view(),
            },
            Creation::Bind { binding, id, rsa } => CreationView::Bind {
                binding: binding@,
                id: id@,
                rsa: rsa.deep_view(),
            },
            Creation::AwaitSlangs { id, rsa } => CreationView::AwaitSlangs {
                id: id@,
                rsa: rsa.deep_view(),
            },
        }
    }
}

impl CreationView {
    /// Creation begins by writing the content type under the identifier of
    /// the content.
    pub open spec fn start(bucket: NewBucketView) -> Trace<CreationView, BucketMetaView> {
        let id = content_id(bucket.data);
        Trace::Ask(
            CreationView::AwaitMime { id, slang: slang_of(id), bucket },
            CommandView::HashPut { key: bucket_key(id), field: mime_field(), value: bucket.mime },
        )
    }

    /// The command that settles the public key of the record: it writes the
    /// key where one is given and removes the field where none is.
    pub open spec fn key_command(id: Seq<char>, rsa: Option<Seq<char>>) -> CommandView {
        match rsa {
            Some(key) => CommandView::HashPut {
                key: bucket_key(id),
                field: rsa_field(),
                value: key,
            },
            None => CommandView::HashDel { key: bucket_key(id), field: rsa_field() },
        }
    }

    /// The label under which a failure to settle the public key is reported.
    pub open spec fn key_label(rsa: Option<Seq<char>>) -> Label {
        if rsa is Some {
            Label::SetHashKfRsa
        } else {
            Label::DelHashKfRsa
        }
    }

    /// How creation goes on when the backend has answered with `reply`.
    pub open spec fn step(self, reply: ReplyView) -> Trace<CreationView, BucketMetaView> {
        match self {
            CreationView::AwaitMime { id, slang, bucket } => if reply is Failed {
                Trace::Done(Err(backend_failure(Label::SetHashKfMime)))
            } else {
                Trace::Ask(
                    CreationView::AwaitData { id, slang, rsa: bucket.rsa },
                    CommandView::HashPut {
                        key: bucket_key(id),
                        field: data_field(),
                        value: bucket.data,
                    },
                )
            },
            CreationView::AwaitData { id, slang, rsa } => if reply is Failed {
                Trace::Done(Err(backend_failure(Label::SetHashKfData)))
            } else {
                Trace::Ask(CreationView::AwaitRsa { id, slang, rsa }, Self::key_command(id, rsa))
            },
            CreationView::AwaitRsa { id, slang, rsa } => if reply is Failed {
                Trace::Done(Err(backend_failure(Self::key_label(rsa))))
            } else {
                let change = MetaChangeView { id, slang };
                Trace::Ask(
                    CreationView::Bind { binding: BindingView::AwaitIndex { change }, id, rsa },
                    BindingView::first_command(change),
                )
            },
            CreationView::Bind { binding, id, rsa } => match binding.step(reply) {
                Trace::Ask(binding, command) => Trace::Ask(
                    CreationView::Bind { binding, id, rsa },
                    command,
                ),
                Trace::Done(Err(error)) => Trace::Done(Err(error)),
                Trace::Done(Ok(_)) => Trace::Ask(
                    CreationView::AwaitSlangs { id, rsa },
                    CommandView::SortedRange { key: slangs_key(id) },
                ),
            },
            CreationView::AwaitSlangs { id, rsa } => if reply is Failed {
                Trace::Done(Err(backend_failure(Label::GetZsetKId)))
            } else {
                Trace::Done(Ok(BucketMetaView { id, slang: reply.texts(), rsa }))
            },
        }
    }
}

impl Creation {
    /// Begins to create the bucket that `bucket` describes. The identifier
    /// kept in the state is the 64 hexadecimal digits derived from the
    /// payload, the alias the eleven letters derived from the identifier.
    pub fn start(bucket: NewBucket) -> (progress: Progress<Creation, BucketMeta>)
        ensures
            progress@ == CreationView::start(bucket@),
            (progress matches Progress::Ask(Creation::AwaitMime { id, slang, .. }, _) && id@.len()
                == 64 && is_lower_hex(id@) && slang@.len() == SLANG_LEN && alternates(slang@)),
    {
        let id = get_id_from_context(&bucket.data);
        let slang = get_slang_from_id(&id);
        let command = set_hash_kfv(&hash_k_id(&id), &HASH_KF_MIME.to_owned(), &bucket.mime);
        Progress::Ask(Creation::AwaitMime { id, slang, bucket }, command)
    }

    /// The command that settles the public key of the record of `id`.
    fn key_command(id: &String, rsa: &Option<String>) -> (command: Command)
        ensures
            command@ == CreationView::key_command(id@, rsa.deep_view()),
    {
        match rsa {
            Some(key) => set_hash_kfv(&hash_k_id(id), &HASH_KF_RSA.to_owned(), key),
            None => del_hash_kf(&hash_k_id(id), &HASH_KF_RSA.to_owned()),
        }
    }

    /// Takes the reply to the command last asked for and goes on.
    pub fn step(self, reply: Reply) -> (progress: Progress<Creation, BucketMeta>)
        ensures
            progress@ == self@.step(reply@),
    {
        match self {
            Creation::AwaitMime { id, slang, bucket } => {
                if reply.is_failed() {
                    return Progress::Done(
                        Err(new_field_error(ErrorKind::BackendUnavailable, Label::SetHashKfMime)),
                    );
                }
                let command = set_hash_kfv(
                    &hash_k_id(&id),
                    &HASH_KF_DATA.to_owned(),
                    &bucket.data,
                );
                Progress::Ask(Creation::AwaitData { id, slang, rsa: bucket.rsa }, command)
            },
            Creation::AwaitData { id, slang, rsa } => {
                if reply.is_failed() {
                    return Progress::Done(
                        Err(new_field_error(ErrorKind::BackendUnavailable, Label::SetHashKfData)),
                    );
                }
                let command = Creation::key_command(&id, &rsa);
                Progress::Ask(Creation::AwaitRsa { id, slang, rsa }, command)
            },
            Creation::AwaitRsa { id, slang, rsa } => {
                if reply.is_failed() {
                    let label = if rsa.is_some() {
                        Label::SetHashKfRsa
                    } else {
                        Label::DelHashKfRsa
                    };
                    return Progress::Done(
                        Err(new_field_error(ErrorKind::BackendUnavailable, label)),
                    );
                }
                let change = MetaChange { id: id.clone(), slang };
                let command = Binding::first_command(&change);
                Progress::Ask(
                    Creation::Bind { binding: Binding::AwaitIndex { change }, id, rsa },
                    command,
                )
            },
            Creation::Bind { binding, id, rsa } => match binding.step(reply) {
                Progress::Ask(binding, command) => Progress::Ask(
                    Creation::Bind { binding, id, rsa },
                    command,
                ),
                Progress::Done(Err(error)) => Progress::Done(Err(error)),
                Progress::Done(Ok(_)) => {
                    let command = get_sorted_kv(&zset_k_id(&id));
                    Progress::Ask(Creation::AwaitSlangs { id, rsa }, command)
                },
            },
            Creation::AwaitSlangs { id, rsa } => {
                if reply.is_failed() {
                    return Progress::Done(
                        Err(new_field_error(ErrorKind::BackendUnavailable, Label::GetZsetKId)),
                    );
                }
                let slang = reply.into_texts();
                Progress::Done(Ok(BucketMeta { id, slang, rsa }))
            },
        }
    }
}

} // verus!
