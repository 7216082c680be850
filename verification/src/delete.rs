//! Deleting a bucket: its record, every alias of it, and its alias set.
//!
//! What is returned is the bucket as it was read, through the first of its
//! aliases, before anything was removed.

use crate::backend::{
    bucket_key, del_kv, get_kv, get_sorted_kv, hash_k_id, slang_key, slangs_key, str_k_slang,
    zset_k_id, CommandView, Reply, ReplyView,
};
use crate::bucket::{
    backend_failure, field_error, new_field_error, Bucket, BucketContext, BucketContextView,
    BucketView, ErrorKind, Label, Progress, Trace,
};
use crate::query::{ContextQuery, ContextQueryView, MetaQuery, MetaQueryView};
use vstd::prelude::*;
use vstd::string::*;

verus! {

/// How far the deletion of a bucket has come.
#[derive(Debug, Clone, PartialEq, Eq)]
pub enum Deletion {
    /// The aliases of the identifier are being listed.
    AwaitSlangs { id: String },
    /// The content is being read through the alias `first`.
    Context { query: ContextQuery, id: String, first: String, slang: Vec<String> },
    /// The metadata is being read through the alias `first`.
    Meta { query: MetaQuery, id: String, slang: Vec<String>, context: BucketContext },
    /// The record is being removed.
    AwaitRecordGone { id: String, slang: Vec<String>, bucket: Bucket },
    /// The aliases before `next` have been asked to go; the last of them is
    /// being removed.
    AwaitUnbound { id: String, slang: Vec<String>, next: usize, bucket: Bucket },
    /// The alias set is being removed.
    AwaitSetGone { bucket: Bucket },
}

/// Mathematical form of [`Deletion`].
pub ghost enum DeletionView {
    AwaitSlangs { id: Seq<char> },
    Context { query: ContextQueryView, id: Seq<char>, first: Seq<char>, slang: Seq<Seq<char>> },
    Meta {
        query: MetaQueryView,
        id: Seq<char>,
        slang: Seq<Seq<char>>,
        context: BucketContextView,
    },
    AwaitRecordGone { id: Seq<char>, slang: Seq<Seq<char>>, bucket: BucketView },
    AwaitUnbound { id: Seq<char>, slang: Seq<Seq<char>>, next: nat, bucket: BucketView },
    AwaitSetGone { bucket: BucketView },
}

impl View for Deletion {
    type V = DeletionView;

    open spec fn view(&self) -> DeletionView {
        match self {
            Deletion::AwaitSlangs { id } => DeletionView::AwaitSlangs { id: id@ },
            Deletion::Context { query, id, first, slang } => DeletionView::Context {
                query: query@,
                id: id@,
                first: first@,
                slang: slang.deep_view(),
            },
            Deletion::Meta { query, id, slang, context } => DeletionView::Meta {
                query: query@,
                id: id@,
                slang: slang.deep_view(),
                context: context@,
            },
            Deletion::AwaitRecordGone { id, slang, bucket } => DeletionView::AwaitRecordGone {
                id: id@,
                slang: slang.deep_view(),
                bucket: bucket@,
            },
            Deletion::AwaitUnbound { id, slang, next, bucket } => DeletionView::AwaitUnbound {
                id: id@,
                slang: slang.deep_view(),
                next: *next as nat,
                bucket: bucket@,
            },
            Deletion::AwaitSetGone { bucket } => DeletionView::AwaitSetGone { bucket: bucket@ },
        }
    }
}

impl DeletionView {
    /// Deletion begins by listing the aliases of the identifier.
    pub open spec fn start(id: Seq<char>) -> Trace<DeletionView, BucketView> {
        Trace::Ask(
            DeletionView::AwaitSlangs { id },
            CommandView::SortedRange { key: slangs_key(id) },
        )
    }

    /// The removal of the alias at `next`, or of the alias set once every
    /// alias has been asked to go.
    pub open spec fn unbind_from(
        id: Seq<char>,
        slang: Seq<Seq<char>>,
        next: nat,
        bucket: BucketView,
    ) -> Trace<DeletionView, BucketView> {
        if next < slang.len() {
            Trace::Ask(
                DeletionView::AwaitUnbound { id, slang, next: next + 1, bucket },
                CommandView::Del { key: slang_key(slang[next as int]) },
            )
        } else {
            Trace::Ask(
                DeletionView::AwaitSetGone { bucket },
                CommandView::Del { key: slangs_key(id) },
            )
        }
    }

    /// How deletion goes on when the backend has answered with `reply`.
    pub open spec fn step(self, reply: ReplyView) -> Trace<DeletionView, BucketView> {
        match self {
            DeletionView::AwaitSlangs { id } => if reply is Failed {
                Trace::Done(Err(backend_failure(Label::GetZsetKId)))
            } else if reply.texts().len() == 0 {
                Trace::Done(Err(field_error(ErrorKind::NotFound, Label::NoId)))
            } else {
                let first = reply.texts()[0];
                Trace::Ask(
                    DeletionView::Context {
                        query: ContextQueryView::AwaitId,
                        id,
                        first,
                        slang: reply.texts(),
                    },
                    CommandView::Get { key: slang_key(first) },
                )
            },
            DeletionView::Context { query, id, first, slang } => match query.step(reply) {
                Trace::Ask(query, command) => Trace::Ask(
                    DeletionView::Context { query, id, first, slang },
                    command,
                ),
                Trace::Done(Err(error)) => Trace::Done(Err(error)),
                Trace::Done(Ok(context)) => Trace::Ask(
                    DeletionView::Meta { query: MetaQueryView::AwaitId, id, slang, context },
                    CommandView::Get { key: slang_key(first) },
                ),
            },
            DeletionView::Meta { query, id, slang, context } => match query.step(reply) {
                Trace::Ask(query, command) => Trace::Ask(
                    DeletionView::Meta { query, id, slang, context },
                    command,
                ),
                Trace::Done(Err(error)) => Trace::Done(Err(error)),
                Trace::Done(Ok(meta)) => Trace::Ask(
                    DeletionView::AwaitRecordGone {
                        id,
                        slang,
                        bucket: BucketView { bucket_context: context, bucket_meta: meta },
                    },
                    CommandView::Del { key: bucket_key(id) },
                ),
            },
            DeletionView::AwaitRecordGone { id, slang, bucket } => if reply is Failed {
                Trace::Done(Err(backend_failure(Label::DelHashKId)))
            } else {
                Self::unbind_from(id, slang, 0, bucket)
            },
            DeletionView::AwaitUnbound { id, slang, next, bucket } => if reply is Failed {
                Trace::Done(Err(backend_failure(Label::DelStrKSlang)))
            } else {
                Self::unbind_from(id, slang, next, bucket)
            },
            DeletionView::AwaitSetGone { bucket } => if reply is Failed {
                Trace::Done(Err(backend_failure(Label::DelZsetKId)))
            } else {
                Trace::Done(Ok(bucket))
            },
        }
    }
}

impl Deletion {
    /// Begins to delete the bucket of `id`.
    pub fn start(id: String) -> (progress: Progress<Deletion, Bucket>)
        ensures
            progress@ == DeletionView::start(id@),
    {
        let command = get_sorted_kv(&zset_k_id(&id));
        Progress::Ask(Deletion::AwaitSlangs { id }, command)
    }

    /// Asks for the alias at `next` to be removed, or for the alias set once
    /// every alias has been asked to go.
    fn unbind_from(id: String, slang: Vec<String>, next: usize, bucket: Bucket) -> (progress:
        Progress<Deletion, Bucket>)
        ensures
            progress@ == DeletionView::unbind_from(
                id@,
                slang.deep_view(),
                next as nat,
                bucket@,
            ),
    {
        if next < slang.len() {
            let command = del_kv(&str_k_slang(&slang[next]));
            Progress::Ask(Deletion::AwaitUnbound { id, slang, next: next + 1, bucket }, command)
        } else {
            let command = del_kv(&zset_k_id(&id));
            Progress::Ask(Deletion::AwaitSetGone { bucket }, command)
        }
    }

    /// Takes the reply to the command last asked for and goes on.
    pub fn step(self, reply: Reply) -> (progress: Progress<Deletion, Bucket>)
        ensures
            progress@ == self@.step(reply@),
    {
        match self {
            Deletion::AwaitSlangs { id } => {
                if reply.is_failed() {
                    return Progress::Done(
                        Err(new_field_error(ErrorKind::BackendUnavailable, Label::GetZsetKId)),
                    );
                }
                let slang = reply.into_texts();
                if slang.len() == 0 {
                    return Progress::Done(Err(new_field_error(ErrorKind::NotFound, Label::NoId)));
                }
                let first = slang[0].clone();
                let command = get_kv(&str_k_slang(&first));
                Progress::Ask(
                    Deletion::Context { query: ContextQuery::AwaitId, id, first, slang },
                    command,
                )
            },
            Deletion::Context { query, id, first, slang } => match query.step(reply) {
                Progress::Ask(query, command) => Progress::Ask(
                    Deletion::Context { query, id, first, slang },
                    command,
                ),
                Progress::Done(Err(error)) => Progress::Done(Err(error)),
                Progress::Done(Ok(context)) => {
                    let command = get_kv(&str_k_slang(&first));
                    Progress::Ask(
                        Deletion::Meta { query: MetaQuery::AwaitId, id, slang, context },
                        command,
                    )
                },
            },
            Deletion::Meta { query, id, slang, context } => match query.step(reply) {
                Progress::Ask(query, command) => Progress::Ask(
                    Deletion::Meta { query, id, slang, context },
                    command,
                ),
                Progress::Done(Err(error)) => Progress::Done(Err(error)),
                Progress::Done(Ok(meta)) => {
                    let command = del_kv(&hash_k_id(&id));
                    let bucket = Bucket { bucket_context: context, bucket_meta: meta };
                    Progress::Ask(Deletion::AwaitRecordGone { id, slang, bucket }, command)
                },
            },
            Deletion::AwaitRecordGone { id, slang, bucket } => {
                if reply.is_failed() {
                    return Progress::Done(
                        Err(new_field_error(ErrorKind::BackendUnavailable, Label::DelHashKId)),
                    );
                }
                Deletion::unbind_from(id, slang, 0, bucket)
            },
            Deletion::AwaitUnbound { id, slang, next, bucket } => {
                if reply.is_failed() {
                    return Progress::Done(
                        Err(new_field_error(ErrorKind::BackendUnavailable, Label::DelStrKSlang)),
                    );
                }
                Deletion::unbind_from(id, slang, next, bucket)
            },
            Deletion::AwaitSetGone { bucket } => {
                if reply.is_failed() {
                    return Progress::Done(
                        Err(new_field_error(ErrorKind::BackendUnavailable, Label::DelZsetKId)),
                    );
                }
                Progress::Done(Ok(bucket))
            },
        }
    }
}

} // verus!
