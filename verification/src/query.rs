//! Reading a bucket by one of its aliases: its content, or its metadata.
//!
//! Both reads resolve the alias first. A field that the record lacks reads
//! as the empty text, an alias set that is missing as the empty list.

use crate::backend::{
    bucket_key, data_field, get_hash_kfv, get_kv, get_sorted_kv, hash_k_id, mime_field,
    rsa_field, slang_key, slangs_key, str_k_slang, zset_k_id, CommandView, Reply, ReplyView,
    HASH_KF_DATA, HASH_KF_MIME, HASH_KF_RSA,
};
use crate::bucket::{
    backend_failure, field_error, new_field_error, BucketContext, BucketContextView, BucketMeta,
    BucketMetaView, ErrorKind, Label, Progress, Trace,
};
use vstd::prelude::*;
use vstd::string::*;

verus! {

/// How far the read of a bucket's content has come.
#[derive(Debug, Clone, PartialEq, Eq)]
pub enum ContextQuery {
    /// The alias is being resolved.
    AwaitId,
    /// The payload of `id` is being read.
    AwaitData { id: String },
    /// The content type of `id` is being read.
    AwaitMime { id: String, data: String },
}

/// Mathematical form of [`ContextQuery`].
pub ghost enum ContextQueryView {
    AwaitId,
    AwaitData { id: Seq<char> },
    AwaitMime { id: Seq<char>, data: Seq<char> },
}

impl View for ContextQuery {
    type V = ContextQueryView;

    open spec fn view(&self) -> ContextQueryView {
        match self {
            ContextQuery::AwaitId => ContextQueryView::AwaitId,
            ContextQuery::AwaitData { id } => ContextQueryView::AwaitData { id: id@ },
            ContextQuery::AwaitMime { id, data } => ContextQueryView::AwaitMime {
                id: id@,
                data: data@,
            },
        }
    }
}

impl ContextQueryView {
    /// The read of the content behind `slang` begins by resolving the alias.
    pub open spec fn start(slang: Seq<char>) -> Trace<ContextQueryView, BucketContextView> {
        Trace::Ask(ContextQueryView::AwaitId, CommandView::Get { key: slang_key(slang) })
    }

    /// How the read goes on when the backend has answered with `reply`.
    pub open spec fn step(self, reply: ReplyView) -> Trace<ContextQueryView, BucketContextView> {
        match self {
            ContextQueryView::AwaitId => if reply is Failed {
                Trace::Done(Err(backend_failure(Label::GetStrKSlang)))
            } else if reply is Nil {
                Trace::Done(Err(field_error(ErrorKind::NotFound, Label::NoSlang)))
            } else {
                Trace::Ask(
                    ContextQueryView::AwaitData { id: reply.text() },
                    CommandView::HashGet { key: bucket_key(reply.text()), field: data_field() },
                )
            },
            ContextQueryView::AwaitData { id } => if reply is Failed {
                Trace::Done(Err(backend_failure(Label::GetHashKfData)))
            } else {
                Trace::Ask(
                    ContextQueryView::AwaitMime { id, data: reply.text() },
                    CommandView::HashGet { key: bucket_key(id), field: mime_field() },
                )
            },
            ContextQueryView::AwaitMime { id, data } => if reply is Failed {
                Trace::Done(Err(backend_failure(Label::GetHashKfMime)))
            } else {
                Trace::Done(Ok(BucketContextView { id, data, mime: reply.text() }))
            },
        }
    }
}

/// How far the read of a bucket's metadata has come.
#[derive(Debug, Clone, PartialEq, Eq)]
pub enum MetaQuery {
    /// The alias is being resolved.
    AwaitId,
    /// The aliases of `id` are being listed.
    AwaitSlangs { id: String },
    /// The public key of `id` is being read.
    AwaitRsa { id: String, slang: Vec<String> },
}

/// Mathematical form of [`MetaQuery`].
pub ghost enum MetaQueryView {
    AwaitId,
    AwaitSlangs { id: Seq<char> },
    AwaitRsa { id: Seq<char>, slang: Seq<Seq<char>> },
}

impl View for MetaQuery {
    type V = MetaQueryView;

    open spec fn view(&self) -> MetaQueryView {
        match self {
            MetaQuery::AwaitId => MetaQueryView::AwaitId,
            MetaQuery::AwaitSlangs { id } => MetaQueryView::AwaitSlangs { id: id@ },
            MetaQuery::AwaitRsa { id, slang } => MetaQueryView::AwaitRsa {
                id: id@,
                slang: slang.deep_view(),
            },
        }
    }
}

impl MetaQueryView {
    /// The read of the metadata behind `slang` begins by resolving the alias.
    pub open spec fn start(slang: Seq<char>) -> Trace<MetaQueryView, BucketMetaView> {
        Trace::Ask(MetaQueryView::AwaitId, CommandView::Get { key: slang_key(slang) })
    }

    /// How the read goes on when the backend has answered with `reply`.
    pub open spec fn step(self, reply: ReplyView) -> Trace<MetaQueryView, BucketMetaView> {
        match self {
            MetaQueryView::AwaitId => if reply is Failed {
                Trace::Done(Err(backend_failure(Label::GetStrKSlang)))
            } else if reply is Nil {
                Trace::Done(Err(field_error(ErrorKind::NotFound, Label::NoSlang)))
            } else {
                Trace::Ask(
                    MetaQueryView::AwaitSlangs { id: reply.text() },
                    CommandView::SortedRange { key: slangs_key(reply.text()) },
                )
            },
            MetaQueryView::AwaitSlangs { id } => if reply is Failed {
                Trace::Done(Err(backend_failure(Label::GetZsetKId)))
            } else {
                Trace::Ask(
                    MetaQueryView::AwaitRsa { id, slang: reply.texts() },
                    CommandView::HashGet { key: bucket_key(id), field: rsa_field() },
                )
            },
            MetaQueryView::AwaitRsa { id, slang } => if reply is Failed {
                Trace::Done(Err(backend_failure(Label::GetHashKfRsa)))
            } else {
                Trace::Done(Ok(BucketMetaView { id, slang, rsa: reply.maybe_text() }))
            },
        }
    }
}

/// Begins the read of the content behind `slang`.
pub fn query_bucket_context(slang: String) -> (progress: Progress<ContextQuery, BucketContext>)
    ensures
        progress@ == ContextQueryView::start(slang@),
{
    Progress::Ask(ContextQuery::AwaitId, get_kv(&str_k_slang(&slang)))
}

/// Begins the read of the metadata behind `slang`.
pub fn query_bucket_meta(slang: String) -> (progress: Progress<MetaQuery, BucketMeta>)
    ensures
        progress@ == MetaQueryView::start(slang@),
{
    Progress::Ask(MetaQuery::AwaitId, get_kv(&str_k_slang(&slang)))
}

impl ContextQuery {
    /// Takes the reply to the command last asked for and goes on.
    pub fn step(self, reply: Reply) -> (progress: Progress<ContextQuery, BucketContext>)
        ensures
            progress@ == self@.step(reply@),
    {
        match self {
            ContextQuery::AwaitId => {
                if reply.is_failed() {
                    return Progress::Done(
                        Err(new_field_error(ErrorKind::BackendUnavailable, Label::GetStrKSlang)),
                    );
                }
                if reply.is_nil() {
                    return Progress::Done(
                        Err(new_field_error(ErrorKind::NotFound, Label::NoSlang)),
                    );
                }
                let id = reply.into_text();
                let command = get_hash_kfv(&hash_k_id(&id), &HASH_KF_DATA.to_owned());
                Progress::Ask(ContextQuery::AwaitData { id }, command)
            },
            ContextQuery::AwaitData { id } => {
                if reply.is_failed() {
                    return Progress::Done(
                        Err(new_field_error(ErrorKind::BackendUnavailable, Label::GetHashKfData)),
                    );
                }
                let data = reply.into_text();
                let command = get_hash_kfv(&hash_k_id(&id), &HASH_KF_MIME.to_owned());
                Progress::Ask(ContextQuery::AwaitMime { id, data }, command)
            },
            ContextQuery::AwaitMime { id, data } => {
                if reply.is_failed() {
                    return Progress::Done(
                        Err(new_field_error(ErrorKind::BackendUnavailable, Label::GetHashKfMime)),
                    );
                }
                let mime = reply.into_text();
                Progress::Done(Ok(BucketContext { id, data, mime }))
            },
        }
    }
}

impl MetaQuery {
    /// Takes the reply to the command last asked for and goes on.
    pub fn step(self, reply: Reply) -> (progress: Progress<MetaQuery, BucketMeta>)
        ensures
            progress@ == self@.step(reply@),
    {
        match self {
            MetaQuery::AwaitId => {
                if reply.is_failed() {
                    return Progress::Done(
                        Err(new_field_error(ErrorKind::BackendUnavailable, Label::GetStrKSlang)),
                    );
                }
                if reply.is_nil() {
                    return Progress::Done(
                        Err(new_field_error(ErrorKind::NotFound, Label::NoSlang)),
                    );
                }
                let id = reply.into_text();
                let command = get_sorted_kv(&zset_k_id(&id));
                Progress::Ask(MetaQuery::AwaitSlangs { id }, command)
            },
            MetaQuery::AwaitSlangs { id } => {
                if reply.is_failed() {
                    return Progress::Done(
                        Err(new_field_error(ErrorKind::BackendUnavailable, Label::GetZsetKId)),
                    );
                }
                let slang = reply.into_texts();
                let command = get_hash_kfv(&hash_k_id(&id), &HASH_KF_RSA.to_owned());
                Progress::Ask(MetaQuery::AwaitRsa { id, slang }, command)
            },
            MetaQuery::AwaitRsa { id, slang } => {
                if reply.is_failed() {
                    return Progress::Done(
                        Err(new_field_error(ErrorKind::BackendUnavailable, Label::GetHashKfRsa)),
                    );
                }
                let rsa = reply.into_maybe_text();
                Progress::Done(Ok(BucketMeta { id, slang, rsa }))
            },
        }
    }
}

/// The reads that the service offers.
pub struct QueryRoot;

impl QueryRoot {
    /// Version of the interface.
    #[allow(non_snake_case)]
    pub fn apiVersion() -> (version: &'static str)
        ensures
            version@ == "0.1.0"@,
    {
        "0.1.0"
    }

    /// Begins the read of the content behind `slang`.
    #[allow(non_snake_case)]
    pub fn bucketContext(slang: String) -> (progress: Progress<ContextQuery, BucketContext>)
        ensures
            progress@ == ContextQueryView::start(slang@),
    {
        query_bucket_context(slang)
    }

    /// Begins the read of the metadata behind `slang`.
    #[allow(non_snake_case)]
    pub fn bucketMeta(slang: String) -> (progress: Progress<MetaQuery, BucketMeta>)
        ensures
            progress@ == MetaQueryView::start(slang@),
    {
        query_bucket_meta(slang)
    }
}

} // verus!
