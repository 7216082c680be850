//! The values that bucket operations take and return, the failures they
//! report, and the way an operation advances: command by command, reply by
//! reply.

use crate::backend::{Command, CommandView, ReplyView};
use crate::store::{after, reply_to, Store};
use vstd::prelude::*;

verus! {

/// A bucket's content, as a reader gets it.
#[derive(Debug, Clone, PartialEq, Eq)]
pub struct BucketContext {
    /// Identifier derived from the content.
    pub id: String,
    /// The payload.
    pub data: String,
    /// Content type of the payload.
    pub mime: String,
}

/// What is known about a bucket besides its content.
#[derive(Debug, Clone, PartialEq, Eq)]
pub struct BucketMeta {
    /// Identifier derived from the content.
    pub id: String,
    /// Every alias of the bucket, in listing order.
    pub slang: Vec<String>,
    /// Public key stored with the bucket, if any.
    pub rsa: Option<String>,
}

/// A bucket: content and metadata together.
#[derive(Debug, Clone, PartialEq, Eq)]
pub struct Bucket {
    pub bucket_context: BucketContext,
    pub bucket_meta: BucketMeta,
}

/// The request to create a bucket.
#[derive(Debug, Clone, PartialEq, Eq)]
pub struct NewBucket {
    pub data: String,
    pub mime: String,
    pub rsa: Option<String>,
}

/// The request to attach an alias to an identifier or to detach it.
#[derive(Debug, Clone, PartialEq, Eq)]
pub struct MetaChange {
    pub id: String,
    pub slang: String,
}

/// Mathematical form of [`BucketContext`].
pub ghost struct BucketContextView {
    pub id: Seq<char>,
    pub data: Seq<char>,
    pub mime: Seq<char>,
}

/// Mathematical form of [`BucketMeta`].
pub ghost struct BucketMetaView {
    pub id: Seq<char>,
    pub slang: Seq<Seq<char>>,
    pub rsa: Option<Seq<char>>,
}

/// Mathematical form of [`Bucket`].
pub ghost struct BucketView {
    pub bucket_context: BucketContextView,
    pub bucket_meta: BucketMetaView,
}

/// Mathematical form of [`NewBucket`].
pub ghost struct NewBucketView {
    pub data: Seq<char>,
    pub mime: Seq<char>,
    pub rsa: Option<Seq<char>>,
}

/// Mathematical form of [`MetaChange`].
pub ghost struct MetaChangeView {
    pub id: Seq<char>,
    pub slang: Seq<char>,
}

impl View for BucketContext {
    type V = BucketContextView;

    open spec fn view(&self) -> BucketContextView {
        BucketContextView { id: self.id@, data: self.data@, mime: self.mime@ }
    }
}

impl View for BucketMeta {
    type V = BucketMetaView;

    open spec fn view(&self) -> BucketMetaView {
        BucketMetaView {
            id: self.id@,
            slang: self.slang.deep_view(),
            rsa: self.rsa.deep_view(),
        }
    }
}

impl View for Bucket {
    type V = BucketView;

    open spec fn view(&self) -> BucketView {
        BucketView { bucket_context: self.bucket_context@, bucket_meta: self.bucket_meta@ }
    }
}

impl View for NewBucket {
    type V = NewBucketView;

    open spec fn view(&self) -> NewBucketView {
        NewBucketView { data: self.data@, mime: self.mime@, rsa: self.rsa.deep_view() }
    }
}

impl View for MetaChange {
    type V = MetaChangeView;

    open spec fn view(&self) -> MetaChangeView {
        MetaChangeView { id: self.id@, slang: self.slang@ }
    }
}

/// Why an operation failed.
#[derive(Debug, Clone, Copy, PartialEq, Eq, Structural)]
pub enum ErrorKind {
    /// The alias resolves to nothing, or the identifier has no record or no
    /// alias.
    NotFound,
    /// The alias is already bound.
    AlreadyExists,
    /// The change would break the index: it would take the last alias of an
    /// identifier, or the alias belongs to another identifier.
    Unsupported,
    /// A command to the backend failed.
    BackendUnavailable,
}

/// Where an operation failed: the step, or the guard that refused.
#[derive(Debug, Clone, Copy, PartialEq, Eq, Structural)]
pub enum Label {
    GetStrKSlang,
    SetStrKSlang,
    DelStrKSlang,
    GetHashKfData,
    GetHashKfMime,
    GetHashKfRsa,
    SetHashKfData,
    SetHashKfMime,
    SetHashKfRsa,
    DelHashKfRsa,
    DelHashKId,
    GetZsetKId,
    SetZsetKId,
    DelZsetKId,
    NoSlang,
    NoId,
    SlangExists,
    IdLastSlang,
    IdSlangMismatch,
}

/// A failure as the caller sees it: its kind and the label of the step. What
/// the backend said of its own failure is not part of it.
#[derive(Debug, Clone, Copy, PartialEq, Eq, Structural)]
pub struct FieldError {
    pub kind: ErrorKind,
    pub label: Label,
}

impl Label {
    /// The label as it is shown to the caller.
    pub open spec fn text(self) -> Seq<char> {
        match self {
            Label::GetStrKSlang => "GET_STR_K_SLANG"@,
            Label::SetStrKSlang => "SET_STR_K_SLANG"@,
            Label::DelStrKSlang => "DEL_STR_K_SLANG"@,
            Label::GetHashKfData => "GET_HASH_KF_DATA"@,
            Label::GetHashKfMime => "GET_HASH_KF_MIME"@,
            Label::GetHashKfRsa => "GET_HASH_KF_RSA"@,
            Label::SetHashKfData => "SET_HASH_KF_DATA"@,
            Label::SetHashKfMime => "SET_HASH_KF_MIME"@,
            Label::SetHashKfRsa => "SET_HASH_KF_RSA"@,
            Label::DelHashKfRsa => "DEL_HASH_KF_RSA"@,
            Label::DelHashKId => "DEL_HASH_K_ID"@,
            Label::GetZsetKId => "GET_ZSET_K_ID"@,
            Label::SetZsetKId => "SET_ZSET_K_ID"@,
            Label::DelZsetKId => "DEL_ZSET_K_ID"@,
            Label::NoSlang => "NO_SLANG"@,
            Label::NoId => "NO_ID"@,
            Label::SlangExists => "SLANG_EXISTS"@,
            Label::IdLastSlang => "ID_LAST_SLANG"@,
            Label::IdSlangMismatch => "ID_SLANG_MISMATCH"@,
        }
    }

    /// Renders the label for the caller.
    pub fn message(&self) -> (message: String)
        ensures
            message@ == self.text(),
    {
        let text: &str = match self {
            Label::GetStrKSlang => "GET_STR_K_SLANG",
            Label::SetStrKSlang => "SET_STR_K_SLANG",
            Label::DelStrKSlang => "DEL_STR_K_SLANG",
            Label::GetHashKfData => "GET_HASH_KF_DATA",
            Label::GetHashKfMime => "GET_HASH_KF_MIME",
            Label::GetHashKfRsa => "GET_HASH_KF_RSA",
            Label::SetHashKfData => "SET_HASH_KF_DATA",
            Label::SetHashKfMime => "SET_HASH_KF_MIME",
            Label::SetHashKfRsa => "SET_HASH_KF_RSA",
            Label::DelHashKfRsa => "DEL_HASH_KF_RSA",
            Label::DelHashKId => "DEL_HASH_K_ID",
            Label::GetZsetKId => "GET_ZSET_K_ID",
            Label::SetZsetKId => "SET_ZSET_K_ID",
            Label::DelZsetKId => "DEL_ZSET_K_ID",
            Label::NoSlang => "NO_SLANG",
            Label::NoId => "NO_ID",
            Label::SlangExists => "SLANG_EXISTS",
            Label::IdLastSlang => "ID_LAST_SLANG",
            Label::IdSlangMismatch => "ID_SLANG_MISMATCH",
        };
        text.to_owned()
    }
}

/// The failure of the step `label` for the reason `kind`.
pub open spec fn field_error(kind: ErrorKind, label: Label) -> FieldError {
    FieldError { kind, label }
}

/// The failure of a backend command at the step `label`.
pub open spec fn backend_failure(label: Label) -> FieldError {
    FieldError { kind: ErrorKind::BackendUnavailable, label }
}

/// Builds the failure of the step `label` for the reason `kind`.
pub fn new_field_error(kind: ErrorKind, label: Label) -> (error: FieldError)
    ensures
        error == field_error(kind, label),
{
    FieldError { kind, label }
}

/// Where an operation stands: it either asks for a command to be carried
/// out, keeping a state to go on from, or it is done.
#[derive(Debug, PartialEq, Eq)]
pub enum Progress<S, T> {
    /// Carry out the command and hand the reply to the state's `step`.
    Ask(S, Command),
    /// The operation has ended with this result.
    Done(Result<T, FieldError>),
}

/// Mathematical form of [`Progress`].
pub ghost enum Trace<S, T> {
    Ask(S, CommandView),
    Done(Result<T, FieldError>),
}

impl<S: View, T: View> View for Progress<S, T> {
    type V = Trace<S::V, T::V>;

    open spec fn view(&self) -> Trace<S::V, T::V> {
        match self {
            Progress::Ask(state, command) => Trace::Ask(state@, command@),
            Progress::Done(Ok(value)) => Trace::Done(Ok(value@)),
            Progress::Done(Err(error)) => Trace::Done(Err(*error)),
        }
    }
}

/// Where an operation stands, and what the backend holds, after the model
/// backend has answered at most `fuel` of its commands, starting at `at`
/// with `store`.
pub open spec fn run<S, T>(
    step: spec_fn(S, ReplyView) -> Trace<S, T>,
    at: Trace<S, T>,
    store: Store,
    fuel: nat,
) -> (Trace<S, T>, Store)
    decreases fuel,
{
    match at {
        Trace::Ask(state, command) => if fuel == 0 {
            (at, store)
        } else {
            run(
                step,
                step(state, reply_to(store, command)),
                after(store, command),
                (fuel - 1) as nat,
            )
        },
        Trace::Done(_) => (at, store),
    }
}

} // verus!
