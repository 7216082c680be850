//! The changes that the service offers, each begun here and carried on by
//! the `step` of the state it returns.

use crate::alias::{SlangAddition, SlangAdditionView, SlangRemoval, SlangRemovalView};
use crate::bucket::{Bucket, BucketMeta, MetaChange, NewBucket, Progress};
use crate::create::{Creation, CreationView};
use crate::delete::{Deletion, DeletionView};
use crate::hash::{alternates, is_lower_hex, SLANG_LEN};
use vstd::prelude::*;

verus! {

/// The changes that the service offers.
pub struct MutationRoot;

impl MutationRoot {
    /// Begins to delete the bucket of `id`, with all of its aliases.
    #[allow(non_snake_case)]
    pub fn deleteBucket(id: String) -> (progress: Progress<Deletion, Bucket>)
        ensures
            progress@ == DeletionView::start(id@),
    {
        Deletion::start(id)
    }

    /// Begins to detach an alias from an identifier.
    #[allow(non_snake_case)]
    pub fn dropSlang(meta_change: MetaChange) -> (progress: Progress<SlangRemoval, BucketMeta>)
        ensures
            progress@ == SlangRemovalView::start(meta_change@),
    {
        SlangRemoval::start(meta_change)
    }

    /// Begins to attach a further alias to an identifier.
    #[allow(non_snake_case)]
    pub fn setSlang(meta_change: MetaChange) -> (progress: Progress<SlangAddition, BucketMeta>)
        ensures
            progress@ == SlangAdditionView::start(meta_change@),
    {
        SlangAddition::start(meta_change)
    }

    /// Begins to create a bucket. The identifier kept in the state is the
    /// 64 hexadecimal digits derived from the payload, the alias the eleven
    /// letters derived from the identifier.
    #[allow(non_snake_case)]
    pub fn createBucket(new_bucket: NewBucket) -> (progress: Progress<Creation, BucketMeta>)
        ensures
            progress@ == CreationView::start(new_bucket@),
            (progress matches Progress::Ask(Creation::AwaitMime { id, slang, .. }, _) && id@.len()
                == 64 && is_lower_hex(id@) && slang@.len() == SLANG_LEN && alternates(slang@)),
    {
        Creation::start(new_bucket)
    }
}

} // verus!
