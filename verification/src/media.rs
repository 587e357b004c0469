//! What is known of a media file, and how updates change it.

use vstd::prelude::*;

verus! {

/// Whether a record stays in the store after a merge.
#[derive(Debug, Clone, Copy, PartialEq, Eq)]
pub enum MergeVerdict {
    Keep,
    Remove,
}

/// A record that takes updates of type `U`.
pub trait Merge<U> {
    fn merge(&mut self, update: U) -> MergeVerdict;
}

/// What is known of one media file.
#[derive(Debug)]
pub struct Media {
    /// Exists on disk to the best of our knowledge.
    pub exists: bool,
}

/// One update to a [`Media`].
#[derive(Debug, Clone, Copy, PartialEq, Eq)]
pub enum Op {
    Exists(bool),
}

impl Default for Media {
    /// A file of which nothing is known does not exist.
    fn default() -> (media: Media)
        ensures
            !media.exists,
    {
        Media { exists: false }
    }
}

/// What a record says after the updates are applied in order: the last one
/// decides, and without updates the record stays as it is.
pub open spec fn merged_exists(exists: bool, ops: Seq<Op>) -> bool {
    if ops.len() == 0 {
        exists
    } else {
        match ops.last() {
            Op::Exists(b) => b,
        }
    }
}

impl Merge<Vec<Op>> for Media {
    /// Applies the updates in order. The record is always kept.
    fn merge(&mut self, ops: Vec<Op>) -> (verdict: MergeVerdict)
        ensures
            final(self).exists == merged_exists(old(self).exists, ops@),
            verdict is Keep,
    {
        let mut i: usize = 0;
        while i < ops.len()
            invariant
                i <= ops.len(),
                self.exists == merged_exists(old(self).exists, ops@.take(i as int)),
            decreases ops.len() - i,
        {
            match ops[i] {
                Op::Exists(b) => self.exists = b,
            }
            assert(ops@.take(i + 1).last() == ops@[i as int]);
            i += 1;
        }
        assert(ops@.take(ops.len() as int) =~= ops@);
        MergeVerdict::Keep
    }
}

/// Merging updates in two batches is merging them in one.
pub proof fn lemma_merge_in_batches(exists: bool, first: Seq<Op>, second: Seq<Op>)
    ensures
        merged_exists(merged_exists(exists, first), second) == merged_exists(
            exists,
            first + second,
        ),
{
    if second.len() > 0 {
        assert((first + second).last() == second.last());
    } else {
        assert(first + second =~= first);
    }
}

} // verus!
