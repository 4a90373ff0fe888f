//! The commit that a run is dispatched for.
use vstd::prelude::*;
use crate::error::PipelineError;

verus! {

/// Number of characters of a commit hash sent and shown.
pub const SHORT_SHA_LEN: usize = 7;

/// The first `SHORT_SHA_LEN` characters of a hash, or the whole hash when it
/// is shorter.
pub open spec fn short_sha_spec(full: Seq<char>) -> Seq<char> {
    if full.len() >= SHORT_SHA_LEN {
        full.subrange(0, SHORT_SHA_LEN as int)
    } else {
        full
    }
}

/// A commit hash with its short form.
#[derive(Debug, Clone, PartialEq, Eq)]
pub struct CommitRef {
    pub full_sha: String,
    pub short_sha: String,
}

impl CommitRef {
    pub open spec fn wf(&self) -> bool {
        self.short_sha@ == short_sha_spec(self.full_sha@)
    }

    pub fn from_full_sha(full_sha: String) -> (r: CommitRef)
        ensures
            r.full_sha@ == full_sha@,
            r.wf(),
    {
        let len = full_sha.as_str().unicode_len();
        let end = if len >= SHORT_SHA_LEN {
            SHORT_SHA_LEN
        } else {
            len
        };
        let short_sha = String::from_str(full_sha.as_str().substring_char(0, end));
        assert(full_sha@.subrange(0, len as int) =~= full_sha@);
        CommitRef { full_sha, short_sha }
    }
}

/// Picks the most recent commit of a branch from its hashes, most recent
/// first. A branch without commits is an error.
pub fn latest_commit(shas: &Vec<String>) -> (r: Result<CommitRef, PipelineError>)
    ensures
        shas@.len() == 0 <==> r == Err::<CommitRef, PipelineError>(PipelineError::EmptyResult),
        shas@.len() > 0 ==> r is Ok && r->Ok_0.full_sha@ == shas@[0]@ && r->Ok_0.wf(),
{
    if shas.len() == 0 {
        Err(PipelineError::EmptyResult)
    } else {
        Ok(CommitRef::from_full_sha(shas[0].clone()))
    }
}

/// The short hash is the first `SHORT_SHA_LEN` characters of the full hash,
/// and has exactly that length whenever the full hash is at least that long.
pub proof fn lemma_short_sha_is_prefix(full: Seq<char>)
    ensures
        short_sha_spec(full).len() <= SHORT_SHA_LEN,
        full.len() >= SHORT_SHA_LEN ==> short_sha_spec(full).len() == SHORT_SHA_LEN,
        short_sha_spec(full) == full.subrange(0, short_sha_spec(full).len() as int),
{
    assert(full.subrange(0, full.len() as int) =~= full);
}

} // verus!
