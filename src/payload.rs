//! The request that starts a workflow run.
use vstd::prelude::*;
use crate::commit::CommitRef;
use crate::error::PipelineError;

verus! {

/// A workflow dispatch. Its inputs are exactly `commit_sha` and `target`.
#[derive(Debug, Clone, PartialEq, Eq)]
pub struct DispatchRequest {
    pub owner: String,
    pub repo: String,
    pub workflow_id: String,
    /// The branch the run is started on.
    pub git_ref: String,
    /// Value of the `commit_sha` input: the short hash.
    pub commit_sha: String,
    /// Value of the `target` input: the environment label.
    pub target: String,
}

/// The input names and values of a dispatch, in this order.
pub open spec fn inputs_spec(r: DispatchRequest) -> Seq<(Seq<char>, Seq<char>)> {
    seq![("commit_sha"@, r.commit_sha@), ("target"@, r.target@)]
}

/// Inputs are well formed: exactly the two fixed names, each with a
/// non-empty value.
pub open spec fn inputs_wf(inputs: Seq<(Seq<char>, Seq<char>)>) -> bool {
    &&& inputs.len() == 2
    &&& inputs[0].0 == "commit_sha"@
    &&& inputs[1].0 == "target"@
    &&& inputs[0].1.len() > 0
    &&& inputs[1].1.len() > 0
}

impl DispatchRequest {
    /// A request that may be sent: non-empty branch and inputs.
    pub open spec fn wf(&self) -> bool {
        &&& self.git_ref@.len() > 0
        &&& inputs_wf(inputs_spec(*self))
    }

    /// An exact copy.
    pub fn duplicate(&self) -> (r: DispatchRequest)
        ensures
            r == *self,
    {
        DispatchRequest {
            owner: self.owner.clone(),
            repo: self.repo.clone(),
            workflow_id: self.workflow_id.clone(),
            git_ref: self.git_ref.clone(),
            commit_sha: self.commit_sha.clone(),
            target: self.target.clone(),
        }
    }

    /// The inputs as name/value pairs.
    pub fn inputs(&self) -> (r: Vec<(String, String)>)
        ensures
            r@.len() == 2,
            forall|i: int| 0 <= i < 2 ==> (#[trigger] r@[i]).0@ == inputs_spec(*self)[i].0 && r@[i].1@
                == inputs_spec(*self)[i].1,
    {
        let mut out: Vec<(String, String)> = Vec::new();
        out.push((String::from_str("commit_sha"), self.commit_sha.clone()));
        out.push((String::from_str("target"), self.target.clone()));
        out
    }
}

/// The fields of `r` are the given values.
pub open spec fn request_holds(
    r: DispatchRequest,
    owner: Seq<char>,
    repo: Seq<char>,
    workflow_id: Seq<char>,
    branch: Seq<char>,
    commit_sha: Seq<char>,
    target: Seq<char>,
) -> bool {
    &&& r.owner@ == owner
    &&& r.repo@ == repo
    &&& r.workflow_id@ == workflow_id
    &&& r.git_ref@ == branch
    &&& r.commit_sha@ == commit_sha
    &&& r.target@ == target
}

/// Builds the dispatch of `commit` on `branch` for environment label
/// `target`. An empty branch, short hash or target is refused.
pub fn build_dispatch_request(
    owner: &str,
    repo: &str,
    workflow_id: &str,
    branch: &str,
    commit: &CommitRef,
    target: &str,
) -> (r: Result<DispatchRequest, PipelineError>)
    ensures
        (branch@.len() == 0 || commit.short_sha@.len() == 0 || target@.len() == 0) <==> r
            == Err::<DispatchRequest, PipelineError>(PipelineError::EmptyPayloadField),
        !(branch@.len() == 0 || commit.short_sha@.len() == 0 || target@.len() == 0) ==> r is Ok,
        r is Ok ==> request_holds(
            r->Ok_0,
            owner@,
            repo@,
            workflow_id@,
            branch@,
            commit.short_sha@,
            target@,
        ),
        r is Ok ==> r->Ok_0.wf(),
{
    if branch.unicode_len() == 0 || commit.short_sha.as_str().unicode_len() == 0
        || target.unicode_len() == 0 {
        return Err(PipelineError::EmptyPayloadField);
    }
    let r = DispatchRequest {
        owner: String::from_str(owner),
        repo: String::from_str(repo),
        workflow_id: String::from_str(workflow_id),
        git_ref: String::from_str(branch),
        commit_sha: commit.short_sha.clone(),
        target: String::from_str(target),
    };
    proof {
        reveal_strlit("commit_sha");
        reveal_strlit("target");
    }
    Ok(r)
}

} // verus!
