//! Open pull requests that the user may pick from.
use vstd::prelude::*;
use crate::text::{decimal_chars, push_decimal};

verus! {

/// One item of the issue search: its number, and whether it is a pull request.
#[derive(Debug, Clone, Copy, PartialEq, Eq, Structural)]
pub struct SearchHit {
    pub number: u64,
    pub is_pull_request: bool,
}

/// A pull request with the detail that selection and dispatch need.
#[derive(Debug, Clone, PartialEq, Eq)]
pub struct PullRequestCandidate {
    pub number: u64,
    pub title: Option<String>,
    /// Name of the head branch.
    pub branch_ref: String,
    /// Login of the pull request's author.
    pub author: String,
}

impl PullRequestCandidate {
    /// An exact copy.
    pub fn duplicate(&self) -> (r: PullRequestCandidate)
        ensures
            r == *self,
    {
        let title = match &self.title {
            Some(t) => Some(t.clone()),
            None => None,
        };
        PullRequestCandidate {
            number: self.number,
            title,
            branch_ref: self.branch_ref.clone(),
            author: self.author.clone(),
        }
    }
}

/// The search query for the open pull requests of `user` in `owner/repo`.
pub open spec fn search_query_spec(user: Seq<char>, owner: Seq<char>, repo: Seq<char>) -> Seq<char> {
    "type:pr state:open author:"@ + user + " repo:"@ + owner + "/"@ + repo
}

pub fn search_query(user: &str, owner: &str, repo: &str) -> (r: String)
    ensures
        r@ == search_query_spec(user@, owner@, repo@),
{
    let mut q = String::from_str("type:pr state:open author:");
    q.append(user);
    q.append(" repo:");
    q.append(owner);
    q.append("/");
    q.append(repo);
    q
}

pub open spec fn pull_request_number(h: SearchHit) -> Option<u64> {
    if h.is_pull_request {
        Some(h.number)
    } else {
        None
    }
}

/// The numbers of the hits that are pull requests, in search order.
pub open spec fn pull_request_numbers_spec(hits: Seq<SearchHit>) -> Seq<u64> {
    hits.filter_map(|h: SearchHit| pull_request_number(h))
}

pub fn pull_request_numbers(hits: &Vec<SearchHit>) -> (r: Vec<u64>)
    ensures
        r@ == pull_request_numbers_spec(hits@),
{
    let mut out: Vec<u64> = Vec::new();
    let mut i: usize = 0;
    while i < hits.len()
        invariant
            i <= hits@.len(),
            out@ == pull_request_numbers_spec(hits@.subrange(0, i as int)),
        decreases hits@.len() - i,
    {
        assert(hits@.subrange(0, i + 1).drop_last() =~= hits@.subrange(0, i as int));
        let h = hits[i];
        if h.is_pull_request {
            out.push(h.number);
        }
        i = i + 1;
    }
    assert(hits@.subrange(0, hits@.len() as int) =~= hits@);
    out
}

/// A fetched pull request counts as a candidate when its detail arrived and
/// `identity` wrote it.
pub open spec fn authored_by(o: Option<PullRequestCandidate>, identity: Seq<char>) -> Option<
    PullRequestCandidate,
> {
    match o {
        Some(c) => if c.author@ == identity {
            Some(c)
        } else {
            None
        },
        None => None,
    }
}

/// The candidates among the fetched pull requests, in the order fetched.
pub open spec fn authored_candidates_spec(
    fetched: Seq<Option<PullRequestCandidate>>,
    identity: Seq<char>,
) -> Seq<PullRequestCandidate> {
    fetched.filter_map(|o: Option<PullRequestCandidate>| authored_by(o, identity))
}

/// Keeps the pull requests whose detail arrived and whose author is
/// `identity`, in their order. Failed detail lookups are dropped.
pub fn authored_candidates(fetched: &Vec<Option<PullRequestCandidate>>, identity: &str) -> (r: Vec<
    PullRequestCandidate,
>)
    ensures
        r@ == authored_candidates_spec(fetched@, identity@),
{
    let identity = String::from_str(identity);
    let mut out: Vec<PullRequestCandidate> = Vec::new();
    let mut i: usize = 0;
    while i < fetched.len()
        invariant
            i <= fetched@.len(),
            out@ == authored_candidates_spec(fetched@.subrange(0, i as int), identity@),
        decreases fetched@.len() - i,
    {
        assert(fetched@.subrange(0, i + 1).drop_last() =~= fetched@.subrange(0, i as int));
        match &fetched[i] {
            Some(c) => {
                if c.author == identity {
                    out.push(c.duplicate());
                }
            },
            None => {},
        }
        i = i + 1;
    }
    assert(fetched@.subrange(0, fetched@.len() as int) =~= fetched@);
    out
}

/// `c` is fetched at position `j`.
pub open spec fn fetched_at(fetched: Seq<Option<PullRequestCandidate>>, j: int, c: PullRequestCandidate) -> bool {
    0 <= j < fetched.len() && fetched[j] == Some(c)
}

/// `c1` is fetched before `c2`.
pub open spec fn fetched_before(
    fetched: Seq<Option<PullRequestCandidate>>,
    c1: PullRequestCandidate,
    c2: PullRequestCandidate,
) -> bool {
    exists|j1: int, j2: int| j1 < j2 && fetched_at(fetched, j1, c1) && fetched_at(fetched, j2, c2)
}

/// Every candidate was written by `identity` and is one of the fetched pull
/// requests, and any two candidates stand in the order in which they were
/// fetched.
pub proof fn lemma_candidates_authored_by(
    fetched: Seq<Option<PullRequestCandidate>>,
    identity: Seq<char>,
)
    ensures
        forall|k: int|
            0 <= k < authored_candidates_spec(fetched, identity).len() ==> {
                let c = #[trigger] authored_candidates_spec(fetched, identity)[k];
                &&& c.author@ == identity
                &&& exists|j: int| fetched_at(fetched, j, c)
            },
        forall|k1: int, k2: int|
            #![trigger authored_candidates_spec(fetched, identity)[k1], authored_candidates_spec(fetched, identity)[k2]]
            0 <= k1 < k2 < authored_candidates_spec(fetched, identity).len() ==> fetched_before(
                fetched,
                authored_candidates_spec(fetched, identity)[k1],
                authored_candidates_spec(fetched, identity)[k2],
            ),
    decreases fetched.len(),
{
    if fetched.len() > 0 {
        let rest = fetched.drop_last();
        lemma_candidates_authored_by(rest, identity);
        let r = authored_candidates_spec(fetched, identity);
        let r0 = authored_candidates_spec(rest, identity);
        assert forall|k: int| 0 <= k < r.len() implies {
            let c = #[trigger] r[k];
            &&& c.author@ == identity
            &&& exists|j: int| fetched_at(fetched, j, c)
        } by {
            if k < r0.len() {
                assert(r[k] == r0[k]);
                let j = choose|j: int| fetched_at(rest, j, r0[k]);
                assert(fetched_at(fetched, j, r[k]));
            } else {
                assert(fetched_at(fetched, fetched.len() - 1, r[k]));
            }
        }
        assert forall|k1: int, k2: int| #![trigger r[k1], r[k2]]
            0 <= k1 < k2 < r.len() implies fetched_before(fetched, r[k1], r[k2]) by {
            assert(r[k1] == r0[k1]);
            if k2 < r0.len() {
                assert(r[k2] == r0[k2]);
                assert(fetched_before(rest, r0[k1], r0[k2]));
                let (j1, j2) = choose|j1: int, j2: int|
                    j1 < j2 && fetched_at(rest, j1, r0[k1]) && fetched_at(rest, j2, r0[k2]);
                assert(fetched_at(fetched, j1, r[k1]) && fetched_at(fetched, j2, r[k2]));
            } else {
                let j1 = choose|j: int| fetched_at(rest, j, r0[k1]);
                assert(fetched_at(fetched, j1, r[k1]));
                assert(fetched_at(fetched, fetched.len() - 1, r[k2]));
                assert(j1 < fetched.len() - 1);
            }
        }
    }
}

/// The title shown for a pull request; empty when it has none.
pub open spec fn title_spec(c: PullRequestCandidate) -> Seq<char> {
    match c.title {
        Some(t) => t@,
        None => Seq::empty(),
    }
}

/// How a candidate is shown: `#<number> - <title>`.
pub open spec fn candidate_label_spec(c: PullRequestCandidate) -> Seq<char> {
    "#"@ + decimal_chars(c.number as nat) + " - "@ + title_spec(c)
}

pub fn candidate_label(c: &PullRequestCandidate) -> (r: String)
    ensures
        r@ == candidate_label_spec(*c),
{
    let mut out = String::from_str("#");
    push_decimal(&mut out, c.number);
    out.append(" - ");
    match &c.title {
        Some(t) => out.append(t.as_str()),
        None => {},
    }
    assert(out@ =~= candidate_label_spec(*c));
    out
}

/// The labels of `cs`, one for each, in the same order.
pub fn candidate_labels(cs: &Vec<PullRequestCandidate>) -> (r: Vec<String>)
    ensures
        r@.len() == cs@.len(),
        forall|i: int| 0 <= i < cs@.len() ==> #[trigger] r@[i]@ == candidate_label_spec(cs@[i]),
{
    let mut out: Vec<String> = Vec::new();
    let mut i: usize = 0;
    while i < cs.len()
        invariant
            i <= cs@.len(),
            out@.len() == i,
            forall|k: int| 0 <= k < i ==> #[trigger] out@[k]@ == candidate_label_spec(cs@[k]),
        decreases cs@.len() - i,
    {
        out.push(candidate_label(&cs[i]));
        i = i + 1;
    }
    out
}

} // verus!
