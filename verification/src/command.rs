use vstd::prelude::*;
use vstd::string::StringExecFns;
use crate::config::Command;
use crate::config::Configuration;
use crate::repository::RepoError;
use crate::repository::SourceRepository;

verus! {

/// The tag name derived for a branch and an operation label:
/// `gitop/` + branch + `/` + operation, both taken verbatim. No
/// normalization or escaping is applied, so an operation that already
/// contains `/` yields a tag name with extra path segments.
pub open spec fn tag_name(branch: Seq<char>, operation: Seq<char>) -> Seq<char> {
    "gitop/"@ + branch + "/"@ + operation
}

/// Builds the tag name for a branch and an operation label.
pub fn make_tag_name(branch: &str, operation: &str) -> (r: String)
    ensures
        r@ == tag_name(branch@, operation@),
{
    let mut t = String::from_str("gitop/");
    t.append(branch);
    t.append("/");
    t.append(operation);
    t
}

/// What a successful `Tag` run did to the backend: the tag derived from the
/// backend's branch and the configuration's operation was published exactly
/// once, in the one publish attempt made, and the branch is untouched.
pub open spec fn tag_succeeded<R: SourceRepository>(
    cli: &Configuration,
    pre: R,
    post: R,
    t: Seq<char>,
) -> bool {
    &&& t == tag_name(pre.branch(), cli.operation@)
    &&& post.attempts() == pre.attempts().push(t)
    &&& post.pushed() == pre.pushed().push(t)
    &&& post.branch() == pre.branch()
}

/// What a failed `Tag` run did to the backend: nothing was published, and
/// the failure tells which step gave up. A branch-read failure surfaces as
/// `RepositoryUnavailable` before any publish attempt; a publish failure
/// surfaces as `PublishFailed` after exactly one attempt, with no retry.
pub open spec fn tag_failed<R: SourceRepository>(
    cli: &Configuration,
    pre: R,
    post: R,
    e: RepoError,
) -> bool {
    &&& post.pushed() == pre.pushed()
    &&& post.branch() == pre.branch()
    &&& e == RepoError::RepositoryUnavailable ==> post.attempts() == pre.attempts()
    &&& e == RepoError::PublishFailed ==> post.attempts() == pre.attempts().push(
        tag_name(pre.branch(), cli.operation@),
    )
}

impl Command {
    /// The `Tag` behavior: reads the current branch once, derives the tag
    /// name `gitop/` + branch + `/` + operation, publishes it exactly once,
    /// and returns the derived name. A capability failure aborts the run
    /// before any further step and is propagated unchanged; against a
    /// backend that can fail neither step, the run is bound to succeed.
    pub fn tag<R: SourceRepository>(cli: &Configuration, repo: &mut R) -> (r: Result<
        String,
        RepoError,
    >)
        ensures
            r matches Ok(t) ==> tag_succeeded(cli, *old(repo), *final(repo), t@),
            r matches Err(e) ==> tag_failed(cli, *old(repo), *final(repo), e),
            !old(repo).read_can_fail() && !old(repo).push_can_fail() ==> r is Ok,
    {
        let branch_name = match repo.get_current_branch() {
            Ok(b) => b,
            Err(e) => {
                return Err(e);
            },
        };
        let tag_str = make_tag_name(branch_name.as_str(), cli.operation.as_str());
        match repo.push_tag(tag_str.clone()) {
            Ok(_) => Ok(tag_str),
            Err(e) => Err(e),
        }
    }

    /// The `Check` behavior: a placeholder that touches no capability state
    /// and always succeeds with an empty result.
    pub fn check<R: SourceRepository>(_cli: &Configuration, _repo: &R) -> (r: Result<
        String,
        RepoError,
    >)
        ensures
            r matches Ok(t) && t@ == Seq::<char>::empty(),
    {
        Ok(String::new())
    }

    /// Maps the discriminator to one of the two behaviors and runs it
    /// against the given configuration and backend. `Tag` publishes the
    /// derived tag name exactly once and returns it, or aborts on the first
    /// capability failure; `Check` leaves the backend untouched and returns
    /// an empty result.
    pub fn run<R: SourceRepository>(&self, cli: &Configuration, repo: &mut R) -> (r: Result<
        String,
        RepoError,
    >)
        ensures
            self is Tag ==> {
                &&& (r matches Ok(t) ==> tag_succeeded(cli, *old(repo), *final(repo), t@))
                &&& (r matches Err(e) ==> tag_failed(cli, *old(repo), *final(repo), e))
                &&& (!old(repo).read_can_fail() && !old(repo).push_can_fail() ==> r is Ok)
            },
            self is Check ==> {
                &&& r matches Ok(t) && t@ == Seq::<char>::empty()
                &&& *final(repo) == *old(repo)
            },
    {
        match self {
            Command::Tag => Self::tag(cli, repo),
            Command::Check => Self::check(cli, &*repo),
        }
    }
}

} // verus!
