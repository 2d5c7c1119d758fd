use vstd::prelude::*;
use vstd::string::StringExecFns;

verus! {

/// The failure kinds a version-control backend can signal.
#[derive(Clone, Copy, Debug, PartialEq, Eq, Structural)]
pub enum RepoError {
    /// The working copy could not be inspected for its current branch.
    RepositoryUnavailable,
    /// The backend could not record or push the tag.
    PublishFailed,
}

/// The capability every version-control backend must provide: read the
/// current branch, and publish a tag.
///
/// The ghost model exposes three histories of the backend: the branch it
/// reports, every publish attempt made against it, and every tag actually
/// published. Callers are held to these, so "publish at most once" and
/// "abort without publishing" are provable facts about any caller, not
/// promises of one backend.
pub trait SourceRepository {
    /// The branch the backend currently reports.
    spec fn branch(&self) -> Seq<char>;

    /// Whether this backend can ever fail a branch read. A backend on
    /// which this is false is bound to answer every read.
    spec fn read_can_fail(&self) -> bool;

    /// Whether this backend can ever fail a publish. A backend on which
    /// this is false is bound to accept every tag.
    spec fn push_can_fail(&self) -> bool;

    /// Every tag handed to `push_tag`, oldest first, whether or not the
    /// publish succeeded.
    spec fn attempts(&self) -> Seq<Seq<char>>;

    /// Every tag actually published, oldest first.
    spec fn pushed(&self) -> Seq<Seq<char>>;

    /// Reads the name of the currently checked-out branch. Never mutates
    /// the backend; fails only with `RepositoryUnavailable`, and only on a
    /// backend whose reads can fail at all.
    fn get_current_branch(&self) -> (r: Result<String, RepoError>)
        ensures
            r matches Ok(b) ==> b@ == self.branch(),
            r matches Err(e) ==> e == RepoError::RepositoryUnavailable,
            r is Err ==> self.read_can_fail(),
    ;

    /// Publishes a tag with the given name, as a side effect on the
    /// backend. Every call is recorded as one attempt; on success the tag
    /// is appended to the published history, on failure (`PublishFailed`
    /// only, and only on a backend whose publishes can fail at all)
    /// nothing is published and the histories are otherwise kept.
    fn push_tag(&mut self, tag: String) -> (r: Result<(), RepoError>)
        ensures
            final(self).branch() == old(self).branch(),
            final(self).attempts() == old(self).attempts().push(tag@),
            r is Ok ==> final(self).pushed() == old(self).pushed().push(tag@),
            r matches Err(e) ==> e == RepoError::PublishFailed && final(self).pushed()
                == old(self).pushed(),
            r is Err ==> old(self).push_can_fail(),
    ;
}

/// The production backend. It reports the fixed branch `master`; what it
/// publishes is tracked only in its ghost history, since real interaction
/// with a version-control system is out of scope here.
pub struct GitSourceRepository {
    /// Every tag published so far, oldest first; tracked only in ghost code.
    pub history: Ghost<Seq<Seq<char>>>,
}

impl GitSourceRepository {
    /// A fresh backend with an empty publish history.
    pub fn new() -> (r: GitSourceRepository)
        ensures
            r.branch() == "master"@,
            r.attempts() == Seq::<Seq<char>>::empty(),
            r.pushed() == Seq::<Seq<char>>::empty(),
    {
        GitSourceRepository { history: Ghost(Seq::empty()) }
    }
}

impl SourceRepository for GitSourceRepository {
    open spec fn branch(&self) -> Seq<char> {
        "master"@
    }

    open spec fn read_can_fail(&self) -> bool {
        false
    }

    open spec fn push_can_fail(&self) -> bool {
        false
    }

    open spec fn attempts(&self) -> Seq<Seq<char>> {
        self.history@
    }

    open spec fn pushed(&self) -> Seq<Seq<char>> {
        self.history@
    }

    fn get_current_branch(&self) -> (r: Result<String, RepoError>) {
        Ok(String::from_str("master"))
    }

    fn push_tag(&mut self, tag: String) -> (r: Result<(), RepoError>) {
        self.history = Ghost(self.history@.push(tag@));
        Ok(())
    }
}

/// The verification backend: an in-memory stand-in that reports the fixed
/// branch `master` and records every tag published against it, so a caller
/// can observe what would have been published without touching a real
/// repository. It never fails.
pub struct FakeRepository {
    /// Every tag published so far, oldest first.
    pub tags: Vec<String>,
}

impl FakeRepository {
    /// A fresh backend that has recorded nothing yet.
    pub fn new() -> (r: FakeRepository)
        ensures
            r.branch() == "master"@,
            r.attempts() == Seq::<Seq<char>>::empty(),
            r.pushed() == Seq::<Seq<char>>::empty(),
    {
        FakeRepository { tags: Vec::new() }
    }

    /// The most recently published tag, or `no` when nothing was published
    /// yet.
    pub fn get_last_pushed_tag(&self) -> (r: String)
        ensures
            self.pushed().len() == 0 ==> r@ == "no"@,
            self.pushed().len() > 0 ==> r@ == self.pushed().last(),
    {
        if self.tags.len() == 0 {
            String::from_str("no")
        } else {
            let r = self.tags[self.tags.len() - 1].clone();
            proof {
                assert(self.pushed().last() == self.tags@[self.tags@.len() - 1]@);
            }
            r
        }
    }
}

impl SourceRepository for FakeRepository {
    open spec fn branch(&self) -> Seq<char> {
        "master"@
    }

    open spec fn read_can_fail(&self) -> bool {
        false
    }

    open spec fn push_can_fail(&self) -> bool {
        false
    }

    open spec fn attempts(&self) -> Seq<Seq<char>> {
        self.tags.deep_view()
    }

    open spec fn pushed(&self) -> Seq<Seq<char>> {
        self.tags.deep_view()
    }

    fn get_current_branch(&self) -> (r: Result<String, RepoError>) {
        Ok(String::from_str("master"))
    }

    fn push_tag(&mut self, tag: String) -> (r: Result<(), RepoError>) {
        let ghost t = tag@;
        self.tags.push(tag);
        proof {
            assert(self.tags.deep_view() =~= old(self).tags.deep_view().push(t));
        }
        Ok(())
    }
}

/// A verification backend whose outcomes are scripted: it reports a chosen
/// branch name and can be told to fail the branch read or the publish step,
/// so a caller's abort behavior can be exercised. It records every publish
/// attempt and every published tag separately.
pub struct ScriptedRepository {
    /// The branch name the backend reports.
    pub branch_name: String,
    /// When set, `get_current_branch` fails with `RepositoryUnavailable`.
    pub fail_branch_read: bool,
    /// When set, `push_tag` fails with `PublishFailed`.
    pub fail_push: bool,
    /// Every tag handed to `push_tag`, oldest first.
    pub attempted_tags: Vec<String>,
    /// Every tag actually published, oldest first.
    pub published_tags: Vec<String>,
}

impl ScriptedRepository {
    /// A fresh backend reporting the given branch, with both failures off.
    pub fn new(branch_name: String) -> (r: ScriptedRepository)
        ensures
            r.branch() == branch_name@,
            !r.fail_branch_read,
            !r.fail_push,
            r.attempts() == Seq::<Seq<char>>::empty(),
            r.pushed() == Seq::<Seq<char>>::empty(),
    {
        ScriptedRepository {
            branch_name,
            fail_branch_read: false,
            fail_push: false,
            attempted_tags: Vec::new(),
            published_tags: Vec::new(),
        }
    }
}

impl SourceRepository for ScriptedRepository {
    open spec fn branch(&self) -> Seq<char> {
        self.branch_name@
    }

    open spec fn read_can_fail(&self) -> bool {
        self.fail_branch_read
    }

    open spec fn push_can_fail(&self) -> bool {
        self.fail_push
    }

    open spec fn attempts(&self) -> Seq<Seq<char>> {
        self.attempted_tags.deep_view()
    }

    open spec fn pushed(&self) -> Seq<Seq<char>> {
        self.published_tags.deep_view()
    }

    fn get_current_branch(&self) -> (r: Result<String, RepoError>) {
        if self.fail_branch_read {
            Err(RepoError::RepositoryUnavailable)
        } else {
            Ok(self.branch_name.clone())
        }
    }

    fn push_tag(&mut self, tag: String) -> (r: Result<(), RepoError>) {
        let ghost t = tag@;
        if self.fail_push {
            self.attempted_tags.push(tag);
            proof {
                assert(self.attempted_tags.deep_view() =~= old(
                    self,
                ).attempted_tags.deep_view().push(t));
                assert(self.published_tags.deep_view() =~= old(self).published_tags.deep_view());
            }
            Err(RepoError::PublishFailed)
        } else {
            self.attempted_tags.push(tag.clone());
            self.published_tags.push(tag);
            proof {
                assert(self.attempted_tags.deep_view() =~= old(
                    self,
                ).attempted_tags.deep_view().push(t));
                assert(self.published_tags.deep_view() =~= old(
                    self,
                ).published_tags.deep_view().push(t));
            }
            Ok(())
        }
    }
}

} // verus!
