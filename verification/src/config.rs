use vstd::prelude::*;
use vstd::string::StringExecFns;

verus! {

/// The closed set of behaviors the dispatcher can run. Purely a
/// discriminator: any future behavior must be added here deliberately.
#[derive(Clone, Copy, Debug, PartialEq, Eq, Structural)]
pub enum Command {
    Tag,
    Check,
}

impl Command {
    /// The word naming this command.
    pub open spec fn name_spec(&self) -> Seq<char> {
        match self {
            Command::Tag => "tag"@,
            Command::Check => "check"@,
        }
    }

    /// Returns the word naming this command.
    pub fn name(&self) -> (r: &'static str)
        ensures
            r@ == self.name_spec(),
    {
        match self {
            Command::Tag => "tag",
            Command::Check => "check",
        }
    }
}

/// The request for one invocation: which command to run, the operation
/// label, the source branch, and the dependency names. Immutable once
/// built. All string fields are opaque, unvalidated free text; the
/// dependencies may repeat and keep their given order, which matters only
/// for display.
pub struct Configuration {
    pub command: Command,
    pub operation: String,
    pub source_branch: String,
    pub dependencies: Vec<String>,
}

/// The given names joined with a comma between each two neighbours.
pub open spec fn join_commas_spec(items: Seq<Seq<char>>) -> Seq<char>
    decreases items.len(),
{
    if items.len() == 0 {
        Seq::empty()
    } else if items.len() == 1 {
        items[0]
    } else {
        join_commas_spec(items.drop_last()) + ","@ + items.last()
    }
}

/// Joins the given names with a comma between each two neighbours.
pub fn join_commas(items: &Vec<String>) -> (r: String)
    ensures
        r@ == join_commas_spec(items.deep_view()),
{
    let ghost d = items.deep_view();
    let mut r = String::new();
    let mut i: usize = 0;
    while i < items.len()
        invariant
            i <= items.len(),
            d == items.deep_view(),
            r@ == join_commas_spec(d.take(i as int)),
        decreases items.len() - i,
    {
        if i > 0 {
            r.append(",");
        }
        r.append(items[i].as_str());
        proof {
            assert(d.take(i + 1).drop_last() =~= d.take(i as int));
            assert(d.take(i + 1).last() == d[i as int]);
            if i == 0 {
                assert(r@ =~= d.take(1)[0]);
            }
        }
        i = i + 1;
    }
    proof {
        assert(d.take(items@.len() as int) =~= d);
    }
    r
}

impl Configuration {
    /// The one-line description of this configuration.
    pub open spec fn describe_spec(&self) -> Seq<char> {
        "command: "@ + self.command.name_spec() + ", operation: "@ + self.operation@
            + ", source_branch: "@ + self.source_branch@ + ", dependencies : "@
            + join_commas_spec(self.dependencies.deep_view()) + " "@
    }

    /// Renders the configuration as one line, naming each field and joining
    /// the dependencies with commas.
    pub fn describe(&self) -> (r: String)
        ensures
            r@ == self.describe_spec(),
    {
        let mut r = String::from_str("command: ");
        r.append(self.command.name());
        r.append(", operation: ");
        r.append(self.operation.as_str());
        r.append(", source_branch: ");
        r.append(self.source_branch.as_str());
        r.append(", dependencies : ");
        let joined = join_commas(&self.dependencies);
        r.append(joined.as_str());
        r.append(" ");
        r
    }
}

} // verus!
