//! The errors that the library reports.

use vstd::prelude::*;
use crate::package::Candidate;
use crate::text::owned;

verus! {

/// Why resolving or analysing a project failed.
#[derive(Debug, Clone)]
pub enum EnvyrError {
    /// The locator has no `/`, so it names no organisation and project.
    UrlParse { url: String },
    /// No project name was given and none could be derived.
    MissingName,
    /// No entrypoint was given and none could be deduced.
    MissingEntrypoint,
    /// No interpreter was given and the project type implies none.
    MissingInterpreter,
    /// Several candidates share the most confident priority.
    AmbiguousEntrypoint { candidates: Vec<Candidate> },
    /// A file of the walk does not lie below the project root.
    OutsideRoot { path: String },
    /// A git command failed; `stage` names it, `detail` is what git said.
    Git { stage: String, detail: String },
    /// Neither docker nor podman answered.
    NoContainerRuntime,
}

/// The candidates' paths, separated by `, `.
pub open spec fn candidate_paths(c: Seq<Candidate>) -> Seq<char>
    decreases c.len(),
{
    if c.len() == 0 {
        seq![]
    } else if c.len() == 1 {
        c[0].path@
    } else {
        candidate_paths(c.drop_last()) + ", "@ + c.last().path@
    }
}

impl EnvyrError {
    /// A sentence that describes the error; it names the offending locator,
    /// file or candidates, and for a git failure the stage and git's words.
    pub fn message(&self) -> (r: String)
        ensures
            *self is MissingName ==> r@
                == "Could not detect project name. Please specify it manually."@,
            *self is MissingEntrypoint ==> r@
                == "Could not detect project entrypoint. Please specify it manually."@,
            *self is MissingInterpreter ==> r@
                == "Could not detect project interpreter. Please specify it manually."@,
            *self is NoContainerRuntime ==> r@ == "Docker or Podman not found."@,
            *self matches EnvyrError::AmbiguousEntrypoint { candidates } ==> r@
                == "Multiple entrypoints detected! ["@ + candidate_paths(candidates@)
                + "]. Please choose one manually."@,
            *self matches EnvyrError::UrlParse { url } ==> r@ == "Failed to parse org name from URL: "@
                + url@,
            *self matches EnvyrError::OutsideRoot { path } ==> r@
                == "File lies outside the project directory: "@ + path@,
            *self matches EnvyrError::Git { stage, detail } ==> r@ == "Failed to "@ + stage@ + ": "@
                + detail@,
    {
        match self {
            EnvyrError::UrlParse { url } => {
                let mut m = owned("Failed to parse org name from URL: ");
                m.append(url.as_str());
                m
            },
            EnvyrError::MissingName => owned(
                "Could not detect project name. Please specify it manually.",
            ),
            EnvyrError::MissingEntrypoint => owned(
                "Could not detect project entrypoint. Please specify it manually.",
            ),
            EnvyrError::MissingInterpreter => owned(
                "Could not detect project interpreter. Please specify it manually.",
            ),
            EnvyrError::AmbiguousEntrypoint { candidates } => {
                let mut m = owned("Multiple entrypoints detected! [");
                let ghost head = m@;
                let mut i: usize = 0;
                while i < candidates.len()
                    invariant
                        i <= candidates@.len(),
                        m@ == head + candidate_paths(candidates@.subrange(0, i as int)),
                    decreases candidates.len() - i,
                {
                    let ghost pre = candidates@.subrange(0, i as int);
                    let ghost cur = candidates@.subrange(0, i + 1);
                    assert(cur.drop_last() =~= pre);
                    assert(cur.last() == candidates@[i as int]);
                    if i > 0 {
                        m.append(", ");
                    }
                    m.append(candidates[i].path.as_str());
                    proof {
                        if i == 0 {
                            assert(m@ =~= head + cur[0].path@);
                        } else {
                            assert(m@ =~= head + (candidate_paths(pre) + ", "@ + cur.last().path@));
                        }
                    }
                    i = i + 1;
                }
                assert(candidates@.subrange(0, i as int) =~= candidates@);
                m.append("]. Please choose one manually.");
                m
            },
            EnvyrError::OutsideRoot { path } => {
                let mut m = owned("File lies outside the project directory: ");
                m.append(path.as_str());
                m
            },
            EnvyrError::Git { stage, detail } => {
                let mut m = owned("Failed to ");
                m.append(stage.as_str());
                m.append(": ");
                m.append(detail.as_str());
                m
            },
            EnvyrError::NoContainerRuntime => owned("Docker or Podman not found."),
        }
    }
}

} // verus!
