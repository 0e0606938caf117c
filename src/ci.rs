//! CI coordinates: which node this is, how many there are, and what is built.
use vstd::prelude::*;
use vstd::string::*;

use crate::error::{ConfigError, Coordinate, KnapsackError};

verus! {

pub open spec fn is_digit(c: char) -> bool {
    '0' <= c && c <= '9'
}

/// Value of a run of decimal digits.
pub open spec fn digits_value(s: Seq<char>) -> nat
    decreases s.len(),
{
    if s.len() == 0 {
        0
    } else {
        digits_value(s.drop_last()) * 10 + ((s.last() as u32 - '0' as u32) as nat)
    }
}

/// The digits of an unsigned decimal, after its optional `+` sign.
pub open spec fn unsigned_digits(s: Seq<char>) -> Seq<char> {
    if s.len() > 0 && s[0] == '+' {
        s.drop_first()
    } else {
        s
    }
}

/// The `usize` that `s` spells in decimal, if it spells one.
pub open spec fn parsed_usize(s: Seq<char>) -> Option<usize> {
    let d = unsigned_digits(s);
    if d.len() > 0 && (forall|i: int| 0 <= i < d.len() ==> is_digit(#[trigger] d[i]))
        && digits_value(d) <= usize::MAX {
        Some(digits_value(d) as usize)
    } else {
        None
    }
}

/// Relies on `<usize as FromStr>::from_str` (through `str::parse`): it accepts an
/// optional `+` followed by one or more ASCII digits whose value fits, and
/// nothing else.
#[verifier::external_body]
fn parse_count(s: &str) -> (r: Option<usize>)
    ensures
        r == parsed_usize(s@),
{
    s.parse::<usize>().ok()
}

/// Coordinates read from GitHub Actions' variables (`GITHUB_RUN_ID`,
/// `GITHUB_SHA`, `GITHUB_REF`); `None` where a variable is not set.
pub struct GithubActionsCiProvider {
    pub run_id: Option<String>,
    pub sha: Option<String>,
    pub git_ref: Option<String>,
}

/// Coordinates given outright, for a CI system described by hand.
pub struct StaticCiProvider {
    pub node_total: Option<usize>,
    pub node_index: Option<usize>,
    pub build_id: Option<String>,
    pub commit_hash: Option<String>,
    pub branch: Option<String>,
    pub fixed_queue_split: bool,
}

/// The supported CI systems.
pub enum CiProvider {
    GithubActions(GithubActionsCiProvider),
    Static(StaticCiProvider),
}

fn clone_opt(s: &Option<String>) -> (r: Option<String>)
    ensures
        r == *s,
{
    match s {
        Some(v) => Some(v.clone()),
        None => None,
    }
}

impl CiProvider {
    pub open spec fn spec_node_total(&self) -> Option<usize> {
        match self {
            CiProvider::GithubActions(_) => None,
            CiProvider::Static(p) => p.node_total,
        }
    }

    pub open spec fn spec_node_index(&self) -> Option<usize> {
        match self {
            CiProvider::GithubActions(_) => None,
            CiProvider::Static(p) => p.node_index,
        }
    }

    pub open spec fn spec_build_id(&self) -> Option<String> {
        match self {
            CiProvider::GithubActions(g) => g.run_id,
            CiProvider::Static(p) => p.build_id,
        }
    }

    pub open spec fn spec_commit_hash(&self) -> Option<String> {
        match self {
            CiProvider::GithubActions(g) => g.sha,
            CiProvider::Static(p) => p.commit_hash,
        }
    }

    /// GitHub Actions names the ref, or else the commit.
    pub open spec fn spec_branch(&self) -> Option<String> {
        match self {
            CiProvider::GithubActions(g) => if g.git_ref is Some {
                g.git_ref
            } else {
                g.sha
            },
            CiProvider::Static(p) => p.branch,
        }
    }

    pub open spec fn spec_fixed_queue_split(&self) -> bool {
        match self {
            CiProvider::GithubActions(_) => true,
            CiProvider::Static(p) => p.fixed_queue_split,
        }
    }

    pub fn get_ci_node_total(&self) -> (r: Option<usize>)
        ensures
            r == self.spec_node_total(),
    {
        match self {
            CiProvider::GithubActions(_) => None,
            CiProvider::Static(p) => p.node_total,
        }
    }

    pub fn get_ci_node_index(&self) -> (r: Option<usize>)
        ensures
            r == self.spec_node_index(),
    {
        match self {
            CiProvider::GithubActions(_) => None,
            CiProvider::Static(p) => p.node_index,
        }
    }

    pub fn get_ci_node_build_id(&self) -> (r: Option<String>)
        ensures
            r == self.spec_build_id(),
    {
        match self {
            CiProvider::GithubActions(g) => clone_opt(&g.run_id),
            CiProvider::Static(p) => clone_opt(&p.build_id),
        }
    }

    pub fn get_commit_hash(&self) -> (r: Option<String>)
        ensures
            r == self.spec_commit_hash(),
    {
        match self {
            CiProvider::GithubActions(g) => clone_opt(&g.sha),
            CiProvider::Static(p) => clone_opt(&p.commit_hash),
        }
    }

    pub fn get_branch(&self) -> (r: Option<String>)
        ensures
            r == self.spec_branch(),
    {
        match self {
            CiProvider::GithubActions(g) => match &g.git_ref {
                Some(v) => Some(v.clone()),
                None => clone_opt(&g.sha),
            },
            CiProvider::Static(p) => clone_opt(&p.branch),
        }
    }

    pub fn is_fixed_queue_split(&self) -> (r: bool)
        ensures
            r == self.spec_fixed_queue_split(),
    {
        match self {
            CiProvider::GithubActions(_) => true,
            CiProvider::Static(p) => p.fixed_queue_split,
        }
    }
}

/// Values of the fallback variables `KNAPSACK_PRO_CI_NODE_TOTAL`,
/// `KNAPSACK_PRO_CI_NODE_INDEX` and `KNAPSACK_PRO_CI_NODE_BUILD_ID`; `None`
/// where a variable is not set.
pub struct FallbackVars {
    pub node_total: Option<String>,
    pub node_index: Option<String>,
    pub build_id: Option<String>,
}

/// The coordinates that every queue request carries.
pub struct Coordinates {
    pub commit_hash: String,
    pub branch: String,
    pub node_total: usize,
    pub node_index: usize,
    pub node_build_id: String,
    pub fixed_queue_split: bool,
}

/// A count from the provider, else from its fallback variable.
pub open spec fn resolve_count(provided: Option<usize>, var: Option<String>, c: Coordinate) -> Result<
    usize,
    KnapsackError,
> {
    match provided {
        Some(n) => Ok(n),
        None => match var {
            None => Err(KnapsackError::Config(ConfigError::Missing(c))),
            Some(v) => match parsed_usize(v@) {
                Some(n) => Ok(n),
                None => Err(KnapsackError::Config(ConfigError::Unparsable(c, v))),
            },
        },
    }
}

/// A text coordinate from the provider, with no fallback.
pub open spec fn resolve_text(provided: Option<String>, c: Coordinate) -> Result<String, KnapsackError> {
    match provided {
        Some(s) => Ok(s),
        None => Err(KnapsackError::Config(ConfigError::Missing(c))),
    }
}

pub open spec fn missing_build_id() -> Seq<char> {
    seq!['m', 'i', 's', 's', 'i', 'n', 'g', '-', 'b', 'u', 'i', 'l', 'd', '-', 'i', 'd']
}

fn count_from_var(var: &Option<String>, c: Coordinate) -> (r: Result<usize, KnapsackError>)
    ensures
        r == resolve_count(None, *var, c),
{
    match var {
        None => Err(KnapsackError::Config(ConfigError::Missing(c))),
        Some(v) => match parse_count(v.as_str()) {
            Some(n) => Ok(n),
            None => Err(KnapsackError::Config(ConfigError::Unparsable(c, v.clone()))),
        },
    }
}

/// A CI provider with the fallback variables behind it.
pub struct CiProviderWrapper {
    pub ci_provider: CiProvider,
    pub fallback: FallbackVars,
}

/// When neither the provider nor its fallback variable gives the node total
/// (or the node index), the error is a configuration error naming it.
pub proof fn lemma_missing_count_is_named(w: CiProviderWrapper)
    ensures
        w.ci_provider.spec_node_total() is None && w.fallback.node_total is None
            ==> w.spec_node_total() == Err::<usize, KnapsackError>(
            KnapsackError::Config(ConfigError::Missing(Coordinate::NodeTotal)),
        ),
        w.ci_provider.spec_node_index() is None && w.fallback.node_index is None
            ==> w.spec_node_index() == Err::<usize, KnapsackError>(
            KnapsackError::Config(ConfigError::Missing(Coordinate::NodeIndex)),
        ),
{
}

impl CiProviderWrapper {
    pub open spec fn spec_node_total(&self) -> Result<usize, KnapsackError> {
        resolve_count(self.ci_provider.spec_node_total(), self.fallback.node_total, Coordinate::NodeTotal)
    }

    pub open spec fn spec_node_index(&self) -> Result<usize, KnapsackError> {
        resolve_count(self.ci_provider.spec_node_index(), self.fallback.node_index, Coordinate::NodeIndex)
    }

    pub open spec fn spec_branch(&self) -> Result<String, KnapsackError> {
        resolve_text(self.ci_provider.spec_branch(), Coordinate::Branch)
    }

    pub open spec fn spec_commit_hash(&self) -> Result<String, KnapsackError> {
        resolve_text(self.ci_provider.spec_commit_hash(), Coordinate::CommitHash)
    }

    /// The provider's build id, else the fallback variable's, else a sentinel.
    pub open spec fn spec_build_id(&self) -> Seq<char> {
        match self.ci_provider.spec_build_id() {
            Some(s) => s@,
            None => match self.fallback.build_id {
                Some(s) => s@,
                None => missing_build_id(),
            },
        }
    }

    /// All coordinates, or the first missing one in the order node total,
    /// node index, branch, commit hash.
    pub open spec fn spec_coordinates_ok(&self, c: Coordinates) -> bool {
        &&& self.spec_node_total() == Ok::<usize, KnapsackError>(c.node_total)
        &&& self.spec_node_index() == Ok::<usize, KnapsackError>(c.node_index)
        &&& self.spec_branch() == Ok::<String, KnapsackError>(c.branch)
        &&& self.spec_commit_hash() == Ok::<String, KnapsackError>(c.commit_hash)
        &&& c.node_build_id@ == self.spec_build_id()
        &&& c.fixed_queue_split == self.ci_provider.spec_fixed_queue_split()
    }

    pub open spec fn spec_coordinates_err(&self) -> Option<KnapsackError> {
        if self.spec_node_total() is Err {
            Some(self.spec_node_total()->Err_0)
        } else if self.spec_node_index() is Err {
            Some(self.spec_node_index()->Err_0)
        } else if self.spec_branch() is Err {
            Some(self.spec_branch()->Err_0)
        } else if self.spec_commit_hash() is Err {
            Some(self.spec_commit_hash()->Err_0)
        } else {
            None
        }
    }

    pub fn new(ci_provider: CiProvider, fallback: FallbackVars) -> (r: Self)
        ensures
            r.ci_provider == ci_provider,
            r.fallback == fallback,
    {
        CiProviderWrapper { ci_provider, fallback }
    }

    pub fn get_ci_node_build_id(&self) -> (r: String)
        ensures
            r@ == self.spec_build_id(),
    {
        match self.ci_provider.get_ci_node_build_id() {
            Some(s) => s,
            None => match &self.fallback.build_id {
                Some(s) => s.clone(),
                None => {
                    proof {
                        reveal_strlit("missing-build-id");
                    }
                    String::from_str("missing-build-id")
                },
            },
        }
    }

    pub fn get_ci_node_index(&self) -> (r: Result<usize, KnapsackError>)
        ensures
            r == self.spec_node_index(),
    {
        match self.ci_provider.get_ci_node_index() {
            None => Self::get_ci_node_index_from_env_var(&self.fallback),
            Some(i) => Ok(i),
        }
    }

    pub fn get_ci_node_total(&self) -> (r: Result<usize, KnapsackError>)
        ensures
            r == self.spec_node_total(),
    {
        match self.ci_provider.get_ci_node_total() {
            None => Self::get_ci_node_total_from_env_var(&self.fallback),
            Some(i) => Ok(i),
        }
    }

    pub fn is_fixed_queue_split(&self) -> (r: bool)
        ensures
            r == self.ci_provider.spec_fixed_queue_split(),
    {
        self.ci_provider.is_fixed_queue_split()
    }

    pub fn get_branch(&self) -> (r: Result<String, KnapsackError>)
        ensures
            r == self.spec_branch(),
    {
        match self.ci_provider.get_branch() {
            Some(s) => Ok(s),
            None => Err(KnapsackError::Config(ConfigError::Missing(Coordinate::Branch))),
        }
    }

    pub fn get_commit_hash(&self) -> (r: Result<String, KnapsackError>)
        ensures
            r == self.spec_commit_hash(),
    {
        match self.ci_provider.get_commit_hash() {
            Some(s) => Ok(s),
            None => Err(KnapsackError::Config(ConfigError::Missing(Coordinate::CommitHash))),
        }
    }

    fn get_ci_node_total_from_env_var(fallback: &FallbackVars) -> (r: Result<usize, KnapsackError>)
        ensures
            r == resolve_count(None, fallback.node_total, Coordinate::NodeTotal),
    {
        count_from_var(&fallback.node_total, Coordinate::NodeTotal)
    }

    fn get_ci_node_index_from_env_var(fallback: &FallbackVars) -> (r: Result<usize, KnapsackError>)
        ensures
            r == resolve_count(None, fallback.node_index, Coordinate::NodeIndex),
    {
        count_from_var(&fallback.node_index, Coordinate::NodeIndex)
    }

    /// Every coordinate a queue request carries; fails on the first one that
    /// is missing.
    pub fn coordinates(&self) -> (r: Result<Coordinates, KnapsackError>)
        ensures
            match r {
                Ok(c) => self.spec_coordinates_err() is None && self.spec_coordinates_ok(c),
                Err(e) => self.spec_coordinates_err() == Some(e),
            },
    {
        let node_total = match self.get_ci_node_total() {
            Ok(n) => n,
            Err(e) => return Err(e),
        };
        let node_index = match self.get_ci_node_index() {
            Ok(n) => n,
            Err(e) => return Err(e),
        };
        let branch = match self.get_branch() {
            Ok(s) => s,
            Err(e) => return Err(e),
        };
        let commit_hash = match self.get_commit_hash() {
            Ok(s) => s,
            Err(e) => return Err(e),
        };
        Ok(
            Coordinates {
                commit_hash,
                branch,
                node_total,
                node_index,
                node_build_id: self.get_ci_node_build_id(),
                fixed_queue_split: self.is_fixed_queue_split(),
            },
        )
    }
}

} // verus!
