//! The reference analyzer: reads the package list that `pip list` reports
//! for a setuptools project. The subprocess itself, and the decoding of its
//! JSON standard output into `(name, version)` rows, happen outside the
//! library; this module holds the decision logic that turns one such
//! outcome into an analysis result.
use vstd::prelude::*;
use crate::analyze::{
    AnalysisUnit, AnalyzeKind, AnalyzerError, Dependency, DependencyKind, DependencyKindV,
    DependencyV, dedup_first, deps_view,
};
use crate::graph::{dependency_graph, graph_nodes};
use crate::setuptools::SetupToolProject;

verus! {

broadcast use vstd::string::group_string_axioms;

/// One row of the package listing: a package name and its version.
#[derive(Debug)]
pub struct PipListShowItem {
    pub name: String,
    pub version: String,
}

/// Spec-level value of a `PipListShowItem`.
pub struct PipListShowItemV {
    pub name: Seq<char>,
    pub version: Seq<char>,
}

impl View for PipListShowItem {
    type V = PipListShowItemV;

    open spec fn view(&self) -> PipListShowItemV {
        PipListShowItemV { name: self.name@, version: self.version@ }
    }
}

impl Clone for PipListShowItem {
    fn clone(&self) -> (res: Self)
        ensures
            res == *self,
    {
        PipListShowItem { name: self.name.clone(), version: self.version.clone() }
    }
}

/// What came back from running the package-listing tool on a project:
/// either the decoded rows of its JSON standard output, or the text of a
/// decoding failure, or the text of a spawn failure.
#[derive(Debug)]
pub enum PipListOutcome {
    Items(Vec<PipListShowItem>),
    MalformedOutput(String),
    SpawnFailure(String),
}

/// The dependency a listed package row stands for: a pip package with no
/// environment tags.
pub open spec fn item_dep(it: PipListShowItemV) -> DependencyV {
    DependencyV {
        kind: DependencyKindV::Pip,
        name: it.name,
        version: it.version,
        environment: Seq::empty(),
    }
}

/// The analyzer that lists installed packages through pip.
pub struct PipListAnalyzer;

impl PipListAnalyzer {
    /// This analyzer executes an external tool, so it is dynamic.
    pub fn kind(&self) -> (k: AnalyzeKind)
        ensures
            k == AnalyzeKind::Dynamic,
    {
        AnalyzeKind::Dynamic
    }

    pub fn name(&self) -> (r: &'static str)
        ensures
            r@ == "piplist"@,
    {
        "piplist"
    }

    /// Turns one subprocess outcome into this analyzer's result: a spawn
    /// failure becomes `CommandFailed`, undecodable output becomes
    /// `FailedToParseFromJSON`, and decoded rows become an `AnalysisUnit`
    /// whose graph holds one node per distinct dependency, first occurrence
    /// kept, in row order.
    pub fn analyze_output(&self, project: &SetupToolProject, outcome: PipListOutcome) -> (r:
        Result<AnalysisUnit, AnalyzerError>)
        requires
            project.has_parent(),
            outcome matches PipListOutcome::Items(items) ==> items@.len() < 0xFFFF_FFFFu32,
        ensures
            outcome matches PipListOutcome::SpawnFailure(m) ==> r == Err::<
                AnalysisUnit,
                AnalyzerError,
            >(AnalyzerError::CommandFailed(m)),
            outcome matches PipListOutcome::MalformedOutput(m) ==> r == Err::<
                AnalysisUnit,
                AnalyzerError,
            >(AnalyzerError::FailedToParseFromJSON(m)),
            outcome matches PipListOutcome::Items(items) ==> {
                &&& r matches Ok(u)
                &&& u.analyzer@ == "piplist"@
                &&& u@.project == project.target_v()
                &&& u@.nodes == dedup_first(items@.map_values(|it: PipListShowItem| item_dep(it@)))
            },
    {
        match outcome {
            PipListOutcome::SpawnFailure(m) => Err(AnalyzerError::CommandFailed(m)),
            PipListOutcome::MalformedOutput(m) => Err(AnalyzerError::FailedToParseFromJSON(m)),
            PipListOutcome::Items(items) => {
                let ghost m = items@.map_values(|it: PipListShowItem| item_dep(it@));
                let mut deps: Vec<Dependency> = Vec::new();
                let mut i: usize = 0;
                while i < items.len()
                    invariant
                        0 <= i <= items@.len(),
                        items@.len() < 0xFFFF_FFFFu32,
                        m == items@.map_values(|it: PipListShowItem| item_dep(it@)),
                        deps@.len() <= i,
                        deps_view(deps@) == dedup_first(m.subrange(0, i as int)),
                    decreases items@.len() - i,
                {
                    let row = &items[i];
                    let cand = Dependency {
                        kind: DependencyKind::Pip,
                        name: row.name.clone(),
                        version: row.version.clone(),
                        environment: Vec::new(),
                    };
                    assert(cand@ == item_dep(items@[i as int]@));
                    let mut dup = false;
                    let mut j: usize = 0;
                    while j < deps.len()
                        invariant
                            0 <= j <= deps@.len(),
                            dup == exists|k: int|
                                0 <= k < j && (#[trigger] deps@[k])@ == cand@,
                        decreases deps@.len() - j,
                    {
                        if deps[j] == cand {
                            dup = true;
                        }
                        j += 1;
                    }
                    proof {
                        let pre = m.subrange(0, i as int);
                        let post = m.subrange(0, i + 1);
                        assert(post.drop_last() =~= pre);
                        assert(post.last() == m[i as int]);
                        assert(m[i as int] == cand@);
                        if dup {
                            let k = choose|k: int| 0 <= k < deps@.len() && deps@[k]@ == cand@;
                            assert(deps_view(deps@)[k] == cand@);
                            assert(dedup_first(pre).contains(cand@));
                        } else {
                            assert forall|k: int|
                                0 <= k < dedup_first(pre).len() implies dedup_first(pre)[k]
                                != cand@ by {
                                assert(dedup_first(pre)[k] == deps_view(deps@)[k]);
                                assert(deps_view(deps@)[k] == deps@[k]@);
                            }
                            assert(!dedup_first(pre).contains(cand@));
                        }
                    }
                    if !dup {
                        deps.push(cand);
                        assert(deps_view(deps@) =~= dedup_first(m.subrange(0, i + 1)));
                    } else {
                        assert(deps_view(deps@) =~= dedup_first(m.subrange(0, i + 1)));
                    }
                    i += 1;
                }
                proof {
                    assert(m.subrange(0, items@.len() as int) =~= m);
                }
                let g = dependency_graph(&deps);
                let u = AnalysisUnit {
                    analyzer: self.name().to_string(),
                    project: project.to_project_target(),
                    graph: g,
                };
                proof {
                    assert(deps_view(graph_nodes(g)) == dedup_first(m));
                }
                Ok(u)
            },
        }
    }
}

} // verus!
