//! Core data model of the scanner: dependencies, project targets, analysis
//! results, the analyzer error taxonomy, and the analyzer fallback chain.
use core::cmp::Ordering;
use vstd::prelude::*;
use vstd::string::StringExecFns;
use vstd::string::StrSliceExecFns;
use crate::graph::graph_nodes;

verus! {

broadcast use vstd::string::group_string_axioms;

/// Whether an analyzer only inspects files (`Static`) or executes code or
/// external tools (`Dynamic`).
#[derive(Debug, Clone, Copy, PartialEq, Eq, Structural)]
pub enum AnalyzeKind {
    Static,
    Dynamic,
}

/// A deployment environment under which a dependency applies; an empty list
/// of environments means "unspecified / all".
#[derive(Debug, Clone, Copy, PartialEq, Eq, Structural)]
pub enum Environment {
    Production,
    Development,
}

/// The package ecosystem a dependency belongs to.
#[derive(Debug)]
pub enum DependencyKind {
    Pip,
    Unknown(String),
}

/// Spec-level value of a `DependencyKind`.
#[verifier::ext_equal]
pub enum DependencyKindV {
    Pip,
    Unknown(Seq<char>),
}

impl View for DependencyKind {
    type V = DependencyKindV;

    open spec fn view(&self) -> DependencyKindV {
        match self {
            DependencyKind::Pip => DependencyKindV::Pip,
            DependencyKind::Unknown(s) => DependencyKindV::Unknown(s@),
        }
    }
}

impl Clone for DependencyKind {
    fn clone(&self) -> (res: Self)
        ensures
            res == *self,
    {
        match self {
            DependencyKind::Pip => DependencyKind::Pip,
            DependencyKind::Unknown(s) => DependencyKind::Unknown(s.clone()),
        }
    }
}

/// One runtime dependency of a project, as reported by an analyzer.
#[derive(Debug)]
pub struct Dependency {
    pub kind: DependencyKind,
    pub name: String,
    pub version: String,
    pub environment: Vec<Environment>,
}

/// Spec-level value of a `Dependency`.
#[verifier::ext_equal]
pub struct DependencyV {
    pub kind: DependencyKindV,
    pub name: Seq<char>,
    pub version: Seq<char>,
    pub environment: Seq<Environment>,
}

impl View for Dependency {
    type V = DependencyV;

    open spec fn view(&self) -> DependencyV {
        DependencyV {
            kind: self.kind@,
            name: self.name@,
            version: self.version@,
            environment: self.environment@,
        }
    }
}

/// The views of a sequence of dependencies, element by element.
pub open spec fn deps_view(s: Seq<Dependency>) -> Seq<DependencyV> {
    s.map_values(|d: Dependency| d@)
}

/// A sequence of dependencies with repetitions removed: the first
/// occurrence of each value is kept, in order.
pub open spec fn dedup_first(s: Seq<DependencyV>) -> Seq<DependencyV>
    decreases s.len(),
{
    if s.len() == 0 {
        Seq::empty()
    } else {
        let rest = dedup_first(s.drop_last());
        if rest.contains(s.last()) {
            rest
        } else {
            rest.push(s.last())
        }
    }
}

fn env_eq(a: &Vec<Environment>, b: &Vec<Environment>) -> (r: bool)
    ensures
        r == (a@ == b@),
{
    if a.len() != b.len() {
        return false;
    }
    let mut i: usize = 0;
    while i < a.len()
        invariant
            0 <= i <= a@.len(),
            a@.len() == b@.len(),
            forall|k: int| 0 <= k < i ==> a@[k] == b@[k],
        decreases a@.len() - i,
    {
        if !(a[i] == b[i]) {
            return false;
        }
        i += 1;
    }
    proof {
        assert(a@ =~= b@);
    }
    true
}

impl PartialEq for Dependency {
    /// Structural equality: kind, name, version and environments all match.
    fn eq(&self, other: &Self) -> (r: bool) {
        let kind_eq = match (&self.kind, &other.kind) {
            (DependencyKind::Pip, DependencyKind::Pip) => true,
            (DependencyKind::Unknown(a), DependencyKind::Unknown(b)) => *a == *b,
            _ => false,
        };
        let name_eq = self.name == other.name;
        let version_eq = self.version == other.version;
        let envs_eq = env_eq(&self.environment, &other.environment);
        let r = kind_eq && name_eq && version_eq && envs_eq;
        proof {
            assert(kind_eq == (self.kind@ == other.kind@));
            if r {
                assert(self@ =~= other@);
            }
        }
        r
    }
}

impl vstd::std_specs::cmp::PartialEqSpecImpl for Dependency {
    open spec fn obeys_eq_spec() -> bool {
        true
    }

    open spec fn eq_spec(&self, other: &Self) -> bool {
        self@ == other@
    }
}

/// Lexicographic order over character sequences, by code point.
pub open spec fn lex_cmp(a: Seq<char>, b: Seq<char>) -> Ordering
    decreases a.len(),
{
    if a.len() == 0 && b.len() == 0 {
        Ordering::Equal
    } else if a.len() == 0 {
        Ordering::Less
    } else if b.len() == 0 {
        Ordering::Greater
    } else if (a[0] as u32) < (b[0] as u32) {
        Ordering::Less
    } else if (a[0] as u32) > (b[0] as u32) {
        Ordering::Greater
    } else {
        lex_cmp(a.drop_first(), b.drop_first())
    }
}

fn str_cmp(a: &str, b: &str) -> (r: Ordering)
    ensures
        r == lex_cmp(a@, b@),
{
    let an = a.unicode_len();
    let bn = b.unicode_len();
    let mut i: usize = 0;
    proof {
        assert(a@.skip(0) =~= a@);
        assert(b@.skip(0) =~= b@);
    }
    while i < an && i < bn
        invariant
            0 <= i <= an,
            0 <= i <= bn,
            an == a@.len(),
            bn == b@.len(),
            lex_cmp(a@, b@) == lex_cmp(a@.skip(i as int), b@.skip(i as int)),
        decreases an - i,
    {
        let ca = a.get_char(i) as u32;
        let cb = b.get_char(i) as u32;
        proof {
            assert(a@.skip(i as int)[0] == a@[i as int]);
            assert(b@.skip(i as int)[0] == b@[i as int]);
        }
        if ca < cb {
            return Ordering::Less;
        }
        if ca > cb {
            return Ordering::Greater;
        }
        proof {
            assert(a@.skip(i as int).drop_first() =~= a@.skip(i + 1));
            assert(b@.skip(i as int).drop_first() =~= b@.skip(i + 1));
        }
        i += 1;
    }
    proof {
        if an == bn {
            assert(a@.skip(i as int).len() == 0 && b@.skip(i as int).len() == 0);
        }
    }
    if an == bn {
        Ordering::Equal
    } else if an < bn {
        Ordering::Less
    } else {
        Ordering::Greater
    }
}

/// Where an environment stands in the model's order.
pub open spec fn env_rank(e: Environment) -> int {
    match e {
        Environment::Production => 0,
        Environment::Development => 1,
    }
}

/// Lexicographic order over environment lists.
pub open spec fn env_lex_cmp(a: Seq<Environment>, b: Seq<Environment>) -> Ordering
    decreases a.len(),
{
    if a.len() == 0 && b.len() == 0 {
        Ordering::Equal
    } else if a.len() == 0 {
        Ordering::Less
    } else if b.len() == 0 {
        Ordering::Greater
    } else if env_rank(a[0]) < env_rank(b[0]) {
        Ordering::Less
    } else if env_rank(a[0]) > env_rank(b[0]) {
        Ordering::Greater
    } else {
        env_lex_cmp(a.drop_first(), b.drop_first())
    }
}

fn env_rank_exec(e: Environment) -> (r: u32)
    ensures
        r == env_rank(e),
{
    match e {
        Environment::Production => 0,
        Environment::Development => 1,
    }
}

fn env_cmp(a: &Vec<Environment>, b: &Vec<Environment>) -> (r: Ordering)
    ensures
        r == env_lex_cmp(a@, b@),
{
    let mut i: usize = 0;
    proof {
        assert(a@.skip(0) =~= a@);
        assert(b@.skip(0) =~= b@);
    }
    while i < a.len() && i < b.len()
        invariant
            0 <= i <= a@.len(),
            0 <= i <= b@.len(),
            env_lex_cmp(a@, b@) == env_lex_cmp(a@.skip(i as int), b@.skip(i as int)),
        decreases a@.len() - i,
    {
        let ra = env_rank_exec(a[i]);
        let rb = env_rank_exec(b[i]);
        proof {
            assert(a@.skip(i as int)[0] == a@[i as int]);
            assert(b@.skip(i as int)[0] == b@[i as int]);
        }
        if ra < rb {
            return Ordering::Less;
        }
        if ra > rb {
            return Ordering::Greater;
        }
        proof {
            assert(a@.skip(i as int).drop_first() =~= a@.skip(i + 1));
            assert(b@.skip(i as int).drop_first() =~= b@.skip(i + 1));
        }
        i += 1;
    }
    proof {
        if a@.len() == b@.len() {
            assert(a@.skip(i as int).len() == 0 && b@.skip(i as int).len() == 0);
        }
    }
    if a.len() == b.len() {
        Ordering::Equal
    } else if a.len() < b.len() {
        Ordering::Less
    } else {
        Ordering::Greater
    }
}

/// Where a dependency kind stands: pip packages before unknown ones, and
/// unknown ones by their tag.
pub open spec fn kind_cmp(a: DependencyKindV, b: DependencyKindV) -> Ordering {
    match (a, b) {
        (DependencyKindV::Pip, DependencyKindV::Pip) => Ordering::Equal,
        (DependencyKindV::Pip, DependencyKindV::Unknown(_)) => Ordering::Less,
        (DependencyKindV::Unknown(_), DependencyKindV::Pip) => Ordering::Greater,
        (DependencyKindV::Unknown(x), DependencyKindV::Unknown(y)) => lex_cmp(x, y),
    }
}

/// Structural order over dependencies: by kind, then name, then version,
/// then environments.
pub open spec fn dep_cmp(a: DependencyV, b: DependencyV) -> Ordering {
    if kind_cmp(a.kind, b.kind) != Ordering::Equal {
        kind_cmp(a.kind, b.kind)
    } else if lex_cmp(a.name, b.name) != Ordering::Equal {
        lex_cmp(a.name, b.name)
    } else if lex_cmp(a.version, b.version) != Ordering::Equal {
        lex_cmp(a.version, b.version)
    } else {
        env_lex_cmp(a.environment, b.environment)
    }
}

impl PartialOrd for Dependency {
    /// Structural order, for deterministic sorting of reports.
    fn partial_cmp(&self, other: &Self) -> (r: Option<Ordering>) {
        let k = match (&self.kind, &other.kind) {
            (DependencyKind::Pip, DependencyKind::Pip) => Ordering::Equal,
            (DependencyKind::Pip, DependencyKind::Unknown(_)) => Ordering::Less,
            (DependencyKind::Unknown(_), DependencyKind::Pip) => Ordering::Greater,
            (DependencyKind::Unknown(x), DependencyKind::Unknown(y)) => str_cmp(
                x.as_str(),
                y.as_str(),
            ),
        };
        if !matches!(k, Ordering::Equal) {
            return Some(k);
        }
        let n = str_cmp(self.name.as_str(), other.name.as_str());
        if !matches!(n, Ordering::Equal) {
            return Some(n);
        }
        let v = str_cmp(self.version.as_str(), other.version.as_str());
        if !matches!(v, Ordering::Equal) {
            return Some(v);
        }
        Some(env_cmp(&self.environment, &other.environment))
    }
}

impl vstd::std_specs::cmp::PartialOrdSpecImpl for Dependency {
    open spec fn obeys_partial_cmp_spec() -> bool {
        true
    }

    open spec fn partial_cmp_spec(&self, other: &Self) -> Option<Ordering> {
        Some(dep_cmp(self@, other@))
    }
}

impl Clone for Dependency {
    fn clone(&self) -> (res: Self)
        ensures
            res@ == self@,
    {
        let mut env: Vec<Environment> = Vec::new();
        let mut i: usize = 0;
        while i < self.environment.len()
            invariant
                0 <= i <= self.environment@.len(),
                env@ == self.environment@.subrange(0, i as int),
            decreases self.environment@.len() - i,
        {
            env.push(self.environment[i]);
            assert(env@ =~= self.environment@.subrange(0, i + 1 as int));
            i += 1;
        }
        assert(env@ =~= self.environment@);
        Dependency {
            kind: self.kind.clone(),
            name: self.name.clone(),
            version: self.version.clone(),
            environment: env,
        }
    }
}

/// The build system a discovered project uses.
#[derive(Debug, Clone, Copy, PartialEq, Eq, Structural)]
pub enum ProjectTargetKind {
    Setuptools,
}

/// What was analyzed: a project's base directory, the manifest that made it
/// discoverable, and its build-system kind. Immutable once constructed.
#[derive(Debug)]
pub struct ProjectTarget {
    pub dir: String,
    pub manifest: String,
    pub kind: ProjectTargetKind,
}

/// Spec-level value of a `ProjectTarget`.
#[verifier::ext_equal]
pub struct ProjectTargetV {
    pub dir: Seq<char>,
    pub manifest: Seq<char>,
    pub kind: ProjectTargetKind,
}

impl View for ProjectTarget {
    type V = ProjectTargetV;

    open spec fn view(&self) -> ProjectTargetV {
        ProjectTargetV { dir: self.dir@, manifest: self.manifest@, kind: self.kind }
    }
}

impl Clone for ProjectTarget {
    fn clone(&self) -> (res: Self)
        ensures
            res == *self,
    {
        ProjectTarget {
            dir: self.dir.clone(),
            manifest: self.manifest.clone(),
            kind: self.kind,
        }
    }
}

/// The successful output of one analyzer: the name of the analyzer that
/// produced it, the analyzed target, and the dependency graph it reported.
pub struct AnalysisUnit {
    pub analyzer: String,
    pub project: ProjectTarget,
    pub graph: petgraph::graph::UnGraph<Dependency, ()>,
}

/// Spec-level value of an `AnalysisUnit`; the graph is abstracted to the
/// sequence of its node weights in insertion order.
#[verifier::ext_equal]
pub struct AnalysisUnitV {
    pub analyzer: Seq<char>,
    pub project: ProjectTargetV,
    pub nodes: Seq<DependencyV>,
}

impl View for AnalysisUnit {
    type V = AnalysisUnitV;

    open spec fn view(&self) -> AnalysisUnitV {
        AnalysisUnitV {
            analyzer: self.analyzer@,
            project: self.project@,
            nodes: deps_view(graph_nodes(self.graph)),
        }
    }
}

impl AnalysisUnit {
    /// The dependencies recorded as graph nodes, in insertion order.
    pub fn dependencies(&self) -> (r: Vec<Dependency>)
        ensures
            deps_view(r@) == self@.nodes,
    {
        let refs = crate::graph::graph_node_refs(&self.graph);
        let mut out: Vec<Dependency> = Vec::new();
        let mut i: usize = 0;
        while i < refs.len()
            invariant
                0 <= i <= refs@.len(),
                refs@.len() == graph_nodes(self.graph).len(),
                forall|j: int| 0 <= j < refs@.len() ==> *refs@[j] == graph_nodes(self.graph)[j],
                out@.len() == i,
                forall|k: int|
                    0 <= k < i ==> (#[trigger] out@[k])@ == graph_nodes(self.graph)[k]@,
            decreases refs@.len() - i,
        {
            out.push(refs[i].clone());
            i += 1;
        }
        proof {
            assert forall|k: int| 0 <= k < out@.len() implies deps_view(out@)[k] == deps_view(
                graph_nodes(self.graph),
            )[k] by {}
            assert(deps_view(out@) =~= deps_view(graph_nodes(self.graph)));
        }
        out
    }

    /// How many dependencies the graph holds.
    pub fn dependency_count(&self) -> (n: usize)
        ensures
            n == self@.nodes.len(),
    {
        crate::graph::graph_node_count(&self.graph)
    }
}

/// One analyzer attempt's failure.
#[derive(Debug)]
pub enum AnalyzerError {
    CouldNotRead(String),
    CouldNotExecute { cmd: String, cwd: String, cmd_std_err: String },
    CouldNotAnalyzeErr(String),
    NotImplemented,
    CommandExecFailed(i32, String),
    CommandFailed(String),
    FailedToParseFromJSON(String),
}

/// Spec-level value of an `AnalyzerError`.
#[verifier::ext_equal]
pub enum AnalyzerErrorV {
    CouldNotRead(Seq<char>),
    CouldNotExecute { cmd: Seq<char>, cwd: Seq<char>, cmd_std_err: Seq<char> },
    CouldNotAnalyzeErr(Seq<char>),
    NotImplemented,
    CommandExecFailed(i32, Seq<char>),
    CommandFailed(Seq<char>),
    FailedToParseFromJSON(Seq<char>),
}

impl View for AnalyzerError {
    type V = AnalyzerErrorV;

    open spec fn view(&self) -> AnalyzerErrorV {
        match self {
            AnalyzerError::CouldNotRead(s) => AnalyzerErrorV::CouldNotRead(s@),
            AnalyzerError::CouldNotExecute { cmd, cwd, cmd_std_err } => {
                AnalyzerErrorV::CouldNotExecute {
                    cmd: cmd@,
                    cwd: cwd@,
                    cmd_std_err: cmd_std_err@,
                }
            },
            AnalyzerError::CouldNotAnalyzeErr(s) => AnalyzerErrorV::CouldNotAnalyzeErr(s@),
            AnalyzerError::NotImplemented => AnalyzerErrorV::NotImplemented,
            AnalyzerError::CommandExecFailed(c, s) => AnalyzerErrorV::CommandExecFailed(*c, s@),
            AnalyzerError::CommandFailed(s) => AnalyzerErrorV::CommandFailed(s@),
            AnalyzerError::FailedToParseFromJSON(s) => AnalyzerErrorV::FailedToParseFromJSON(s@),
        }
    }
}

impl Clone for AnalyzerError {
    fn clone(&self) -> (res: Self)
        ensures
            res@ == self@,
    {
        match self {
            AnalyzerError::CouldNotRead(s) => AnalyzerError::CouldNotRead(s.clone()),
            AnalyzerError::CouldNotExecute { cmd, cwd, cmd_std_err } => {
                AnalyzerError::CouldNotExecute {
                    cmd: cmd.clone(),
                    cwd: cwd.clone(),
                    cmd_std_err: cmd_std_err.clone(),
                }
            },
            AnalyzerError::CouldNotAnalyzeErr(s) => AnalyzerError::CouldNotAnalyzeErr(s.clone()),
            AnalyzerError::NotImplemented => AnalyzerError::NotImplemented,
            AnalyzerError::CommandExecFailed(c, s) => AnalyzerError::CommandExecFailed(
                *c,
                s.clone(),
            ),
            AnalyzerError::CommandFailed(s) => AnalyzerError::CommandFailed(s.clone()),
            AnalyzerError::FailedToParseFromJSON(s) => AnalyzerError::FailedToParseFromJSON(
                s.clone(),
            ),
        }
    }
}

impl AnalyzerError {
    /// The human-readable description of this failure.
    pub open spec fn message_spec(&self) -> Seq<char> {
        match self {
            AnalyzerError::CouldNotRead(s) => "Could not read file: "@ + s@,
            AnalyzerError::CouldNotExecute { cmd, cwd, cmd_std_err } => "Could not execute command '"@
                + cmd@ + "' in directory: "@ + cwd@,
            AnalyzerError::CouldNotAnalyzeErr(s) => "Could not analyze: "@ + s@,
            AnalyzerError::NotImplemented => "Is not implemented"@,
            AnalyzerError::CommandExecFailed(_, _) => "Is not implemented"@,
            AnalyzerError::CommandFailed(_) => "Failed to execute command"@,
            AnalyzerError::FailedToParseFromJSON(_) => "Failed to parse json"@,
        }
    }

    pub fn message(&self) -> (r: String)
        ensures
            r@ == self.message_spec(),
    {
        match self {
            AnalyzerError::CouldNotRead(s) => {
                let mut m = "Could not read file: ".to_string();
                m.append(s.as_str());
                m
            },
            AnalyzerError::CouldNotExecute { cmd, cwd, cmd_std_err: _ } => {
                let mut m = "Could not execute command '".to_string();
                m.append(cmd.as_str());
                m.append("' in directory: ");
                m.append(cwd.as_str());
                m
            },
            AnalyzerError::CouldNotAnalyzeErr(s) => {
                let mut m = "Could not analyze: ".to_string();
                m.append(s.as_str());
                m
            },
            AnalyzerError::NotImplemented => "Is not implemented".to_string(),
            AnalyzerError::CommandExecFailed(_, _) => "Is not implemented".to_string(),
            AnalyzerError::CommandFailed(_) => "Failed to execute command".to_string(),
            AnalyzerError::FailedToParseFromJSON(_) => "Failed to parse json".to_string(),
        }
    }
}

/// A project's aggregate failure: every analyzer in its fallback chain
/// failed, and here is each analyzer's error, in attempt order.
#[derive(Debug)]
pub enum AnalysisError {
    AllMethodsFailed(Vec<AnalyzerError>),
}

impl AnalysisError {
    /// The human-readable description of this failure.
    pub open spec fn message_spec(&self) -> Seq<char> {
        "Failed to analyze with all methods!"@
    }

    pub fn message(&self) -> (r: String)
        ensures
            r@ == self.message_spec(),
    {
        "Failed to analyze with all methods!".to_string()
    }
}

/// One strategy for extracting dependency information from a project of
/// type `P`. An analyzer must report failure only through its typed result,
/// and a success carries the analyzer's own name for provenance.
pub trait Analyzer<P>: Sized {
    /// The analyzer's stable name. An implementation that proves anything
    /// of its `name` overrides this.
    open spec fn name_spec(&self) -> Seq<char> {
        Seq::empty()
    }

    fn kind(&self) -> AnalyzeKind;

    fn name(&self) -> (r: &'static str)
        ensures
            r@ == self.name_spec(),
    ;

    fn analyze(&self, project: &P) -> (r: Result<AnalysisUnit, AnalyzerError>)
        ensures
            r matches Ok(u) ==> u.analyzer@ == self.name_spec(),
    ;
}

/// A project paired with its ordered list of applicable analyzer
/// strategies: analyzers are tried in order and the first success wins.
pub trait Analyzable: Sized {
    /// The well-formedness the project's methods rely on.
    open spec fn wf(&self) -> bool {
        true
    }

    /// The target this project projects to. An implementation that proves
    /// anything of its `to_target` overrides this.
    open spec fn target_spec(&self) -> ProjectTargetV {
        ProjectTargetV { dir: Seq::empty(), manifest: Seq::empty(), kind: ProjectTargetKind::Setuptools }
    }

    fn analyze(&self) -> (r: Result<AnalysisUnit, AnalysisError>)
        requires
            self.wf(),
    ;

    /// A pure projection of what is analyzed, available before and
    /// independent of analysis.
    fn to_target(&self) -> (t: ProjectTarget)
        requires
            self.wf(),
        ensures
            t@ == self.target_spec(),
    ;
}

/// A project that a scan can pick up.
pub trait Scannable: Analyzable {
}

/// Runs a fallback chain: tries `analyzers` on `project` in order, returns
/// the first success immediately, and aggregates every error into
/// `AllMethodsFailed` when all analyzers fail. With an empty analyzer list
/// the result is an `AllMethodsFailed` carrying no errors.
///
/// The second component is a ghost transcript of the attempted results, in
/// attempt order: every attempt but the last failed, a success is returned
/// as soon as it appears, and on aggregate failure the transcript's errors
/// are exactly the surfaced ones, one per analyzer, in attempt order. Each
/// transcript entry satisfies the postcondition of the analyzer that
/// produced it, which ties the result to the analyzers' own contracts.
pub fn analyze_with<P, A: Analyzer<P>>(project: &P, analyzers: &Vec<A>) -> (r: (
    Result<AnalysisUnit, AnalysisError>,
    Ghost<Seq<Result<AnalysisUnit, AnalyzerError>>>,
))
    ensures
        r.1@.len() <= analyzers@.len(),
        forall|j: int| 0 <= j < r.1@.len() - 1 ==> r.1@[j] is Err,
        r.0 matches Ok(u) ==> {
            &&& r.1@.len() >= 1
            &&& r.1@.last() == Ok::<AnalysisUnit, AnalyzerError>(u)
            &&& u.analyzer@ == analyzers@[r.1@.len() - 1].name_spec()
        },
        r.0 matches Err(e) ==> {
            &&& r.1@.len() == analyzers@.len()
            &&& e matches AnalysisError::AllMethodsFailed(errs)
            &&& errs@.len() == analyzers@.len()
            &&& forall|j: int|
                0 <= j < r.1@.len() ==> (#[trigger] r.1@[j]) is Err && r.1@[j]->Err_0
                    == errs@[j]
        },
        analyzers@.len() == 0 ==> r.0 is Err,
        forall|j: int|
            0 <= j < r.1@.len() ==> #[trigger] call_ensures(
                A::analyze,
                (&analyzers@[j], project),
                r.1@[j],
            ),
{
    let mut errs: Vec<AnalyzerError> = Vec::new();
    let ghost mut log: Seq<Result<AnalysisUnit, AnalyzerError>> = Seq::empty();
    let mut i: usize = 0;
    while i < analyzers.len()
        invariant
            0 <= i <= analyzers@.len(),
            errs@.len() == i,
            log.len() == i,
            forall|j: int| 0 <= j < i ==> (#[trigger] log[j]) is Err && log[j]->Err_0 == errs@[j],
            forall|j: int|
                0 <= j < i ==> #[trigger] call_ensures(
                    A::analyze,
                    (&analyzers@[j], project),
                    log[j],
                ),
        decreases analyzers@.len() - i,
    {
        let res = analyzers[i].analyze(project);
        let ghost prev = log;
        proof {
            log = prev.push(res);
            assert forall|j: int| 0 <= j < log.len() - 1 implies log[j] is Err by {
                assert(log[j] == prev[j]);
            }
            assert forall|j: int| 0 <= j < log.len() implies #[trigger] call_ensures(
                A::analyze,
                (&analyzers@[j], project),
                log[j],
            ) by {
                if j < prev.len() {
                    assert(log[j] == prev[j]);
                } else {
                    assert(log[j] == res);
                }
            }
        }
        match res {
            Ok(u) => {
                return (Ok(u), Ghost(log));
            },
            Err(e) => {
                errs.push(e);
                proof {
                    assert forall|j: int| 0 <= j < i + 1 implies (#[trigger] log[j]) is Err
                        && log[j]->Err_0 == errs@[j] by {
                        if j < i {
                            assert(log[j] == prev[j]);
                        }
                    }
                }
            },
        }
        i += 1;
    }
    proof {
        assert forall|j: int| 0 <= j < log.len() implies (#[trigger] log[j]) is Err
            && log[j]->Err_0 == errs@[j] by {}
    }
    (Err(AnalysisError::AllMethodsFailed(errs)), Ghost(log))
}

/// First success wins. In a fallback-chain transcript every attempt but the
/// last failed (as `analyze_with` ensures); so when the first attempt
/// succeeded, it is the whole transcript — no later analyzer was attempted,
/// and that first result is the chain's.
pub proof fn lemma_first_success_short_circuits(
    attempts: Seq<Result<AnalysisUnit, AnalyzerError>>,
)
    requires
        forall|j: int| 0 <= j < attempts.len() - 1 ==> (#[trigger] attempts[j]) is Err,
        attempts.len() >= 1,
        attempts[0] is Ok,
    ensures
        attempts.len() == 1,
        attempts.last() == attempts[0],
{
    if attempts.len() > 1 {
        assert(attempts[0] is Err);
    }
}

} // verus!
