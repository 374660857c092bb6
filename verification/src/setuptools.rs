//! The setuptools project kind: a project discovered through a
//! `requirements.txt`-style manifest somewhere under the scanned root.
use vstd::prelude::*;
use vstd::string::StrSliceExecFns;
use vstd::string::StringExecFns;
use crate::analyze::{ProjectTarget, ProjectTargetKind, ProjectTargetV};

verus! {

broadcast use vstd::string::group_string_axioms;

/// The index of the last `/` in `s`, or `-1` when `s` holds none.
pub open spec fn last_slash(s: Seq<char>) -> int
    decreases s.len(),
{
    if s.len() == 0 {
        -1
    } else if s[s.len() - 1] == '/' {
        s.len() - 1
    } else {
        last_slash(s.drop_last())
    }
}

/// The parent directory of the path `s`, for an `s` that holds a `/`: the
/// text before the last `/`, or `/` itself when the last `/` is the first
/// character.
pub open spec fn parent_of(s: Seq<char>) -> Seq<char> {
    if last_slash(s) == 0 {
        s.subrange(0, 1)
    } else {
        s.subrange(0, last_slash(s))
    }
}

proof fn lemma_last_slash_at(s: Seq<char>, j: int)
    requires
        0 <= j < s.len(),
        s[j] == '/',
        forall|m: int| j < m < s.len() ==> s[m] != '/',
    ensures
        last_slash(s) == j,
    decreases s.len(),
{
    if j == s.len() - 1 {
    } else {
        assert(s.drop_last() =~= s.subrange(0, s.len() - 1));
        lemma_last_slash_at(s.drop_last(), j);
    }
}

proof fn lemma_no_slash(s: Seq<char>)
    requires
        forall|m: int| 0 <= m < s.len() ==> s[m] != '/',
    ensures
        last_slash(s) == -1,
    decreases s.len(),
{
    if s.len() > 0 {
        lemma_no_slash(s.drop_last());
    }
}

/// A project that the setuptools discovery found, identified by the
/// manifest file it was discovered through.
#[derive(Debug)]
pub struct SetupToolProject {
    pub manifest: String,
}

impl Clone for SetupToolProject {
    fn clone(&self) -> (res: Self)
        ensures
            res == *self,
    {
        SetupToolProject { manifest: self.manifest.clone() }
    }
}

impl SetupToolProject {
    /// Whether the manifest path names a parent directory at all, that is,
    /// holds a `/`.
    pub open spec fn has_parent(&self) -> bool {
        last_slash(self.manifest@) >= 0
    }

    /// The target this project stands for: its base directory, its
    /// manifest, and the setuptools kind tag.
    pub open spec fn target_v(&self) -> ProjectTargetV {
        ProjectTargetV {
            dir: parent_of(self.manifest@),
            manifest: self.manifest@,
            kind: ProjectTargetKind::Setuptools,
        }
    }

    /// The directory that holds the manifest.
    pub fn base_dir(&self) -> (r: String)
        requires
            self.has_parent(),
        ensures
            r@ == parent_of(self.manifest@),
    {
        let s = self.manifest.as_str();
        let n = s.unicode_len();
        let mut j = n;
        while j > 0
            invariant
                0 <= j <= n,
                n == s@.len(),
                s@ == self.manifest@,
                last_slash(self.manifest@) >= 0,
                forall|m: int| j <= m < n ==> s@[m] != '/',
            decreases j,
        {
            j = j - 1;
            if s.get_char(j) == '/' {
                proof {
                    lemma_last_slash_at(s@, j as int);
                }
                let k = if j == 0 {
                    1
                } else {
                    j
                };
                let r = s.substring_char(0, k).to_string();
                return r;
            }
        }
        proof {
            lemma_no_slash(s@);
        }
        // unreachable: has_parent guarantees a slash exists
        assert(false);
        self.manifest.clone()
    }

    /// The `ProjectTarget` projection of this project.
    pub fn to_project_target(&self) -> (t: ProjectTarget)
        requires
            self.has_parent(),
        ensures
            t@ == self.target_v(),
    {
        ProjectTarget {
            dir: self.base_dir(),
            manifest: self.manifest.clone(),
            kind: ProjectTargetKind::Setuptools,
        }
    }
}

/// The glob pattern under which setuptools manifests are discovered.
pub open spec fn discovery_pattern_spec(target: Seq<char>) -> Seq<char> {
    target + "/**/*.txt"@
}

pub fn discovery_pattern(target: &String) -> (r: String)
    ensures
        r@ == discovery_pattern_spec(target@),
{
    let mut m = target.clone();
    m.append("/**/*.txt");
    m
}

/// The projects the found manifest paths stand for, one per path, in
/// discovery order.
pub fn projects_from_paths(paths: Vec<String>) -> (r: Vec<SetupToolProject>)
    ensures
        r@.len() == paths@.len(),
        forall|i: int| 0 <= i < r@.len() ==> (#[trigger] r@[i]).manifest == paths@[i],
{
    let mut projects: Vec<SetupToolProject> = Vec::new();
    let mut i: usize = 0;
    while i < paths.len()
        invariant
            0 <= i <= paths@.len(),
            projects@.len() == i,
            forall|k: int| 0 <= k < i ==> (#[trigger] projects@[k]).manifest == paths@[k],
        decreases paths@.len() - i,
    {
        projects.push(SetupToolProject { manifest: paths[i].clone() });
        i += 1;
    }
    projects
}

} // verus!
