//! Option types of the command-line surface, and the path decisions behind
//! it: classifying a scan target, and making a path absolute and clean.
//! Reading the filesystem and the working directory happens outside the
//! library; the decisions on what was read are here.
use vstd::prelude::*;
use vstd::string::StrSliceExecFns;
use vstd::string::StringExecFns;

verus! {

broadcast use vstd::string::group_string_axioms;

/// How much the process logs.
#[derive(Debug, Clone, Copy, PartialEq, Eq, Structural)]
pub enum Verbosity {
    Info,
    Debug,
    Trace,
}

/// How a scan's findings are rendered.
#[derive(Debug, Clone, Copy, PartialEq, Eq, Structural)]
pub enum ScanOutputFormat {
    Text,
    Json,
}

/// What a scan starts from: a directory to walk, or a single file.
#[derive(Debug)]
pub enum Target {
    Directory(String),
    File(String),
}

impl Clone for Target {
    fn clone(&self) -> (res: Self)
        ensures
            res == *self,
    {
        match self {
            Target::Directory(p) => Target::Directory(p.clone()),
            Target::File(p) => Target::File(p.clone()),
        }
    }
}

impl Target {
    /// The path inside the target.
    pub open spec fn path_spec(&self) -> String {
        match self {
            Target::Directory(p) => *p,
            Target::File(p) => *p,
        }
    }

    pub fn path(&self) -> (p: &String)
        ensures
            *p == self.path_spec(),
    {
        match self {
            Target::Directory(p) => p,
            Target::File(p) => p,
        }
    }
}

/// Classifies an already-resolved path by what the filesystem said of it: a
/// directory wins over a file, and a path that is neither is rejected and
/// handed back as the error.
pub fn classify_target(path: String, is_dir: bool, is_file: bool) -> (r: Result<Target, String>)
    ensures
        is_dir ==> r == Ok::<Target, String>(Target::Directory(path)),
        !is_dir && is_file ==> r == Ok::<Target, String>(Target::File(path)),
        !is_dir && !is_file ==> r == Err::<Target, String>(path),
{
    if is_dir {
        Ok(Target::Directory(path))
    } else if is_file {
        Ok(Target::File(path))
    } else {
        Err(path)
    }
}

/// What cleaning a path yields: `.` and `..` segments resolved away,
/// repeated separators collapsed.
pub uninterp spec fn cleaned_of(s: Seq<char>) -> Seq<char>;

/// Relies on path_clean's `clean`: the cleaned form of a path, a function
/// of the path text alone; a rooted path stays rooted.
#[verifier::external_body]
fn clean_path(s: &str) -> (r: String)
    ensures
        r@ == cleaned_of(s@),
        is_absolute_path(s@) ==> is_absolute_path(r@),
{
    path_clean::clean(s).to_string_lossy().into_owned()
}

/// Whether a path is absolute: it starts at the root.
pub open spec fn is_absolute_path(s: Seq<char>) -> bool {
    s.len() > 0 && s[0] == '/'
}

/// The absolute, cleaned form of `path`: `path` itself when it is already
/// absolute, else `path` joined under the working directory `cwd`; cleaned
/// either way.
pub fn absolute_path(path: &String, cwd: &String) -> (r: String)
    ensures
        is_absolute_path(path@) ==> r@ == cleaned_of(path@),
        !is_absolute_path(path@) ==> r@ == cleaned_of(cwd@ + "/"@ + path@),
        is_absolute_path(path@) || is_absolute_path(cwd@) ==> is_absolute_path(r@),
{
    let s = path.as_str();
    if s.unicode_len() > 0 && s.get_char(0) == '/' {
        clean_path(s)
    } else {
        let mut joined = cwd.clone();
        joined.append("/");
        joined.append(s);
        clean_path(joined.as_str())
    }
}

} // verus!
