use vstd::prelude::*;

use crate::text::{trim_whitespace, trimmed};

verus! {

/// Why no installation was reported.
pub enum FinderError {
    /// The user's home directory could not be determined.
    HomeDir,
    /// A filesystem access failed; the text describes the failure.
    Io(String),
    /// No candidate root exists, or no version could be detected.
    NotFound,
}

/// The text that describes a discovery error.
pub open spec fn finder_error_text(e: FinderError) -> Seq<char> {
    match e {
        FinderError::HomeDir => "Could not determine user home directory"@,
        FinderError::Io(cause) => "I/o error: "@ + cause@,
        FinderError::NotFound => "No Go installation found"@,
    }
}

impl FinderError {
    /// A description of the error for people to read.
    pub fn describe(&self) -> (r: String)
        ensures
            r@ == finder_error_text(*self),
    {
        match self {
            FinderError::HomeDir => String::from_str("Could not determine user home directory"),
            FinderError::Io(cause) => {
                let mut text = String::from_str("I/o error: ");
                text.append(cause.as_str());
                text
            },
            FinderError::NotFound => String::from_str("No Go installation found"),
        }
    }
}

/// A discovered installation.
pub struct GoInstallation {
    /// Version descriptions, in the order they were detected.
    pub versions: Vec<String>,
    /// The installation root that a deletion removes.
    pub path_to_delete: String,
}

/// A candidate root directory, with what the filesystem said of it.
pub struct RootCandidate {
    pub path: String,
    /// Whether the path exists and is a directory.
    pub is_dir: bool,
}

/// An entry of the version manager's directory.
pub struct ManagerEntry {
    /// The entry's name, when it is valid Unicode.
    pub name: Option<String>,
    pub is_dir: bool,
}

/// The views of a sequence of strings.
pub open spec fn strings_view(v: Seq<String>) -> Seq<Seq<char>> {
    v.map_values(|s: String| s@)
}

/// The view of an optional string.
pub open spec fn option_view(o: Option<String>) -> Option<Seq<char>> {
    match o {
        Some(s) => Some(s@),
        None => None,
    }
}

/// `i` is the first candidate that exists as a directory.
pub open spec fn is_first_root(c: Seq<RootCandidate>, i: int) -> bool {
    &&& 0 <= i < c.len()
    &&& c[i].is_dir
    &&& forall|j: int| 0 <= j < i ==> !(#[trigger] c[j]).is_dir
}

/// No candidate exists as a directory.
pub open spec fn no_root(c: Seq<RootCandidate>) -> bool {
    forall|j: int| 0 <= j < c.len() ==> !(#[trigger] c[j]).is_dir
}

/// A name that a version manager gives to a Go release directory.
pub open spec fn has_go_prefix(name: Seq<char>) -> bool {
    name.len() >= 2 && name[0] == 'g' && name[1] == 'o'
}

/// The entry is a directory whose name starts with `go`.
pub open spec fn is_release_dir(e: ManagerEntry) -> bool {
    e.is_dir && e.name is Some && has_go_prefix(e.name->0@)
}

/// The version description reported for a release directory: `go <name>`.
pub open spec fn release_label(name: Seq<char>) -> Seq<char> {
    seq!['g', 'o', ' '] + name
}

/// The version descriptions that a version manager's entries yield, in order.
pub open spec fn manager_versions(entries: Seq<ManagerEntry>) -> Seq<Seq<char>>
    decreases entries.len(),
{
    if entries.len() == 0 {
        seq![]
    } else {
        let rest = manager_versions(entries.drop_last());
        let e = entries.last();
        if is_release_dir(e) {
            rest.push(release_label(e.name->0@))
        } else {
            rest
        }
    }
}

/// All versions detected: the executable's own report first, if it gave one,
/// then the version manager's releases.
pub open spec fn detected_versions(
    version_line: Option<Seq<char>>,
    entries: Seq<ManagerEntry>,
) -> Seq<Seq<char>> {
    let reported = match version_line {
        Some(v) => seq![v],
        None => seq![],
    };
    reported + manager_versions(entries)
}

/// The outcome of discovery, given the candidates, the executable's trimmed
/// version line and the version manager's entries.
pub open spec fn located(
    c: Seq<RootCandidate>,
    version_line: Option<Seq<char>>,
    entries: Seq<ManagerEntry>,
    r: Result<GoInstallation, FinderError>,
) -> bool {
    let versions = detected_versions(version_line, entries);
    match r {
        Ok(inst) => {
            &&& versions.len() > 0
            &&& strings_view(inst.versions@) == versions
            &&& exists|i: int| is_first_root(c, i) && inst.path_to_delete@ == (#[trigger] c[i]).path@
        },
        Err(e) => {
            &&& e is NotFound
            &&& (no_root(c) || versions.len() == 0)
        },
    }
}

/// The index of the first candidate that exists as a directory.
pub fn first_existing_root(candidates: &Vec<RootCandidate>) -> (r: Option<usize>)
    ensures
        match r {
            Some(i) => is_first_root(candidates@, i as int),
            None => no_root(candidates@),
        },
{
    let mut i: usize = 0;
    while i < candidates.len()
        invariant
            i <= candidates@.len(),
            forall|j: int| 0 <= j < i ==> !(#[trigger] candidates@[j]).is_dir,
        decreases candidates@.len() - i,
    {
        if candidates[i].is_dir {
            return Some(i);
        }
        i = i + 1;
    }
    None
}

/// Whether a name starts with `go`.
fn starts_with_go(name: &str) -> (r: bool)
    ensures
        r == has_go_prefix(name@),
{
    name.unicode_len() >= 2 && name.get_char(0) == 'g' && name.get_char(1) == 'o'
}

/// The version descriptions that the version manager's entries yield: one
/// `go <name>` for each directory whose name starts with `go`, in order.
pub fn manager_release_versions(entries: &Vec<ManagerEntry>) -> (r: Vec<String>)
    ensures
        strings_view(r@) == manager_versions(entries@),
{
    let mut out: Vec<String> = Vec::new();
    let mut i: usize = 0;
    while i < entries.len()
        invariant
            i <= entries@.len(),
            strings_view(out@) == manager_versions(entries@.subrange(0, i as int)),
        decreases entries@.len() - i,
    {
        let e = &entries[i];
        assert(entries@.subrange(0, i + 1).drop_last() =~= entries@.subrange(0, i as int));
        if e.is_dir {
            match &e.name {
                Some(name) => {
                    if starts_with_go(name.as_str()) {
                        let mut label = String::from_str("go ");
                        label.append(name.as_str());
                        proof {
                            reveal_strlit("go ");
                            assert("go "@ =~= seq!['g', 'o', ' ']);
                        }
                        out.push(label);
                    }
                },
                None => {},
            }
        }
        assert(strings_view(out@) =~= manager_versions(entries@.subrange(0, i + 1)));
        i = i + 1;
    }
    assert(entries@.subrange(0, entries@.len() as int) =~= entries@);
    out
}

/// Discovery from what was probed: the first candidate that exists as a
/// directory is the root, and the versions are the executable's version line
/// (already trimmed), if any, followed by the version manager's releases.
/// With no root, or no version at all, nothing is found.
pub fn locate(
    candidates: &Vec<RootCandidate>,
    version_line: Option<String>,
    entries: &Vec<ManagerEntry>,
) -> (r: Result<GoInstallation, FinderError>)
    ensures
        located(
            candidates@,
            option_view(version_line),
            entries@,
            r,
        ),
{
    let root = first_existing_root(candidates);
    let ghost line = option_view(version_line);
    match root {
        None => Err(FinderError::NotFound),
        Some(i) => {
            let mut versions: Vec<String> = Vec::new();
            match version_line {
                Some(v) => {
                    versions.push(v);
                },
                None => {},
            }
            let mut releases = manager_release_versions(entries);
            versions.append(&mut releases);
            assert(strings_view(versions@) =~= detected_versions(line, entries@));
            if versions.len() == 0 {
                Err(FinderError::NotFound)
            } else {
                let path = candidates[i].path.clone();
                assert(is_first_root(candidates@, i as int) && path@ == candidates@[i as int].path@);
                Ok(GoInstallation { versions, path_to_delete: path })
            }
        },
    }
}

/// Discovery from the raw output of the executable's version report: the
/// output is trimmed and handed to `locate`.
pub fn discover(
    candidates: &Vec<RootCandidate>,
    probe_output: Option<String>,
    entries: &Vec<ManagerEntry>,
) -> (r: Result<GoInstallation, FinderError>)
    ensures
        located(
            candidates@,
            match probe_output {
                Some(v) => Some(trimmed(v@)),
                None => None::<Seq<char>>,
            },
            entries@,
            r,
        ),
{
    let version_line = match probe_output {
        Some(out) => Some(trim_whitespace(out.as_str())),
        None => None,
    };
    locate(candidates, version_line, entries)
}

/// Candidates listed after the chosen root never change the choice: whatever
/// follows a list whose first existing root is `i`, `i` stays the first.
pub proof fn lemma_later_candidates_ignored(c: Seq<RootCandidate>, d: Seq<RootCandidate>, i: int)
    requires
        is_first_root(c, i),
    ensures
        is_first_root(c + d, i),
{
    assert forall|j: int| 0 <= j < i implies !(#[trigger] (c + d)[j]).is_dir by {
        assert((c + d)[j] == c[j]);
    }
}

/// A root that exists is not enough: when neither the executable nor the
/// version manager reports a version, discovery finds nothing.
pub proof fn lemma_root_alone_is_not_found(
    c: Seq<RootCandidate>,
    entries: Seq<ManagerEntry>,
    r: Result<GoInstallation, FinderError>,
)
    requires
        manager_versions(entries).len() == 0,
        located(c, None, entries, r),
    ensures
        r matches Err(FinderError::NotFound),
{
    assert(detected_versions(None, entries) =~= manager_versions(entries));
}

/// The version manager contributes exactly its directories whose names start
/// with `go`, each as `go <name>`, in their order.
pub proof fn lemma_manager_versions_are_releases(entries: Seq<ManagerEntry>)
    ensures
        manager_versions(entries) == entries.filter(|e: ManagerEntry| is_release_dir(e)).map_values(
            |e: ManagerEntry| release_label(e.name->0@),
        ),
    decreases entries.len(),
{
    reveal(Seq::filter);
    let pred = |e: ManagerEntry| is_release_dir(e);
    let label = |e: ManagerEntry| release_label(e.name->0@);
    if entries.len() == 0 {
        assert(entries.filter(pred).map_values(label) =~= seq![]);
    } else {
        lemma_manager_versions_are_releases(entries.drop_last());
        let rest = entries.drop_last().filter(pred);
        if pred(entries.last()) {
            assert(rest.push(entries.last()).map_values(label) =~= rest.map_values(label).push(
                label(entries.last()),
            ));
        }
    }
}

} // verus!
