//! Finding an executable along an ordered list of directories.

use vstd::prelude::*;
use vstd::string::*;
use crate::text::{
    ends_with,
    fields,
    has_suffix,
    holds_text,
    optional_text,
    same_text,
    split,
    texts,
};

verus! {

/// The family of platforms, which decides how a candidate path is written.
#[derive(Clone, Copy, Debug, PartialEq, Eq, Structural)]
pub enum Platform {
    /// Directories and names are joined by `/`; names carry no suffix.
    Unix,
    /// Directories and names are joined by `\`; executables end in `.exe`.
    Windows,
}

/// The platform family of the operating system called `os`: `windows` is of
/// the one, every other system of the other.
pub fn platform_for(os: &str) -> (r: Platform)
    ensures
        r == if os@ == "windows"@ {
            Platform::Windows
        } else {
            Platform::Unix
        },
{
    if same_text(os, "windows") {
        Platform::Windows
    } else {
        Platform::Unix
    }
}

/// The path at which `name` is looked for inside `dir`.
pub open spec fn candidate(dir: Seq<char>, name: Seq<char>, platform: Platform) -> Seq<char> {
    match platform {
        Platform::Unix => dir + "/"@ + name,
        Platform::Windows => if ends_with(name, ".exe"@) {
            dir + "\\"@ + name
        } else {
            dir + "\\"@ + name + ".exe"@
        },
    }
}

/// What the file system says of a path.
#[derive(Clone, Copy, Debug, PartialEq, Eq, Structural)]
pub struct FileStatus {
    /// Whether there is an entry at the path.
    pub exists: bool,
    /// Whether the entry is marked read-only.
    pub read_only: bool,
}

impl FileStatus {
    /// Whether a file of this status is taken for one that can be launched:
    /// it is there and it is not read-only.
    pub open spec fn launchable(self) -> bool {
        self.exists && !self.read_only
    }

    /// Whether a file of this status is taken for one that can be launched.
    pub fn is_launchable(self) -> (r: bool)
        ensures
            r == self.launchable(),
    {
        self.exists && !self.read_only
    }
}

/// That `probe`, asked about the file at `path`, may give a status that is
/// launchable, or is not, as `launchable` says.
pub open spec fn answers<F: Fn(&str) -> FileStatus>(
    probe: F,
    path: Seq<char>,
    launchable: bool,
) -> bool {
    exists|s: &str, status: FileStatus|
        s@ == path && #[trigger] call_ensures(probe, (s,), status) && status.launchable()
            == launchable
}

/// Builds the path at which `name` is looked for inside `dir`.
pub fn candidate_path(dir: &str, name: &str, platform: Platform) -> (r: String)
    ensures
        r@ == candidate(dir@, name@, platform),
{
    let mut r = String::from_str(dir);
    match platform {
        Platform::Unix => {
            r.append("/");
            r.append(name);
        },
        Platform::Windows => {
            r.append("\\");
            r.append(name);
            if !has_suffix(name, ".exe") {
                r.append(".exe");
            }
        },
    }
    r
}

/// That `found` is what a search for `name` along `dirs` comes to, given the
/// answers of `probe`: either the candidate of some directory, which the
/// probe found launchable after it had found the candidate of no earlier
/// directory so, or nothing, after it had found none of them so.
pub open spec fn found_by<F: Fn(&str) -> FileStatus>(
    probe: F,
    name: Seq<char>,
    dirs: Seq<Seq<char>>,
    platform: Platform,
    found: Option<Seq<char>>,
) -> bool {
    match found {
        Some(p) => exists|i: int|
            0 <= i < dirs.len() && p == candidate(#[trigger] dirs[i], name, platform) && answers(
                probe,
                p,
                true,
            ) && forall|j: int|
                0 <= j < i ==> answers(probe, candidate(#[trigger] dirs[j], name, platform), false),
        None => forall|j: int|
            0 <= j < dirs.len() ==> answers(
                probe,
                candidate(#[trigger] dirs[j], name, platform),
                false,
            ),
    }
}

/// Looks for `name` in `dirs`, in order, and returns the first candidate that
/// `probe` accepts; the directories after it are not probed.
pub fn resolve<F: Fn(&str) -> FileStatus>(
    name: &str,
    dirs: &Vec<String>,
    platform: Platform,
    probe: F,
) -> (r: Option<String>)
    requires
        forall|s: &str| call_requires(probe, (s,)),
    ensures
        found_by(probe, name@, texts(dirs@), platform, optional_text(r)),
{
    let ghost ds = texts(dirs@);
    let mut i: usize = 0;
    while i < dirs.len()
        invariant
            i <= dirs.len(),
            ds == texts(dirs@),
            forall|s: &str| call_requires(probe, (s,)),
            forall|j: int|
                0 <= j < i ==> answers(probe, candidate(#[trigger] ds[j], name@, platform), false),
        decreases dirs.len() - i,
    {
        let path = candidate_path(dirs[i].as_str(), name, platform);
        let asked = path.as_str();
        let status = probe(asked);
        assert(path@ == candidate(ds[i as int], name@, platform));
        assert(call_ensures(probe, (asked,), status));
        if status.is_launchable() {
            return Some(path);
        }
        i += 1;
    }
    None
}

/// What the search for `name` along `dirs` finds when exactly the files in
/// `launchable` can be launched: the candidate of the first directory whose
/// candidate is among them.
pub open spec fn resolution(
    name: Seq<char>,
    dirs: Seq<Seq<char>>,
    platform: Platform,
    launchable: Set<Seq<char>>,
) -> Option<Seq<char>>
    decreases dirs.len(),
{
    if dirs.len() == 0 {
        None
    } else if launchable.contains(candidate(dirs[0], name, platform)) {
        Some(candidate(dirs[0], name, platform))
    } else {
        resolution(name, dirs.skip(1), platform, launchable)
    }
}

/// Shadowing: where the candidate of directory `i` can be launched and no
/// candidate of an earlier directory can, the search returns the candidate
/// of directory `i`, whatever the later directories hold.
pub proof fn lemma_first_match_wins(
    name: Seq<char>,
    dirs: Seq<Seq<char>>,
    platform: Platform,
    launchable: Set<Seq<char>>,
    i: int,
)
    requires
        0 <= i < dirs.len(),
        launchable.contains(candidate(dirs[i], name, platform)),
        forall|j: int| 0 <= j < i ==> !launchable.contains(candidate(dirs[j], name, platform)),
    ensures
        resolution(name, dirs, platform, launchable) == Some(candidate(dirs[i], name, platform)),
    decreases dirs.len(),
{
    if i > 0 {
        assert(!launchable.contains(candidate(dirs[0], name, platform)));
        let rest = dirs.skip(1);
        assert(rest[i - 1] == dirs[i]);
        assert forall|j: int| 0 <= j < i - 1 implies !launchable.contains(
            candidate(rest[j], name, platform),
        ) by {
            assert(rest[j] == dirs[j + 1]);
        }
        lemma_first_match_wins(name, rest, platform, launchable, i - 1);
    }
}

/// The search finds nothing exactly when no directory's candidate can be
/// launched.
pub proof fn lemma_nothing_found(
    name: Seq<char>,
    dirs: Seq<Seq<char>>,
    platform: Platform,
    launchable: Set<Seq<char>>,
)
    ensures
        resolution(name, dirs, platform, launchable) is None <==> forall|j: int|
            0 <= j < dirs.len() ==> !launchable.contains(candidate(dirs[j], name, platform)),
    decreases dirs.len(),
{
    if dirs.len() > 0 {
        let rest = dirs.skip(1);
        lemma_nothing_found(name, rest, platform, launchable);
        if !launchable.contains(candidate(dirs[0], name, platform)) {
            if resolution(name, rest, platform, launchable) is None {
                assert forall|j: int| 0 <= j < dirs.len() implies !launchable.contains(
                    candidate(dirs[j], name, platform),
                ) by {
                    if j > 0 {
                        assert(rest[j - 1] == dirs[j]);
                    }
                }
            } else {
                let j = choose|j: int|
                    0 <= j < rest.len() && launchable.contains(candidate(rest[j], name, platform));
                assert(rest[j] == dirs[j + 1]);
            }
        }
    }
}

/// Looks for `name` in `dirs`, in order, where exactly the files listed in
/// `launchable` can be launched.
pub fn resolve_listed(
    name: &str,
    dirs: &Vec<String>,
    platform: Platform,
    launchable: &Vec<String>,
) -> (r: Option<String>)
    ensures
        optional_text(r) == resolution(name@, texts(dirs@), platform, texts(launchable@).to_set()),
{
    let probe = |p: &str| -> (status: FileStatus)
        ensures
            status.launchable() == texts(launchable@).contains(p@),
        { FileStatus { exists: holds_text(launchable, p), read_only: false } };
    let r = resolve(name, dirs, platform, probe);
    proof {
        let files = texts(launchable@).to_set();
        let ds = texts(dirs@);
        match optional_text(r) {
            Some(p) => {
                let i = choose|i: int|
                    0 <= i < ds.len() && p == candidate(#[trigger] ds[i], name@, platform)
                        && answers(probe, p, true) && forall|j: int|
                        0 <= j < i ==> answers(
                            probe,
                            candidate(#[trigger] ds[j], name@, platform),
                            false,
                        );
                lemma_first_match_wins(name@, ds, platform, files, i);
            },
            None => {
                lemma_nothing_found(name@, ds, platform, files);
            },
        }
    }
    r
}

/// The character between two directories in the environment's list.
pub open spec fn list_separator(platform: Platform) -> char {
    match platform {
        Platform::Unix => ':',
        Platform::Windows => ';',
    }
}

/// Divides the environment's list of directories at its separators. Every
/// stretch between two separators is a directory, an empty one too.
pub fn split_list(raw: &str, platform: Platform) -> (r: Vec<String>)
    ensures
        texts(r@) == fields(raw@, list_separator(platform)),
{
    match platform {
        Platform::Unix => split(raw, ':'),
        Platform::Windows => split(raw, ';'),
    }
}

/// The search path: the directories of the environment's list, in their
/// order, and the working directory last.
pub fn search_path(listed: Vec<String>, working_dir: String) -> (r: Vec<String>)
    ensures
        r@ == listed@.push(working_dir),
        texts(r@) == texts(listed@).push(working_dir@),
{
    let mut r = listed;
    r.push(working_dir);
    assert(texts(r@) =~= texts(listed@).push(working_dir@));
    r
}

} // verus!
