//! The program locator.
//!
//! The locator classifies what a scan of the learner's repository found:
//! whether the repository exists, whether a compiled artifact is present,
//! which directory the artifact lives in (the simulator loads every
//! artifact from one directory root), the name the artifact is addressed
//! by, and the on-chain identity the submission declares. The scan itself
//! is plain observed data; the classification and all path arithmetic are
//! verified here.

use vstd::prelude::*;
use vstd::string::*;

use crate::errors::{CaseError, ProgramLoadError};
use crate::identity::Identity;

verus! {

/// What a scan of the learner's repository observed.
#[derive(Debug)]
pub struct RepoScan {
    /// The configured repository root.
    pub repo_path: String,
    /// Whether that root exists on disk.
    pub repo_exists: bool,
    /// The path of the compiled program binary, when one was found.
    pub artifact_path: Option<String>,
    /// The on-chain identity the submission declares, when one could be
    /// read.
    pub declared_identity: Option<Identity>,
}

/// The resolved artifact: where the compiled program lives and which
/// identity it is addressed by.
#[derive(Debug)]
pub struct ProgramArtifact {
    /// The path of the compiled program binary.
    pub path: String,
    /// The directory containing the binary.
    pub program_dir: String,
    /// The name the simulator loads the artifact by.
    pub program_name: String,
    /// The derived on-chain identity of the program.
    pub identity: Identity,
}

/// Whether the path holds a directory separator.
pub open spec fn spec_has_slash(s: Seq<char>) -> bool {
    exists|i: int| 0 <= i < s.len() && s[i] == '/'
}

/// Everything before the last directory separator, or the empty sequence
/// where there is none.
pub open spec fn spec_dir_part(s: Seq<char>) -> Seq<char>
    decreases s.len(),
{
    if s.len() == 0 {
        Seq::empty()
    } else if s[s.len() - 1] == '/' {
        s.drop_last()
    } else {
        spec_dir_part(s.drop_last())
    }
}

/// Everything after the last directory separator, or the whole sequence
/// where there is none.
pub open spec fn spec_file_part(s: Seq<char>) -> Seq<char>
    decreases s.len(),
{
    if s.len() == 0 {
        Seq::empty()
    } else if s[s.len() - 1] == '/' {
        Seq::empty()
    } else {
        spec_file_part(s.drop_last()).push(s[s.len() - 1])
    }
}

/// Everything before the last dot, or the empty sequence where there is
/// none.
pub open spec fn spec_before_last_dot(s: Seq<char>) -> Seq<char>
    decreases s.len(),
{
    if s.len() == 0 {
        Seq::empty()
    } else if s[s.len() - 1] == '.' {
        s.drop_last()
    } else {
        spec_before_last_dot(s.drop_last())
    }
}

/// The stem of a file name: the name with its extension removed, or the
/// whole name where stripping would leave nothing.
pub open spec fn spec_file_stem(name: Seq<char>) -> Seq<char> {
    if spec_before_last_dot(name).len() == 0 {
        name
    } else {
        spec_before_last_dot(name)
    }
}

proof fn lemma_dir_part_of_slashless_suffix(s: Seq<char>, k: int)
    requires
        0 <= k <= s.len(),
        forall|j: int| k <= j < s.len() ==> s[j] != '/',
    ensures
        spec_dir_part(s) == spec_dir_part(s.subrange(0, k)),
    decreases s.len() - k,
{
    if k < s.len() {
        assert(s.drop_last() =~= s.subrange(0, s.len() - 1));
        lemma_dir_part_of_slashless_suffix(s.subrange(0, s.len() - 1), k);
        assert(s.subrange(0, s.len() - 1).subrange(0, k) =~= s.subrange(0, k));
    } else {
        assert(s.subrange(0, k) =~= s);
    }
}

proof fn lemma_no_slash_dir_part(s: Seq<char>)
    requires
        forall|j: int| 0 <= j < s.len() ==> s[j] != '/',
    ensures
        spec_dir_part(s) == Seq::<char>::empty(),
    decreases s.len(),
{
    if s.len() > 0 {
        lemma_no_slash_dir_part(s.drop_last());
    }
}

/// The directory part of a path: everything before the last separator.
/// `None` where the path has no separator at all.
pub fn parent_dir(path: &str) -> (r: Option<String>)
    ensures
        r is Some <==> spec_has_slash(path@),
        r matches Some(d) ==> d@ == spec_dir_part(path@),
{
    let n: usize = path.unicode_len();
    let mut i: usize = n;
    while i > 0
        invariant
            0 <= i <= n,
            n == path@.len(),
            forall|j: int| i <= j < n ==> path@[j] != '/',
        decreases i,
    {
        let c = path.get_char(i - 1);
        if c == '/' {
            let d = path.substring_char(0, i - 1);
            proof {
                lemma_dir_part_of_slashless_suffix(path@, i as int);
                assert(path@.subrange(0, i as int).drop_last() =~= path@.subrange(
                    0,
                    i as int - 1,
                ));
            }
            return Some(d.to_owned());
        }
        i -= 1;
    }
    proof {
        lemma_no_slash_dir_part(path@);
    }
    None
}

proof fn lemma_file_part_of_slashless_suffix(s: Seq<char>, k: int)
    requires
        0 <= k <= s.len(),
        forall|j: int| k <= j < s.len() ==> s[j] != '/',
    ensures
        spec_file_part(s) == spec_file_part(s.subrange(0, k)) + s.subrange(k, s.len() as int),
    decreases s.len() - k,
{
    if k < s.len() {
        assert(s.drop_last() =~= s.subrange(0, s.len() - 1));
        lemma_file_part_of_slashless_suffix(s.subrange(0, s.len() - 1), k);
        assert(s.subrange(0, s.len() - 1).subrange(0, k) =~= s.subrange(0, k));
        assert(s.subrange(0, s.len() - 1).subrange(k, s.len() - 1) =~= s.subrange(
            k,
            s.len() - 1,
        ));
        assert(spec_file_part(s) =~= spec_file_part(s.subrange(0, k)) + s.subrange(
            k,
            s.len() as int,
        ));
    } else {
        assert(s.subrange(0, k) =~= s);
        assert(spec_file_part(s) =~= spec_file_part(s.subrange(0, k)) + s.subrange(
            k,
            s.len() as int,
        ));
    }
}

/// The file part of a path: everything after the last separator.
pub fn file_part(path: &str) -> (r: String)
    ensures
        r@ == spec_file_part(path@),
{
    let n: usize = path.unicode_len();
    let mut i: usize = n;
    while i > 0
        invariant
            0 <= i <= n,
            n == path@.len(),
            forall|j: int| i <= j < n ==> path@[j] != '/',
        decreases i,
    {
        let c = path.get_char(i - 1);
        if c == '/' {
            let f = path.substring_char(i, n);
            proof {
                lemma_file_part_of_slashless_suffix(path@, i as int);
                assert(path@.subrange(0, i as int)[i - 1] == '/');
                assert(spec_file_part(path@.subrange(0, i as int)) =~= Seq::<char>::empty());
                assert(spec_file_part(path@) =~= path@.subrange(i as int, n as int));
            }
            return f.to_owned();
        }
        i -= 1;
    }
    let f = path.substring_char(0, n);
    proof {
        lemma_file_part_of_slashless_suffix(path@, 0);
        assert(spec_file_part(path@.subrange(0, 0)) =~= Seq::<char>::empty());
        assert(spec_file_part(path@) =~= path@.subrange(0, n as int));
    }
    f.to_owned()
}

proof fn lemma_before_dot_of_dotless_suffix(s: Seq<char>, k: int)
    requires
        0 <= k <= s.len(),
        forall|j: int| k <= j < s.len() ==> s[j] != '.',
    ensures
        spec_before_last_dot(s) == spec_before_last_dot(s.subrange(0, k)),
    decreases s.len() - k,
{
    if k < s.len() {
        assert(s.drop_last() =~= s.subrange(0, s.len() - 1));
        lemma_before_dot_of_dotless_suffix(s.subrange(0, s.len() - 1), k);
        assert(s.subrange(0, s.len() - 1).subrange(0, k) =~= s.subrange(0, k));
    } else {
        assert(s.subrange(0, k) =~= s);
    }
}

proof fn lemma_no_dot_before_dot(s: Seq<char>)
    requires
        forall|j: int| 0 <= j < s.len() ==> s[j] != '.',
    ensures
        spec_before_last_dot(s) == Seq::<char>::empty(),
    decreases s.len(),
{
    if s.len() > 0 {
        lemma_no_dot_before_dot(s.drop_last());
    }
}

/// The stem of a file name: the name with everything from the last dot
/// onward removed, or the name itself where that would leave nothing.
pub fn file_stem_of(name: &str) -> (r: String)
    ensures
        r@ == spec_file_stem(name@),
{
    let n: usize = name.unicode_len();
    let mut i: usize = n;
    while i > 0
        invariant
            0 <= i <= n,
            n == name@.len(),
            forall|j: int| i <= j < n ==> name@[j] != '.',
        decreases i,
    {
        let c = name.get_char(i - 1);
        if c == '.' {
            proof {
                lemma_before_dot_of_dotless_suffix(name@, i as int);
                assert(name@.subrange(0, i as int).drop_last() =~= name@.subrange(
                    0,
                    i as int - 1,
                ));
            }
            if i == 1 {
                return name.to_owned();
            }
            let s = name.substring_char(0, i - 1);
            return s.to_owned();
        }
        i -= 1;
    }
    proof {
        lemma_no_dot_before_dot(name@);
    }
    name.to_owned()
}

/// The name the simulator addresses the artifact by: the stem of the
/// artifact's file name, or a conventional default where the name has no
/// stem at all.
pub open spec fn spec_located_name(artifact: Seq<char>) -> Seq<char> {
    if spec_file_stem(spec_file_part(artifact)).len() == 0 {
        "lending_program"@
    } else {
        spec_file_stem(spec_file_part(artifact))
    }
}

/// What the locator's result must look like for a given scan.
pub open spec fn spec_locate_post(
    scan: RepoScan,
    r: Result<ProgramArtifact, ProgramLoadError>,
) -> bool {
    &&& !scan.repo_exists ==> (r matches Err(ProgramLoadError::RepoNotFound(p)) && p@
        == scan.repo_path@)
    &&& scan.repo_exists && scan.artifact_path is None ==> (r matches Err(
        ProgramLoadError::ProgramNotBuilt(p),
    ) && p@ == scan.repo_path@)
    &&& scan.repo_exists && scan.artifact_path is Some && !spec_has_slash(scan.artifact_path->0@)
        ==> (r matches Err(ProgramLoadError::ProgramDirNotFound(p)) && p@
        == scan.artifact_path->0@)
    &&& scan.repo_exists && scan.artifact_path is Some && spec_has_slash(scan.artifact_path->0@)
        && scan.declared_identity is None ==> (r matches Err(ProgramLoadError::ProgramNotBuilt(p))
        && p@ == scan.repo_path@)
    &&& scan.repo_exists && scan.artifact_path is Some && spec_has_slash(scan.artifact_path->0@)
        && scan.declared_identity is Some ==> (r matches Ok(art) && art.path@
        == scan.artifact_path->0@ && art.program_dir@ == spec_dir_part(scan.artifact_path->0@)
        && art.program_name@ == spec_located_name(scan.artifact_path->0@) && art.identity
        == scan.declared_identity->0)
}

/// Resolve the learner's compiled artifact from a repository scan.
///
/// Fails with `RepoNotFound` where the repository does not exist, with
/// `ProgramNotBuilt` where no compiled binary (or no declared identity)
/// is present, and with `ProgramDirNotFound` where the artifact's
/// containing directory cannot be resolved.
pub fn locate(scan: &RepoScan) -> (r: Result<ProgramArtifact, ProgramLoadError>)
    ensures
        spec_locate_post(*scan, r),
{
    if !scan.repo_exists {
        return Err(ProgramLoadError::RepoNotFound(scan.repo_path.clone()));
    }
    let artifact = match &scan.artifact_path {
        None => {
            return Err(ProgramLoadError::ProgramNotBuilt(scan.repo_path.clone()));
        },
        Some(a) => a,
    };
    let dir = match parent_dir(artifact.as_str()) {
        None => {
            return Err(ProgramLoadError::ProgramDirNotFound(artifact.clone()));
        },
        Some(d) => d,
    };
    let identity = match &scan.declared_identity {
        None => {
            return Err(ProgramLoadError::ProgramNotBuilt(scan.repo_path.clone()));
        },
        Some(id) => *id,
    };
    let fname = file_part(artifact.as_str());
    let stem = file_stem_of(fname.as_str());
    let program_name = if stem.unicode_len() == 0 {
        String::from_str("lending_program")
    } else {
        stem
    };
    Ok(ProgramArtifact { path: artifact.clone(), program_dir: dir, program_name, identity })
}

/// What extracting just the identity must look like for a given scan.
pub open spec fn spec_locate_identity_post(
    scan: RepoScan,
    r: Result<Identity, ProgramLoadError>,
) -> bool {
    &&& !scan.repo_exists ==> (r matches Err(ProgramLoadError::RepoNotFound(p)) && p@
        == scan.repo_path@)
    &&& scan.repo_exists && scan.declared_identity is None ==> (r matches Err(
        ProgramLoadError::ProgramNotBuilt(p),
    ) && p@ == scan.repo_path@)
    &&& scan.repo_exists && scan.declared_identity is Some ==> (r matches Ok(id) && id
        == scan.declared_identity->0)
}

/// Extract just the declared on-chain identity, without requiring the
/// binary to be loadable into a simulator.
pub fn locate_identity(scan: &RepoScan) -> (r: Result<Identity, ProgramLoadError>)
    ensures
        spec_locate_identity_post(*scan, r),
{
    if !scan.repo_exists {
        return Err(ProgramLoadError::RepoNotFound(scan.repo_path.clone()));
    }
    match &scan.declared_identity {
        None => Err(ProgramLoadError::ProgramNotBuilt(scan.repo_path.clone())),
        Some(id) => Ok(*id),
    }
}

/// Whether a compiled program is available for testing: the repository
/// exists and holds a compiled binary.
pub fn check_program_available(scan: &RepoScan) -> (r: Result<(), CaseError>)
    ensures
        r is Ok <==> scan.repo_exists && scan.artifact_path is Some,
        !scan.repo_exists ==> (r matches Err(CaseError::Load(ProgramLoadError::RepoNotFound(p)))
            && p@ == scan.repo_path@),
        scan.repo_exists && scan.artifact_path is None ==> (r matches Err(
            CaseError::Load(ProgramLoadError::ProgramNotBuilt(p)),
        ) && p@ == scan.repo_path@),
{
    if !scan.repo_exists {
        return Err(CaseError::Load(ProgramLoadError::RepoNotFound(scan.repo_path.clone())));
    }
    match &scan.artifact_path {
        None => Err(CaseError::Load(ProgramLoadError::ProgramNotBuilt(scan.repo_path.clone()))),
        Some(_) => Ok(()),
    }
}

/// Law: for a repository that exists but holds no compiled artifact, the
/// locator reports an artifact error, and that error is a different
/// variant from the one reporting that the repository itself is missing.
pub proof fn lemma_locate_distinguishes_missing_artifact(
    scan: RepoScan,
    r: Result<ProgramArtifact, ProgramLoadError>,
)
    requires
        spec_locate_post(scan, r),
        scan.repo_exists,
        scan.artifact_path is None,
    ensures
        r is Err,
        r->Err_0 is ProgramNotBuilt,
        !(r->Err_0 is RepoNotFound),
{
}

} // verus!
