//! Resolution of the worker executable's location.
//!
//! Development deployments use a fixed relative path to the worker's source
//! script, trusted without a filesystem check. Packaged deployments try an
//! ordered list of candidate paths — the resource-resolution API's answer,
//! the resource directory, a `resources` directory beside the executable,
//! and the executable's own directory — and the first candidate that exists
//! on disk wins. Candidate construction and selection are pure; the caller
//! supplies which candidates exist, so resolution itself performs no
//! filesystem access. Any verbatim-path marker (the extended-length prefix
//! some platforms produce) is stripped from a candidate before it is used,
//! because process-spawn interfaces mishandle it.

use vstd::prelude::*;

use crate::errors::CoreError;
use crate::text::{append_bytes, slice_starts_with, starts_with};
use vstd::string::StrSliceExecFns;
use vstd::string::StringSliceAdditionalSpecFns;

verus! {

/// How the application is deployed, which decides how the worker is found.
#[derive(Debug, Clone, Copy, PartialEq, Eq)]
pub enum DeployMode {
    /// A development checkout: the worker runs from its source script.
    Development,
    /// A packaged installation: the worker is a bundled executable.
    Packaged,
}

/// The file name of the packaged worker executable.
pub open spec fn worker_file_name() -> Seq<u8> {
    "tracker.exe".spec_bytes()
}

/// The fixed relative path of the worker's source script, used by
/// development deployments.
pub open spec fn dev_worker_path_spec() -> Seq<u8> {
    "../python/tracker.py".spec_bytes()
}

/// The verbatim-path marker that must be stripped before a path is checked
/// or handed to a spawn interface.
pub open spec fn verbatim_prefix() -> Seq<u8> {
    "\\\\?\\".spec_bytes()
}

/// The user-facing text of a failed resolution, naming the expected file.
pub open spec fn worker_not_found_text() -> Seq<u8> {
    "tracker.exe not found; check that the application is completely installed".spec_bytes()
}

/// `p` with a leading verbatim-path marker stripped, unchanged otherwise.
pub open spec fn normalize_spec(p: Seq<u8>) -> Seq<u8> {
    if starts_with(p, verbatim_prefix()) {
        p.subrange(verbatim_prefix().len() as int, p.len() as int)
    } else {
        p
    }
}

/// `dir` and `name` joined by a path separator.
pub open spec fn join_spec(dir: Seq<u8>, name: Seq<u8>) -> Seq<u8> {
    dir + "/".spec_bytes() + name
}

/// The ordered candidate paths of a packaged deployment, each normalized:
/// the resource-resolution API's answer, the worker file inside the
/// resource directory, the worker file inside `resources` beside the
/// executable, and the worker file beside the executable.
pub open spec fn packaged_candidates_spec(
    resource_path: Option<Seq<u8>>,
    resource_dir: Option<Seq<u8>>,
    exe_dir: Option<Seq<u8>>,
) -> Seq<Seq<u8>> {
    (match resource_path {
        Some(p) => seq![normalize_spec(p)],
        None => Seq::empty(),
    }) + (match resource_dir {
        Some(d) => seq![normalize_spec(join_spec(d, worker_file_name()))],
        None => Seq::empty(),
    }) + (match exe_dir {
        Some(e) => seq![
            normalize_spec(join_spec(join_spec(e, "resources".spec_bytes()), worker_file_name())),
            normalize_spec(join_spec(e, worker_file_name())),
        ],
        None => Seq::empty(),
    })
}

/// What resolution yields: development mode trusts the fixed script path
/// without a filesystem check; packaged mode takes the first existing
/// candidate.
pub open spec fn resolution_spec(mode: DeployMode, cs: Seq<Seq<u8>>, ex: Seq<bool>) -> Option<
    Seq<u8>,
> {
    match mode {
        DeployMode::Development => Some(dev_worker_path_spec()),
        DeployMode::Packaged => first_existing(cs, ex),
    }
}

/// The first candidate marked as existing, in order; `None` when none is.
pub open spec fn first_existing(cs: Seq<Seq<u8>>, ex: Seq<bool>) -> Option<Seq<u8>>
    decreases cs.len(),
{
    if cs.len() == 0 {
        None
    } else if ex[0] {
        Some(cs[0])
    } else {
        first_existing(cs.drop_first(), ex.drop_first())
    }
}

/// The fixed relative path of the worker's source script.
pub fn dev_worker_path() -> (r: Vec<u8>)
    ensures
        r@ == dev_worker_path_spec(),
{
    "../python/tracker.py".as_bytes_vec()
}

/// `p` with a leading verbatim-path marker stripped, unchanged otherwise.
pub fn normalize_path(p: &[u8]) -> (r: Vec<u8>)
    ensures
        r@ == normalize_spec(p@),
{
    let marker = "\\\\?\\".as_bytes_vec();
    let mut r: Vec<u8> = Vec::new();
    if slice_starts_with(p, marker.as_slice()) {
        append_bytes(&mut r, &p[marker.len()..p.len()]);
    } else {
        append_bytes(&mut r, p);
    }
    proof {
        assert(Seq::<u8>::empty() + normalize_spec(p@) =~= normalize_spec(p@));
    }
    r
}

/// `dir` and `name` joined by a path separator.
pub fn join_path(dir: &[u8], name: &[u8]) -> (r: Vec<u8>)
    ensures
        r@ == join_spec(dir@, name@),
{
    let sep = "/".as_bytes_vec();
    let mut r: Vec<u8> = Vec::new();
    append_bytes(&mut r, dir);
    append_bytes(&mut r, sep.as_slice());
    append_bytes(&mut r, name);
    proof {
        assert(r@ =~= join_spec(dir@, name@));
    }
    r
}

/// The ordered, normalized candidate paths of a packaged deployment.
#[verifier::rlimit(50)]
pub fn packaged_candidates(
    resource_path: Option<Vec<u8>>,
    resource_dir: Option<Vec<u8>>,
    exe_dir: Option<Vec<u8>>,
) -> (r: Vec<Vec<u8>>)
    ensures
        r.deep_view() == packaged_candidates_spec(
            resource_path.deep_view(),
            resource_dir.deep_view(),
            exe_dir.deep_view(),
        ),
{
    let worker = "tracker.exe".as_bytes_vec();
    let mut r: Vec<Vec<u8>> = Vec::new();
    match &resource_path {
        Some(p) => {
            r.push(normalize_path(p.as_slice()));
        },
        None => {},
    }
    match &resource_dir {
        Some(d) => {
            let joined = join_path(d.as_slice(), worker.as_slice());
            r.push(normalize_path(joined.as_slice()));
        },
        None => {},
    }
    match &exe_dir {
        Some(e) => {
            let resources = "resources".as_bytes_vec();
            let sub = join_path(e.as_slice(), resources.as_slice());
            let inner = join_path(sub.as_slice(), worker.as_slice());
            r.push(normalize_path(inner.as_slice()));
            let beside = join_path(e.as_slice(), worker.as_slice());
            r.push(normalize_path(beside.as_slice()));
        },
        None => {},
    }
    proof {
        assert(r.deep_view() =~~= packaged_candidates_spec(
            resource_path.deep_view(),
            resource_dir.deep_view(),
            exe_dir.deep_view(),
        ));
    }
    r
}

/// Picks the first candidate that exists on disk; `exists` gives, for each
/// candidate in order, whether it does. Fails with `WorkerNotFound`, naming
/// the expected file, when none exists. Resolution is deterministic and
/// mutates nothing.
pub fn pick_existing(candidates: &Vec<Vec<u8>>, exists: &Vec<bool>) -> (r: Result<
    Vec<u8>,
    CoreError,
>)
    requires
        candidates@.len() == exists@.len(),
    ensures
        r is Ok <==> first_existing(candidates.deep_view(), exists@) is Some,
        r matches Ok(p) ==> Some(p@) == first_existing(candidates.deep_view(), exists@),
        r matches Err(e) ==> (e matches CoreError::WorkerNotFound { message } && message@
            == worker_not_found_text()),
{
    let ghost cs = candidates.deep_view();
    let ghost ex = exists@;
    proof {
        assert(cs.subrange(0, cs.len() as int) =~= cs);
        assert(ex.subrange(0, ex.len() as int) =~= ex);
    }
    let mut i: usize = 0;
    while i < candidates.len()
        invariant
            0 <= i <= cs.len(),
            cs.len() == ex.len(),
            cs == candidates.deep_view(),
            ex == exists@,
            first_existing(cs, ex) == first_existing(
                cs.subrange(i as int, cs.len() as int),
                ex.subrange(i as int, ex.len() as int),
            ),
        decreases cs.len() - i,
    {
        proof {
            let cs_tail = cs.subrange(i as int, cs.len() as int);
            let ex_tail = ex.subrange(i as int, ex.len() as int);
            assert(cs_tail.drop_first() =~= cs.subrange(i + 1 as int, cs.len() as int));
            assert(ex_tail.drop_first() =~= ex.subrange(i + 1 as int, ex.len() as int));
        }
        if exists[i] {
            let mut found: Vec<u8> = Vec::new();
            append_bytes(&mut found, candidates[i].as_slice());
            proof {
                assert(found@ =~= cs[i as int]);
            }
            return Ok(found);
        }
        i += 1;
    }
    proof {
        assert(first_existing(
            cs.subrange(cs.len() as int, cs.len() as int),
            ex.subrange(ex.len() as int, ex.len() as int),
        ) is None);
    }
    Err(
        CoreError::WorkerNotFound {
            message: "tracker.exe not found; check that the application is completely installed".as_bytes_vec(),
        },
    )
}

/// Resolves the worker's location for a deployment mode: the fixed script
/// path in development, the first existing candidate in a packaged
/// installation, and `WorkerNotFound` when a packaged installation has none.
pub fn resolve_worker_path(mode: DeployMode, candidates: &Vec<Vec<u8>>, exists: &Vec<bool>) -> (r:
    Result<Vec<u8>, CoreError>)
    requires
        candidates@.len() == exists@.len(),
    ensures
        r is Ok <==> resolution_spec(mode, candidates.deep_view(), exists@) is Some,
        r matches Ok(p) ==> Some(p@) == resolution_spec(mode, candidates.deep_view(), exists@),
        r matches Err(e) ==> (e matches CoreError::WorkerNotFound { message } && message@
            == worker_not_found_text()),
{
    match mode {
        DeployMode::Development => Ok(dev_worker_path()),
        DeployMode::Packaged => pick_existing(candidates, exists),
    }
}

} // verus!
