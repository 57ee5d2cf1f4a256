//! Deterministic resolution of the filesystem layout.
//!
//! Every location the backend depends on is derived from one
//! application-data root. Resolution is a pure function of the root: two
//! calls with the same root yield byte-identical path sets. Paths are kept
//! as strings with `/` separators; the unverified shell converts them to
//! OS paths and performs the (idempotent) directory creation.

use vstd::prelude::*;

verus! {

/// The filesystem locations derived from one application-data root.
#[derive(Debug, Clone)]
pub struct BackendPaths {
    /// The application-data root itself.
    pub data_dir: String,
    /// The directory holding the materialized worker scripts.
    pub backend_dir: String,
    /// The importer worker script inside the backend directory.
    pub importer_path: String,
    /// The persistent store file.
    pub db_path: String,
    /// The accumulated log of worker subprocess output.
    pub log_path: String,
}

/// The mathematical value of a path set: each location as a character
/// sequence.
pub struct PathSetView {
    pub data_dir: Seq<char>,
    pub backend_dir: Seq<char>,
    pub importer_path: Seq<char>,
    pub db_path: Seq<char>,
    pub log_path: Seq<char>,
}

impl View for BackendPaths {
    type V = PathSetView;

    open spec fn view(&self) -> PathSetView {
        PathSetView {
            data_dir: self.data_dir@,
            backend_dir: self.backend_dir@,
            importer_path: self.importer_path@,
            db_path: self.db_path@,
            log_path: self.log_path@,
        }
    }
}

/// The backend directory derived from a data root.
pub open spec fn backend_dir_of(root: Seq<char>) -> Seq<char> {
    root + "/backend"@
}

/// The full path set derived from a data root.
pub open spec fn path_set_of(root: Seq<char>) -> PathSetView {
    PathSetView {
        data_dir: root,
        backend_dir: backend_dir_of(root),
        importer_path: backend_dir_of(root) + "/importer.py"@,
        db_path: root + "/portfolio.db"@,
        log_path: root + "/backend.log"@,
    }
}

/// Derive all backend locations from the application-data root.
pub fn resolve_paths(data_root: &String) -> (r: BackendPaths)
    ensures
        r@ == path_set_of(data_root@),
{
    let data_dir = data_root.clone();
    let mut backend_dir = data_root.clone();
    backend_dir.append("/backend");
    let mut importer_path = backend_dir.clone();
    importer_path.append("/importer.py");
    let mut db_path = data_root.clone();
    db_path.append("/portfolio.db");
    let mut log_path = data_root.clone();
    log_path.append("/backend.log");
    BackendPaths { data_dir, backend_dir, importer_path, db_path, log_path }
}

/// Path resolution is idempotent: any two path sets resolved from the same
/// root are identical in every field.
pub proof fn lemma_path_resolution_idempotent(a: BackendPaths, b: BackendPaths, root: Seq<char>)
    requires
        a@ == path_set_of(root),
        b@ == path_set_of(root),
    ensures
        a@ == b@,
        a.data_dir@ == b.data_dir@,
        a.backend_dir@ == b.backend_dir@,
        a.importer_path@ == b.importer_path@,
        a.db_path@ == b.db_path@,
        a.log_path@ == b.log_path@,
{
}

impl BackendPaths {
    /// The directory holding transient serialized inline-row payloads.
    pub fn payload_dir(&self) -> (r: String)
        ensures
            r@ == self@.backend_dir + "/payloads"@,
    {
        let mut r = self.backend_dir.clone();
        r.append("/payloads");
        r
    }

    /// The log file receiving the backend service's own stdout and stderr.
    pub fn service_log_path(&self) -> (r: String)
        ensures
            r@ == self@.data_dir + "/backend-fastapi.log"@,
    {
        let mut r = self.data_dir.clone();
        r.append("/backend-fastapi.log");
        r
    }
}

/// The on-disk targets of the two embedded worker scripts, in the order
/// (store-schema script, importer script). Rewritten on every preparation
/// call so the on-disk worker always matches the bundled version.
pub fn script_targets(backend_dir: &String) -> (r: (String, String))
    ensures
        r.0@ == backend_dir@ + "/db.py"@,
        r.1@ == backend_dir@ + "/importer.py"@,
{
    let mut db_script = backend_dir.clone();
    db_script.append("/db.py");
    let mut importer_script = backend_dir.clone();
    importer_script.append("/importer.py");
    (db_script, importer_script)
}

} // verus!
