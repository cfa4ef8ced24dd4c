//! The artifact store: collision-free artifact paths and the removal policy.
//!
//! An artifact is the temporary file that holds one document for printing.
//! The store derives each path from the request identifier, so distinct
//! identifiers never collide, and it reclaims owned artifacts with a removal
//! that swallows "file not found", because a removal may run after the file
//! is already gone.

use vstd::prelude::*;

verus! {

/// A temporary file holding one document for printing.
///
/// Owned artifacts were created by this subsystem from a payload and must
/// eventually be deleted by it; unowned artifacts are caller-supplied paths
/// and are never deleted here.
#[derive(Debug, PartialEq, Eq)]
pub struct Artifact {
    pub path: String,
    pub created_at: u64,
    pub owned: bool,
}

/// The artifact filename derived from a request identifier:
/// `invoice_<identifier>.<extension>`.
pub open spec fn artifact_file_name(identifier: Seq<char>, extension: Seq<char>) -> Seq<char> {
    "invoice_"@ + identifier + "."@ + extension
}

/// The artifact's full path: the dedicated directory, a separator, and the
/// derived filename.
pub open spec fn artifact_path_view(
    dir: Seq<char>,
    identifier: Seq<char>,
    extension: Seq<char>,
) -> Seq<char> {
    dir + "/"@ + artifact_file_name(identifier, extension)
}

/// Builds the artifact path for a request identifier.
pub fn artifact_path(dir: &str, identifier: &str, extension: &str) -> (r: String)
    ensures
        r@ == artifact_path_view(dir@, identifier@, extension@),
{
    let mut path = String::from_str(dir);
    path.append("/");
    path.append("invoice_");
    path.append(identifier);
    path.append(".");
    path.append(extension);
    proof {
        assert(path@ =~= artifact_path_view(dir@, identifier@, extension@));
    }
    path
}

/// Law: within one directory and extension, distinct identifiers derive
/// distinct artifact paths, so concurrent requests with distinct identifiers
/// never collide on the artifact file.
pub proof fn lemma_distinct_identifiers_distinct_paths(
    dir: Seq<char>,
    id1: Seq<char>,
    id2: Seq<char>,
    extension: Seq<char>,
)
    requires
        id1 != id2,
    ensures
        artifact_path_view(dir, id1, extension) != artifact_path_view(dir, id2, extension),
{
    reveal_strlit("/");
    reveal_strlit("invoice_");
    reveal_strlit(".");
    let p1 = artifact_path_view(dir, id1, extension);
    let p2 = artifact_path_view(dir, id2, extension);
    if p1 == p2 {
        // Equal lengths force equal identifier lengths, and then the
        // identifier segments of the two paths coincide index by index.
        let pre = dir.len() + 1 + 8;
        assert(p1.len() == pre + id1.len() + 1 + extension.len());
        assert(p2.len() == pre + id2.len() + 1 + extension.len());
        assert(id1.len() == id2.len());
        assert forall|i: int| 0 <= i < id1.len() implies id1[i] == id2[i] by {
            assert(p1[pre + i] == id1[i]);
            assert(p2[pre + i] == id2[i]);
        }
        assert(id1 =~= id2);
    }
}

/// A ghost model of the artifact directory: each live path mapped to the
/// bytes stored at it.
pub struct StoreModel {
    pub files: Map<Seq<char>, Seq<u8>>,
}

impl StoreModel {
    /// The directory after a payload is written at a path.
    pub open spec fn write(self, path: Seq<char>, payload: Seq<u8>) -> StoreModel {
        StoreModel { files: self.files.insert(path, payload) }
    }

    /// The directory after the file at a path is removed.
    pub open spec fn remove(self, path: Seq<char>) -> StoreModel {
        StoreModel { files: self.files.remove(path) }
    }

    /// What the platform's file removal reports for a path.
    pub open spec fn remove_report(self, path: Seq<char>) -> RemoveReport {
        if self.files.contains_key(path) {
            RemoveReport::Removed
        } else {
            RemoveReport::NotFound
        }
    }
}

/// What a file-removal attempt reported back.
#[derive(Clone, Copy, Debug, PartialEq, Eq)]
pub enum RemoveReport {
    /// The file existed and was deleted.
    Removed,
    /// There was no file at the path; a previous cleanup may already have
    /// run, or the file was never created.
    NotFound,
    /// The platform refused the removal for another reason (for example a
    /// permission error); absorbed without propagating, but not a success.
    Failed,
}

/// The store counts a removal as successful when the file was deleted or was
/// already gone.
pub open spec fn spec_remove_succeeded(report: RemoveReport) -> bool {
    report is Removed || report is NotFound
}

/// The store's reading of a removal report: deletion and "file not found"
/// both count as success, so removal is idempotent; any other failure is
/// absorbed by the detached cleanup task without counting as success.
pub fn remove_succeeded(report: RemoveReport) -> (ok: bool)
    ensures
        ok == spec_remove_succeeded(report),
{
    match report {
        RemoveReport::Removed => true,
        RemoveReport::NotFound => true,
        RemoveReport::Failed => false,
    }
}

/// Law: removing the same artifact twice never raises an error the second
/// time. The first removal leaves the path absent, the second therefore
/// reports "file not found", which the store swallows as success; and the
/// second removal does not change the directory further.
pub proof fn lemma_remove_idempotent(m: StoreModel, path: Seq<char>)
    ensures
        !m.remove(path).files.contains_key(path),
        m.remove(path).remove_report(path) is NotFound,
        spec_remove_succeeded(m.remove(path).remove_report(path)),
        m.remove(path).remove(path).files =~= m.remove(path).files,
{
}

} // verus!
