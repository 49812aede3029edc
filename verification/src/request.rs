//! The deployment request and the plain values fetched from the backend.

use vstd::prelude::*;

verus! {

/// A deployment creation/update intent. Optional fields left unset by the
/// caller are filled in by the resolver before the request is sent.
#[derive(Clone, Debug)]
pub struct CreateDeployRequest {
    pub commit: Option<String>,
    pub endpoint: Option<String>,
    pub dict_endpoint: Option<String>,
    pub indexer_image_version: Option<String>,
    pub query_image_version: Option<String>,
    pub type_: String,
    pub sub_folder: Option<String>,
}

/// Mathematical view of a request: each string as a sequence of characters.
pub struct ReqView {
    pub commit: Option<Seq<char>>,
    pub endpoint: Option<Seq<char>>,
    pub dict_endpoint: Option<Seq<char>>,
    pub indexer_image_version: Option<Seq<char>>,
    pub query_image_version: Option<Seq<char>>,
    pub type_: Seq<char>,
    pub sub_folder: Option<Seq<char>>,
}

pub open spec fn opt_view(o: Option<String>) -> Option<Seq<char>> {
    match o {
        Some(s) => Some(s@),
        None => None,
    }
}

impl View for CreateDeployRequest {
    type V = ReqView;

    open spec fn view(&self) -> ReqView {
        ReqView {
            commit: opt_view(self.commit),
            endpoint: opt_view(self.endpoint),
            dict_endpoint: opt_view(self.dict_endpoint),
            indexer_image_version: opt_view(self.indexer_image_version),
            query_image_version: opt_view(self.query_image_version),
            type_: self.type_@,
            sub_folder: opt_view(self.sub_folder),
        }
    }
}

/// The commit field carries a value.
pub open spec fn commit_set(r: ReqView) -> bool {
    r.commit is Some
}

/// Both image-version fields carry a value.
pub open spec fn images_set(r: ReqView) -> bool {
    r.query_image_version is Some && r.indexer_image_version is Some
}

/// Commit and both image versions are set: nothing is left to resolve.
pub open spec fn fully_set(r: ReqView) -> bool {
    commit_set(r) && images_set(r)
}

/// One entry of a project's commit history.
#[derive(Clone, Debug)]
pub struct CommitInfo {
    pub sha: String,
}

/// The backend's record of a project, as far as resolution reads it.
#[derive(Clone, Debug)]
pub struct Project {
    pub git_repository: Option<String>,
}

/// The available runtime image versions, one list per image type.
#[derive(Clone, Debug)]
pub struct ImageCatalog {
    pub query: Vec<String>,
    pub indexer: Vec<String>,
}

/// A snapshot of one deployment's sync progress.
#[derive(Clone, Copy, Debug)]
pub struct DeploymentStatus {
    pub total_entities: u64,
    pub target_block: u64,
    pub processing_block: u64,
}

} // verus!
