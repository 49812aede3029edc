//! Resolution and command errors, with their user-visible messages.

use vstd::prelude::*;

verus! {

/// Which image list a missing default was looked up in.
#[derive(Clone, Copy, PartialEq, Eq, Structural, Debug)]
pub enum ImageKind {
    Query,
    Indexer,
}

/// Why a command failed before anything was sent to the backend, or how an
/// upstream call failed.
#[derive(Clone, Debug)]
pub enum ResolveError {
    /// The project lookup returned no project for the given key.
    ProjectNotFound { key: String },
    /// The commit history is empty although the project exists.
    NoCommitAvailable { repository: String, branch: String },
    /// The image catalog has no entry of the named kind.
    NoImageAvailable { kind: ImageKind },
    /// A backend call itself failed; passed through unchanged.
    Upstream { message: String },
}

/// Mathematical view of an error.
pub enum ErrView {
    ProjectNotFound { key: Seq<char> },
    NoCommitAvailable { repository: Seq<char>, branch: Seq<char> },
    NoImageAvailable { kind: ImageKind },
    Upstream { message: Seq<char> },
}

impl View for ResolveError {
    type V = ErrView;

    open spec fn view(&self) -> ErrView {
        match self {
            ResolveError::ProjectNotFound { key } => ErrView::ProjectNotFound { key: key@ },
            ResolveError::NoCommitAvailable { repository, branch } => ErrView::NoCommitAvailable {
                repository: repository@,
                branch: branch@,
            },
            ResolveError::NoImageAvailable { kind } => ErrView::NoImageAvailable { kind: *kind },
            ResolveError::Upstream { message } => ErrView::Upstream { message: message@ },
        }
    }
}

/// The human-readable message of each error kind.
pub open spec fn spec_message(e: ErrView) -> Seq<char> {
    match e {
        ErrView::ProjectNotFound { key } => "The project "@ + key + " not found"@,
        ErrView::NoCommitAvailable { repository, branch } => "No commit found in git repository "@
            + repository + "#"@ + branch,
        ErrView::NoImageAvailable { kind } => if kind is Query {
            "Not found query image"@
        } else {
            "Not found indexer image"@
        },
        ErrView::Upstream { message } => message,
    }
}

impl ResolveError {
    /// Renders the error for the user.
    pub fn message(&self) -> (m: String)
        ensures
            m@ == spec_message(self@),
    {
        match self {
            ResolveError::ProjectNotFound { key } => {
                let mut m = "The project ".to_owned();
                m.append(key.as_str());
                m.append(" not found");
                proof {
                    assert(m@ =~= spec_message(self@));
                }
                m
            },
            ResolveError::NoCommitAvailable { repository, branch } => {
                let mut m = "No commit found in git repository ".to_owned();
                m.append(repository.as_str());
                m.append("#");
                m.append(branch.as_str());
                proof {
                    assert(m@ =~= spec_message(self@));
                }
                m
            },
            ResolveError::NoImageAvailable { kind } => match kind {
                ImageKind::Query => "Not found query image".to_owned(),
                ImageKind::Indexer => "Not found indexer image".to_owned(),
            },
            ResolveError::Upstream { message } => message.clone(),
        }
    }
}

/// Law: the no-commit message names the branch that was supplied — the branch
/// appears verbatim at the end of the message.
pub proof fn lemma_no_commit_message_names_branch(repository: Seq<char>, branch: Seq<char>)
    ensures
        ({
            let m = spec_message(ErrView::NoCommitAvailable { repository, branch });
            &&& m.len() >= branch.len()
            &&& m.subrange(m.len() - branch.len(), m.len() as int) == branch
        }),
{
    let m = spec_message(ErrView::NoCommitAvailable { repository, branch });
    assert(m.subrange(m.len() - branch.len(), m.len() as int) =~= branch);
}

} // verus!
