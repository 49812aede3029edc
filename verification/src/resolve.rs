//! Completing a partially-specified deployment request from backend defaults.
//!
//! The resolver is a state machine: it decides which backend lookup is needed
//! next, and the caller (which owns the transport) performs the lookup and
//! hands the plain result back. Each lookup is requested at most once per
//! resolution run.

use vstd::prelude::*;

use crate::error::{ErrView, ImageKind, ResolveError};
use crate::request::{
    commit_set, fully_set, images_set, opt_view, CommitInfo, CreateDeployRequest, ImageCatalog,
    Project, ReqView,
};

verus! {

/// What the caller must do next to advance a resolution run.
#[derive(Clone, Copy, PartialEq, Eq, Structural, Debug)]
pub enum ResolveNext {
    /// Fetch the commit history of the project and branch.
    FetchCommits,
    /// Fetch the project record itself.
    FetchProject,
    /// Fetch the image catalog.
    FetchImage,
    /// The request is fully resolved; take it with `into_request`.
    Done,
    /// Resolution has failed; the error was already returned.
    Failed,
}

/// The resolver's position in a resolution run.
#[derive(Clone, Copy, PartialEq, Eq, Structural, Debug)]
pub enum ResolveState {
    AwaitCommits,
    AwaitProject,
    AwaitImage,
    Resolved,
    Failed,
}

/// Where a run starts: the commit is filled first, then the image versions.
pub open spec fn spec_initial_state(r: ReqView) -> ResolveState {
    if !commit_set(r) {
        ResolveState::AwaitCommits
    } else if !images_set(r) {
        ResolveState::AwaitImage
    } else {
        ResolveState::Resolved
    }
}

/// The action that each state asks of the caller.
pub open spec fn spec_next_of(s: ResolveState) -> ResolveNext {
    match s {
        ResolveState::AwaitCommits => ResolveNext::FetchCommits,
        ResolveState::AwaitProject => ResolveNext::FetchProject,
        ResolveState::AwaitImage => ResolveNext::FetchImage,
        ResolveState::Resolved => ResolveNext::Done,
        ResolveState::Failed => ResolveNext::Failed,
    }
}

/// The request with its commit field set to `sha`.
pub open spec fn spec_with_commit(r: ReqView, sha: Seq<char>) -> ReqView {
    ReqView { commit: Some(sha), ..r }
}

/// Filling the image-version fields from one catalog snapshot: the query
/// image first, then the indexer image, each from element 0 of its list.
pub open spec fn spec_fill_images(r: ReqView, q: Seq<Seq<char>>, ix: Seq<Seq<char>>) -> Result<
    ReqView,
    ImageKind,
> {
    if r.query_image_version is None && q.len() == 0 {
        Err(ImageKind::Query)
    } else {
        let r1 = if r.query_image_version is None {
            ReqView { query_image_version: Some(q[0]), ..r }
        } else {
            r
        };
        if r1.indexer_image_version is None && ix.len() == 0 {
            Err(ImageKind::Indexer)
        } else if r1.indexer_image_version is None {
            Ok(ReqView { indexer_image_version: Some(ix[0]), ..r1 })
        } else {
            Ok(r1)
        }
    }
}

/// The error raised when the commit history is empty: a missing project is a
/// not-found error; an existing project yields the no-commit error naming the
/// project's repository (or an empty placeholder) and the branch.
pub open spec fn spec_project_error(
    key: Seq<char>,
    branch: Seq<char>,
    project: Option<Option<Seq<char>>>,
) -> ErrView {
    match project {
        None => ErrView::ProjectNotFound { key },
        Some(repo) => ErrView::NoCommitAvailable {
            repository: match repo {
                Some(s) => s,
                None => Seq::<char>::empty(),
            },
            branch,
        },
    }
}

/// The outcome of a whole resolution run, given the request and the backend's
/// answers: `commits` is the commit history (shas), `project` the project
/// lookup (`None` when the project does not exist, otherwise its repository
/// field), `q` and `ix` the two image lists.
pub open spec fn spec_resolve(
    r: ReqView,
    key: Seq<char>,
    branch: Seq<char>,
    commits: Seq<Seq<char>>,
    project: Option<Option<Seq<char>>>,
    q: Seq<Seq<char>>,
    ix: Seq<Seq<char>>,
) -> Result<ReqView, ErrView> {
    if !commit_set(r) && commits.len() == 0 {
        Err(spec_project_error(key, branch, project))
    } else {
        let r1 = if commit_set(r) {
            r
        } else {
            spec_with_commit(r, commits[0])
        };
        match spec_fill_images(r1, q, ix) {
            Ok(r2) => Ok(r2),
            Err(kind) => Err(ErrView::NoImageAvailable { kind }),
        }
    }
}

/// The backend fetches, in order, that one resolution run performs. The
/// commit history decides whether the project record is needed; the image
/// catalog is fetched only when an image field is unset, and at most once.
pub open spec fn spec_fetches(r: ReqView, commits: Seq<Seq<char>>) -> Seq<ResolveNext> {
    if commit_set(r) {
        if images_set(r) {
            seq![]
        } else {
            seq![ResolveNext::FetchImage]
        }
    } else if commits.len() == 0 {
        seq![ResolveNext::FetchCommits, ResolveNext::FetchProject]
    } else if images_set(r) {
        seq![ResolveNext::FetchCommits]
    } else {
        seq![ResolveNext::FetchCommits, ResolveNext::FetchImage]
    }
}

/// How often a fetch sequence asks for `a`.
pub open spec fn count_fetches(s: Seq<ResolveNext>, a: ResolveNext) -> nat
    decreases s.len(),
{
    if s.len() == 0 {
        0
    } else {
        (if s[0] == a {
            1nat
        } else {
            0nat
        }) + count_fetches(s.drop_first(), a)
    }
}

/// Mathematical view of a resolver.
pub struct ResolverView {
    pub request: ReqView,
    pub key: Seq<char>,
    pub branch: Seq<char>,
    pub state: ResolveState,
}

/// Resolves a deployment request step by step. The caller performs the fetch
/// that `next` names and hands the result to the matching `on_*` method; when
/// `next` says `Done`, `into_request` yields the completed request.
pub struct Resolver {
    request: CreateDeployRequest,
    key: String,
    branch: String,
    state: ResolveState,
}

impl View for Resolver {
    type V = ResolverView;

    closed spec fn view(&self) -> ResolverView {
        ResolverView {
            request: self.request@,
            key: self.key@,
            branch: self.branch@,
            state: self.state,
        }
    }
}

/// The view of the caller's project-lookup answer.
pub open spec fn spec_project_view(p: Option<Project>) -> Option<Option<Seq<char>>> {
    match p {
        Some(pr) => Some(opt_view(pr.git_repository)),
        None => None,
    }
}

impl Resolver {
    /// A resolver's state always says what is still unset in its request.
    pub open spec fn wf(&self) -> bool {
        &&& (self@.state is Resolved ==> fully_set(self@.request))
        &&& (self@.state is AwaitImage ==> commit_set(self@.request))
        &&& (self@.state is AwaitCommits ==> !commit_set(self@.request))
    }

    /// Starts a resolution run for `request` on the project addressed by
    /// `key` and the given `branch`.
    pub fn new(request: CreateDeployRequest, key: String, branch: String) -> (r: Resolver)
        ensures
            r.wf(),
            r@.request == request@,
            r@.key == key@,
            r@.branch == branch@,
            r@.state == spec_initial_state(request@),
    {
        let state = if request.commit.is_none() {
            ResolveState::AwaitCommits
        } else if request.query_image_version.is_none() || request.indexer_image_version.is_none() {
            ResolveState::AwaitImage
        } else {
            ResolveState::Resolved
        };
        Resolver { request, key, branch, state }
    }

    /// What the caller must do next.
    pub fn next(&self) -> (a: ResolveNext)
        ensures
            a == spec_next_of(self@.state),
    {
        match self.state {
            ResolveState::AwaitCommits => ResolveNext::FetchCommits,
            ResolveState::AwaitProject => ResolveNext::FetchProject,
            ResolveState::AwaitImage => ResolveNext::FetchImage,
            ResolveState::Resolved => ResolveNext::Done,
            ResolveState::Failed => ResolveNext::Failed,
        }
    }

    /// Takes the fetched commit history. A non-empty history fills the commit
    /// field from its first entry; an empty one sends the caller to the
    /// project lookup, which can only end in an error.
    pub fn on_commits(&mut self, commits: &Vec<CommitInfo>) -> (a: ResolveNext)
        requires
            old(self)@.state is AwaitCommits,
            old(self).wf(),
        ensures
            final(self).wf(),
            a == spec_next_of(final(self)@.state),
            final(self)@.key == old(self)@.key,
            final(self)@.branch == old(self)@.branch,
            commits@.len() == 0 ==> final(self)@.request == old(self)@.request && final(self)@.state
                is AwaitProject,
            commits@.len() > 0 ==> final(self)@.request == spec_with_commit(
                old(self)@.request,
                commits@[0].sha@,
            ) && final(self)@.state == spec_initial_state(final(self)@.request),
    {
        if commits.len() == 0 {
            self.state = ResolveState::AwaitProject;
            ResolveNext::FetchProject
        } else {
            self.request.commit = Some(commits[0].sha.clone());
            if self.request.query_image_version.is_none()
                || self.request.indexer_image_version.is_none() {
                self.state = ResolveState::AwaitImage;
                ResolveNext::FetchImage
            } else {
                self.state = ResolveState::Resolved;
                ResolveNext::Done
            }
        }
    }

    /// Takes the project lookup's answer after an empty commit history. This
    /// always ends the run with the error `spec_project_error` describes.
    pub fn on_project(&mut self, project: &Option<Project>) -> (e: ResolveError)
        requires
            old(self)@.state is AwaitProject,
            old(self).wf(),
        ensures
            final(self).wf(),
            final(self)@.state is Failed,
            final(self)@.key == old(self)@.key,
            final(self)@.branch == old(self)@.branch,
            e@ == spec_project_error(old(self)@.key, old(self)@.branch, spec_project_view(*project)),
    {
        self.state = ResolveState::Failed;
        match project {
            None => ResolveError::ProjectNotFound { key: self.key.clone() },
            Some(p) => {
                let repository = match &p.git_repository {
                    Some(s) => s.clone(),
                    None => String::new(),
                };
                ResolveError::NoCommitAvailable { repository, branch: self.branch.clone() }
            },
        }
    }

    /// Takes the fetched image catalog and fills both image-version fields
    /// from the one snapshot, as `spec_fill_images` describes.
    pub fn on_image(&mut self, catalog: &ImageCatalog) -> (res: Result<(), ResolveError>)
        requires
            old(self)@.state is AwaitImage,
            old(self).wf(),
        ensures
            final(self).wf(),
            final(self)@.key == old(self)@.key,
            final(self)@.branch == old(self)@.branch,
            match spec_fill_images(
                old(self)@.request,
                catalog.query.deep_view(),
                catalog.indexer.deep_view(),
            ) {
                Ok(r2) => res is Ok && final(self)@.state is Resolved && final(self)@.request == r2,
                Err(kind) => res matches Err(e) && e@ == (ErrView::NoImageAvailable { kind })
                    && final(self)@.state is Failed,
            },
    {
        proof {
            assert(catalog.query.deep_view().len() == catalog.query@.len());
            assert(catalog.indexer.deep_view().len() == catalog.indexer@.len());
        }
        if self.request.query_image_version.is_none() {
            if catalog.query.len() == 0 {
                self.state = ResolveState::Failed;
                return Err(ResolveError::NoImageAvailable { kind: ImageKind::Query });
            }
            self.request.query_image_version = Some(catalog.query[0].clone());
            proof {
                assert(catalog.query.deep_view()[0] == catalog.query@[0]@);
            }
        }
        if self.request.indexer_image_version.is_none() {
            if catalog.indexer.len() == 0 {
                self.state = ResolveState::Failed;
                return Err(ResolveError::NoImageAvailable { kind: ImageKind::Indexer });
            }
            self.request.indexer_image_version = Some(catalog.indexer[0].clone());
            proof {
                assert(catalog.indexer.deep_view()[0] == catalog.indexer@[0]@);
            }
        }
        self.state = ResolveState::Resolved;
        Ok(())
    }

    /// Hands out the completed request. Every optional field that resolution
    /// owes — the commit and both image versions — is set.
    pub fn into_request(self) -> (r: CreateDeployRequest)
        requires
            self@.state is Resolved,
            self.wf(),
        ensures
            r@ == self@.request,
            fully_set(r@),
    {
        self.request
    }
}

/// Law: `spec_fetches` and `spec_resolve` describe exactly the runs of the
/// machine. From each initial state the machine can be in, the fetches it
/// asks for are the fetch sequence, and the terminal result — `into_request`
/// after `Done`, or the error the failing step returned — is the resolution
/// outcome.
pub proof fn lemma_resolution_run(
    r: ReqView,
    key: Seq<char>,
    branch: Seq<char>,
    shas: Seq<Seq<char>>,
    project: Option<Option<Seq<char>>>,
    q: Seq<Seq<char>>,
    ix: Seq<Seq<char>>,
)
    ensures
        spec_initial_state(r) is Resolved ==> spec_fetches(r, shas) =~= Seq::<ResolveNext>::empty()
            && spec_resolve(r, key, branch, shas, project, q, ix) == Ok::<ReqView, ErrView>(r),
        spec_initial_state(r) is AwaitImage ==> spec_fetches(r, shas) =~= seq![
            ResolveNext::FetchImage,
        ] && spec_resolve(r, key, branch, shas, project, q, ix) == (match spec_fill_images(
            r,
            q,
            ix,
        ) {
            Ok(r2) => Ok::<ReqView, ErrView>(r2),
            Err(kind) => Err::<ReqView, ErrView>(ErrView::NoImageAvailable { kind }),
        }),
        spec_initial_state(r) is AwaitCommits && shas.len() == 0 ==> spec_fetches(r, shas) =~= seq![
            ResolveNext::FetchCommits,
            ResolveNext::FetchProject,
        ] && spec_resolve(r, key, branch, shas, project, q, ix) == Err::<ReqView, ErrView>(
            spec_project_error(key, branch, project),
        ),
        spec_initial_state(r) is AwaitCommits && shas.len() > 0 ==> ({
            let r1 = spec_with_commit(r, shas[0]);
            &&& spec_fetches(r, shas) =~= seq![ResolveNext::FetchCommits] + (
            if spec_initial_state(r1) is AwaitImage {
                seq![ResolveNext::FetchImage]
            } else {
                Seq::<ResolveNext>::empty()
            })
            &&& spec_resolve(r, key, branch, shas, project, q, ix) == (match spec_fill_images(
                r1,
                q,
                ix,
            ) {
                Ok(r2) => Ok::<ReqView, ErrView>(r2),
                Err(kind) => Err::<ReqView, ErrView>(ErrView::NoImageAvailable { kind }),
            })
        }),
{
}

/// Law: a request that already carries a commit and both image versions is
/// resolved without any backend fetch and comes back unchanged.
pub proof fn lemma_fully_set_resolves_unchanged(
    r: ReqView,
    key: Seq<char>,
    branch: Seq<char>,
    commits: Seq<Seq<char>>,
    project: Option<Option<Seq<char>>>,
    q: Seq<Seq<char>>,
    ix: Seq<Seq<char>>,
)
    requires
        fully_set(r),
    ensures
        spec_fetches(r, commits) == Seq::<ResolveNext>::empty(),
        spec_initial_state(r) is Resolved,
        spec_resolve(r, key, branch, commits, project, q, ix) == Ok::<ReqView, ErrView>(r),
{
    assert(spec_fetches(r, commits) =~= Seq::<ResolveNext>::empty());
}

/// Law: no resolution run performs any lookup twice — the commit history,
/// the project record and the image catalog are each fetched at most once.
pub proof fn lemma_no_fetch_is_repeated(r: ReqView, commits: Seq<Seq<char>>, a: ResolveNext)
    ensures
        count_fetches(spec_fetches(r, commits), a) <= 1,
{
    let s = spec_fetches(r, commits);
    let e = Seq::<ResolveNext>::empty();
    assert(count_fetches(e, a) == 0);
    if s.len() == 0 {
        assert(s =~= e);
    } else if s.len() == 1 {
        assert(s.drop_first() =~= e);
        assert(count_fetches(s.drop_first(), a) == 0);
    } else {
        assert(s[0] == ResolveNext::FetchCommits && s[1] != ResolveNext::FetchCommits);
        assert(s.drop_first().len() == 1);
        assert(s.drop_first().drop_first() =~= e);
        assert(count_fetches(s.drop_first().drop_first(), a) == 0);
        assert(count_fetches(s.drop_first(), a) <= 1);
    }
}

/// Law: a run that needs an image field filled — in particular one needing
/// only one of the two — and that gets past the commit step fetches the image
/// catalog exactly once, not once per field.
pub proof fn lemma_image_catalog_fetched_once(r: ReqView, commits: Seq<Seq<char>>)
    requires
        !images_set(r),
        commit_set(r) || commits.len() > 0,
    ensures
        count_fetches(spec_fetches(r, commits), ResolveNext::FetchImage) == 1,
{
    let s = spec_fetches(r, commits);
    let a = ResolveNext::FetchImage;
    let e = Seq::<ResolveNext>::empty();
    assert(count_fetches(e, a) == 0);
    if commit_set(r) {
        assert(s.len() == 1 && s[0] is FetchImage);
        assert(s.drop_first() =~= e);
        assert(count_fetches(s.drop_first(), a) == 0);
    } else {
        assert(s.len() == 2 && s[0] is FetchCommits && s[1] is FetchImage);
        assert(s.drop_first().len() == 1 && s.drop_first()[0] is FetchImage);
        assert(s.drop_first().drop_first() =~= e);
        assert(count_fetches(s.drop_first().drop_first(), a) == 0);
        assert(count_fetches(s.drop_first(), a) == 1);
    }
}

/// Law: an empty commit history with a missing project fails as not-found —
/// never as no-commit-available.
pub proof fn lemma_empty_commits_missing_project(
    r: ReqView,
    key: Seq<char>,
    branch: Seq<char>,
    commits: Seq<Seq<char>>,
    q: Seq<Seq<char>>,
    ix: Seq<Seq<char>>,
)
    requires
        !commit_set(r),
        commits.len() == 0,
    ensures
        spec_resolve(r, key, branch, commits, None, q, ix) == Err::<ReqView, ErrView>(
            ErrView::ProjectNotFound { key },
        ),
{
}

/// Law: an empty commit history with an existing project fails as
/// no-commit-available, and the message names the supplied branch verbatim.
pub proof fn lemma_empty_commits_existing_project(
    r: ReqView,
    key: Seq<char>,
    branch: Seq<char>,
    commits: Seq<Seq<char>>,
    repo: Option<Seq<char>>,
    q: Seq<Seq<char>>,
    ix: Seq<Seq<char>>,
)
    requires
        !commit_set(r),
        commits.len() == 0,
    ensures
        ({
            let repository = match repo {
                Some(s) => s,
                None => Seq::<char>::empty(),
            };
            let e = ErrView::NoCommitAvailable { repository, branch };
            let m = crate::error::spec_message(e);
            &&& spec_resolve(r, key, branch, commits, Some(repo), q, ix) == Err::<
                ReqView,
                ErrView,
            >(e)
            &&& m.len() >= branch.len()
            &&& m.subrange(m.len() - branch.len(), m.len() as int) == branch
        }),
{
    let repository = match repo {
        Some(s) => s,
        None => Seq::<char>::empty(),
    };
    crate::error::lemma_no_commit_message_names_branch(repository, branch);
}

} // verus!
