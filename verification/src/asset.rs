//! The static asset resolver.
//!
//! A request path is resolved in steps. The resolver reads the path lexically
//! and either refuses it or names a path to look at; the caller looks, and
//! hands back what it found; the resolver then settles on a file, on the
//! fallback document or on an error, or names one more path to look at. A
//! path that is simply not there is no error: the fallback document answers.

use vstd::prelude::*;
use vstd::string::StringExecFns;
use crate::decode::{percent_decode, percent_decoded};
use crate::path::{
    climbs_above_root, descend, is_within, join, join_under, join_under_is_within, normalize,
    refused_iff_climbs, split_path, within,
};

verus! {

/// What the caller found at a path it was asked to look at.
#[derive(Debug, PartialEq, Eq)]
pub enum Found {
    /// A regular file; `canonical` is its path with every link followed.
    File { canonical: String },
    /// A directory; `canonical` is its path with every link followed.
    Directory { canonical: String },
    /// Nothing is there.
    Absent,
    /// The filesystem refused or failed; `detail` says how.
    Failed { detail: String },
    /// The filesystem did not answer in time.
    TimedOut,
}

/// What was found, as the contracts speak of it.
pub ghost enum FoundView {
    File { canonical: Seq<char> },
    Directory { canonical: Seq<char> },
    Absent,
    Failed { detail: Seq<char> },
    TimedOut,
}

impl View for Found {
    type V = FoundView;

    open spec fn view(&self) -> FoundView {
        match self {
            Found::File { canonical } => FoundView::File { canonical: canonical@ },
            Found::Directory { canonical } => FoundView::Directory { canonical: canonical@ },
            Found::Absent => FoundView::Absent,
            Found::Failed { detail } => FoundView::Failed { detail: detail@ },
            Found::TimedOut => FoundView::TimedOut,
        }
    }
}

impl Clone for Found {
    fn clone(&self) -> (out: Found)
        ensures
            out == *self,
    {
        match self {
            Found::File { canonical } => Found::File { canonical: canonical.clone() },
            Found::Directory { canonical } => Found::Directory { canonical: canonical.clone() },
            Found::Absent => Found::Absent,
            Found::Failed { detail } => Found::Failed { detail: detail.clone() },
            Found::TimedOut => Found::TimedOut,
        }
    }
}

/// Why a look at a path found no entry to describe.
#[derive(Clone, Copy, Debug, PartialEq, Eq, Structural)]
pub enum LookFailure {
    /// Nothing has that name.
    NotFound,
    /// A name on the way to it belongs to something that is no directory.
    NotADirectory,
    /// Anything else: no permission, a failing device, a path that is no text.
    Other,
}

/// What kind of entry a look at a path found.
#[derive(Clone, Copy, Debug, PartialEq, Eq, Structural)]
pub enum EntryKind {
    File,
    Directory,
    /// A socket, a device, or whatever else is neither of the two.
    Other,
}

/// What is reported of an entry that is neither a file nor a directory.
pub open spec fn unfit_detail() -> Seq<char> {
    "neither a file nor a directory"@
}

/// What a look that failed counts as: a name that leads nowhere is an
/// absence, which is no error; everything else is a failure of the filesystem.
pub open spec fn after_failure(kind: LookFailure, detail: Seq<char>) -> FoundView {
    match kind {
        LookFailure::NotFound | LookFailure::NotADirectory => FoundView::Absent,
        LookFailure::Other => FoundView::Failed { detail },
    }
}

/// What a look that found an entry counts as: a file and a directory as
/// themselves, anything else as a failure.
pub open spec fn after_entry(kind: EntryKind, canonical: Seq<char>) -> FoundView {
    match kind {
        EntryKind::File => FoundView::File { canonical },
        EntryKind::Directory => FoundView::Directory { canonical },
        EntryKind::Other => FoundView::Failed { detail: unfit_detail() },
    }
}

/// Says what a look that failed counts as.
pub fn found_after_failure(kind: LookFailure, detail: String) -> (out: Found)
    ensures
        out@ == after_failure(kind, detail@),
{
    match kind {
        LookFailure::NotFound | LookFailure::NotADirectory => Found::Absent,
        LookFailure::Other => Found::Failed { detail },
    }
}

/// Says what a look that found an entry counts as; `canonical` is the path
/// of the entry with every link followed.
pub fn found_entry(kind: EntryKind, canonical: String) -> (out: Found)
    ensures
        out@ == after_entry(kind, canonical@),
{
    match kind {
        EntryKind::File => Found::File { canonical },
        EntryKind::Directory => Found::Directory { canonical },
        EntryKind::Other => Found::Failed { detail: "neither a file nor a directory".to_owned() },
    }
}

/// What a request path resolves to.
#[derive(Debug, PartialEq, Eq)]
pub enum ResolvedAsset {
    /// The file at this path.
    File(String),
    /// The fallback document, at this path.
    Fallback(String),
}

/// A resolved asset as the contracts speak of it.
pub ghost enum AssetView {
    File(Seq<char>),
    Fallback(Seq<char>),
}

impl View for ResolvedAsset {
    type V = AssetView;

    open spec fn view(&self) -> AssetView {
        match self {
            ResolvedAsset::File(path) => AssetView::File(path@),
            ResolvedAsset::Fallback(path) => AssetView::Fallback(path@),
        }
    }
}

impl Clone for ResolvedAsset {
    fn clone(&self) -> (out: ResolvedAsset)
        ensures
            out == *self,
    {
        match self {
            ResolvedAsset::File(path) => ResolvedAsset::File(path.clone()),
            ResolvedAsset::Fallback(path) => ResolvedAsset::Fallback(path.clone()),
        }
    }
}

/// Why a request path resolves to nothing.
#[derive(Debug, PartialEq, Eq)]
pub enum ResolveError {
    /// The path leads out of the static root.
    PathTraversalDenied,
    /// The filesystem failed, which is not the same as a file being absent.
    IoError(String),
}

/// A resolve error as the contracts speak of it.
pub ghost enum ErrorView {
    PathTraversalDenied,
    IoError(Seq<char>),
}

impl View for ResolveError {
    type V = ErrorView;

    open spec fn view(&self) -> ErrorView {
        match self {
            ResolveError::PathTraversalDenied => ErrorView::PathTraversalDenied,
            ResolveError::IoError(detail) => ErrorView::IoError(detail@),
        }
    }
}

impl Clone for ResolveError {
    fn clone(&self) -> (out: ResolveError)
        ensures
            out == *self,
    {
        match self {
            ResolveError::PathTraversalDenied => ResolveError::PathTraversalDenied,
            ResolveError::IoError(detail) => ResolveError::IoError(detail.clone()),
        }
    }
}

/// Which look the resolver is waiting for.
#[derive(Clone, Copy, Debug, PartialEq, Eq, Structural)]
pub enum Stage {
    /// At the path that the request names.
    Direct,
    /// At the index document of the directory that the request names.
    Index,
}

/// A look that the caller owes the resolver: the path to look at, and where
/// in the resolution its answer belongs.
#[derive(Debug, PartialEq, Eq)]
pub struct Pending {
    path: String,
    stage: Stage,
}

/// An owed look as the contracts speak of it.
pub ghost struct PendingView {
    pub path: Seq<char>,
    pub stage: Stage,
}

impl View for Pending {
    type V = PendingView;

    closed spec fn view(&self) -> PendingView {
        PendingView { path: self.path@, stage: self.stage }
    }
}

impl Pending {
    /// The path to look at.
    pub fn path(&self) -> (out: &str)
        ensures
            out@ == self@.path,
    {
        self.path.as_str()
    }

    pub fn stage(&self) -> (out: Stage)
        ensures
            out == self@.stage,
    {
        self.stage
    }
}

/// Where a resolution stands after a step.
#[derive(Debug, PartialEq, Eq)]
pub enum Resolution {
    /// The caller is to look at a path and come back with what it found.
    Probe(Pending),
    /// Settled on an asset.
    Resolved(ResolvedAsset),
    /// Settled on an error.
    Failed(ResolveError),
}

/// The state of a resolution as the contracts speak of it.
pub ghost enum ResolutionView {
    Probe(PendingView),
    Resolved(AssetView),
    Failed(ErrorView),
}

impl View for Resolution {
    type V = ResolutionView;

    open spec fn view(&self) -> ResolutionView {
        match self {
            Resolution::Probe(pending) => ResolutionView::Probe(pending@),
            Resolution::Resolved(asset) => ResolutionView::Resolved(asset@),
            Resolution::Failed(error) => ResolutionView::Failed(error@),
        }
    }
}

/// The directory that assets are served from and the document that answers
/// for every path that names no file. Both are fixed when the server starts.
#[derive(Debug, PartialEq, Eq)]
pub struct StaticSite {
    root: String,
    fallback: String,
}

impl Clone for StaticSite {
    fn clone(&self) -> (out: StaticSite)
        ensures
            out == *self,
    {
        StaticSite { root: self.root.clone(), fallback: self.fallback.clone() }
    }
}

/// A static site as the contracts speak of it.
pub ghost struct SiteView {
    pub root: Seq<char>,
    pub fallback: Seq<char>,
}

impl View for StaticSite {
    type V = SiteView;

    closed spec fn view(&self) -> SiteView {
        SiteView { root: self.root@, fallback: self.fallback@ }
    }
}

/// The name of the document that answers for a directory.
pub open spec fn index_suffix() -> Seq<char> {
    "/index.html"@
}

/// What is reported of a look that the filesystem did not answer in time.
pub open spec fn timeout_detail() -> Seq<char> {
    "the filesystem did not answer in time"@
}

/// The first step: read the request path, and either refuse it or ask for a
/// look at the path it names beneath the root.
pub open spec fn first_step(site: SiteView, requested: Seq<char>) -> ResolutionView {
    match descend(split_path(requested)) {
        None => ResolutionView::Failed(ErrorView::PathTraversalDenied),
        Some(names) => ResolutionView::Probe(
            PendingView { path: join_under(site.root, names), stage: Stage::Direct },
        ),
    }
}

/// The first step for a request path as it arrived, escapes and all: it is
/// decoded and then read. A path that does not decode names nothing, and
/// what names nothing is answered by the fallback document.
pub open spec fn first_step_raw(site: SiteView, raw: Seq<char>) -> ResolutionView {
    match percent_decoded(raw) {
        Some(requested) => first_step(site, requested),
        None => ResolutionView::Resolved(AssetView::Fallback(site.fallback)),
    }
}

/// A file that was found is served if, links followed, it still lies within the root.
pub open spec fn serve(site: SiteView, canonical: Seq<char>) -> ResolutionView {
    if is_within(site.root, canonical) {
        ResolutionView::Resolved(AssetView::File(canonical))
    } else {
        ResolutionView::Failed(ErrorView::PathTraversalDenied)
    }
}

/// Every later step: what follows from what the caller found.
pub open spec fn next_step(
    site: SiteView,
    pending: PendingView,
    found: FoundView,
) -> ResolutionView {
    match found {
        FoundView::File { canonical } => serve(site, canonical),
        FoundView::Directory { canonical } => match pending.stage {
            Stage::Direct => ResolutionView::Probe(
                PendingView { path: pending.path + index_suffix(), stage: Stage::Index },
            ),
            Stage::Index => ResolutionView::Resolved(AssetView::Fallback(site.fallback)),
        },
        FoundView::Absent => ResolutionView::Resolved(AssetView::Fallback(site.fallback)),
        FoundView::Failed { detail } => ResolutionView::Failed(ErrorView::IoError(detail)),
        FoundView::TimedOut => ResolutionView::Failed(ErrorView::IoError(timeout_detail())),
    }
}

/// What a request path resolves to, given what the filesystem holds: `direct`
/// at the path that the request names, and `index` at the index document
/// beneath it.
pub open spec fn resolution(
    site: SiteView,
    requested: Seq<char>,
    direct: FoundView,
    index: FoundView,
) -> ResolutionView {
    if descend(split_path(requested)) is None {
        ResolutionView::Failed(ErrorView::PathTraversalDenied)
    } else {
        match direct {
            FoundView::File { canonical } => serve(site, canonical),
            FoundView::Directory { canonical } => match index {
                FoundView::File { canonical } => serve(site, canonical),
                FoundView::Directory { canonical } => ResolutionView::Resolved(
                    AssetView::Fallback(site.fallback),
                ),
                FoundView::Absent => ResolutionView::Resolved(AssetView::Fallback(site.fallback)),
                FoundView::Failed { detail } => ResolutionView::Failed(ErrorView::IoError(detail)),
                FoundView::TimedOut => ResolutionView::Failed(
                    ErrorView::IoError(timeout_detail()),
                ),
            },
            FoundView::Absent => ResolutionView::Resolved(AssetView::Fallback(site.fallback)),
            FoundView::Failed { detail } => ResolutionView::Failed(ErrorView::IoError(detail)),
            FoundView::TimedOut => ResolutionView::Failed(ErrorView::IoError(timeout_detail())),
        }
    }
}

/// Where the steps end, the caller having answered each look truthfully.
pub open spec fn run_steps(
    site: SiteView,
    requested: Seq<char>,
    direct: FoundView,
    index: FoundView,
) -> ResolutionView {
    match first_step(site, requested) {
        ResolutionView::Probe(first) => match next_step(site, first, direct) {
            ResolutionView::Probe(second) => next_step(site, second, index),
            settled => settled,
        },
        settled => settled,
    }
}

/// The steps end where the resolution says, after two looks at most: a
/// resolution always settles, on an asset or on an error.
pub proof fn steps_reach_resolution(
    site: SiteView,
    requested: Seq<char>,
    direct: FoundView,
    index: FoundView,
)
    ensures
        run_steps(site, requested, direct, index) == resolution(site, requested, direct, index),
        !(resolution(site, requested, direct, index) is Probe),
        first_step(site, requested) matches ResolutionView::Probe(first) ==> {
            &&& is_within(site.root, first.path)
            &&& next_step(site, first, direct) matches ResolutionView::Probe(second) ==> {
                &&& direct is Directory
                &&& second.path == first.path + index_suffix()
                &&& is_within(site.root, second.path)
            }
        },
{
    match descend(split_path(requested)) {
        Some(names) => {
            let first = join_under(site.root, names);
            let second = first + index_suffix();
            join_under_is_within(site.root, names);
            reveal_strlit("/index.html");
            assert(index_suffix()[0] == '/');
            assert(site.root.is_prefix_of(second));
            if first.len() == site.root.len() {
                assert(second[site.root.len() as int] == index_suffix()[0]);
            } else if first[site.root.len() as int] == '/' {
                assert(second[site.root.len() as int] == first[site.root.len() as int]);
            }
        },
        None => {},
    }
}

/// A path that names a file beneath the root resolves to that file.
pub proof fn existing_file_is_resolved(
    site: SiteView,
    requested: Seq<char>,
    canonical: Seq<char>,
    index: FoundView,
)
    requires
        !climbs_above_root(split_path(requested)),
        is_within(site.root, canonical),
    ensures
        resolution(site, requested, FoundView::File { canonical }, index)
            == ResolutionView::Resolved(AssetView::File(canonical)),
{
    refused_iff_climbs(split_path(requested));
}

/// A path at which nothing is found resolves to the fallback document, and
/// so does a directory that holds no index document.
pub proof fn missing_path_falls_back(
    site: SiteView,
    requested: Seq<char>,
    direct: FoundView,
    index: FoundView,
)
    requires
        !climbs_above_root(split_path(requested)),
        direct is Absent || (direct is Directory && (index is Absent || index is Directory)),
    ensures
        resolution(site, requested, direct, index) == ResolutionView::Resolved(
            AssetView::Fallback(site.fallback),
        ),
{
    refused_iff_climbs(split_path(requested));
}

/// A path that climbs above the root is refused at the first step, whatever
/// the filesystem holds: nothing is looked at on its behalf.
pub proof fn climbing_path_is_denied(
    site: SiteView,
    requested: Seq<char>,
    direct: FoundView,
    index: FoundView,
)
    requires
        climbs_above_root(split_path(requested)),
    ensures
        first_step(site, requested) == ResolutionView::Failed(ErrorView::PathTraversalDenied),
        resolution(site, requested, direct, index) == ResolutionView::Failed(
            ErrorView::PathTraversalDenied,
        ),
{
    refused_iff_climbs(split_path(requested));
}

/// Whatever file a resolution settles on lies within the root, links followed.
pub proof fn resolved_file_is_within_root(
    site: SiteView,
    requested: Seq<char>,
    direct: FoundView,
    index: FoundView,
)
    ensures
        resolution(site, requested, direct, index) matches ResolutionView::Resolved(
            AssetView::File(path),
        ) ==> is_within(site.root, path),
{
}

impl StaticSite {
    /// A site rooted at `root` whose fallback document is at `fallback`. Only
    /// the startup check makes one, once it has seen both.
    pub(crate) fn new(root: String, fallback: String) -> (out: StaticSite)
        ensures
            out@ == (SiteView { root: root@, fallback: fallback@ }),
    {
        StaticSite { root, fallback }
    }

    pub fn root(&self) -> (out: &str)
        ensures
            out@ == self@.root,
    {
        self.root.as_str()
    }

    pub fn fallback(&self) -> (out: &str)
        ensures
            out@ == self@.fallback,
    {
        self.fallback.as_str()
    }

    /// Begins to resolve a request path, which is taken as already
    /// percent-decoded. A path that climbs above the root is refused here,
    /// before anything is looked at.
    pub fn resolve(&self, requested_path: &str) -> (out: Resolution)
        ensures
            out@ == first_step(self@, requested_path@),
    {
        match normalize(requested_path) {
            None => Resolution::Failed(ResolveError::PathTraversalDenied),
            Some(names) => Resolution::Probe(
                Pending { path: join(self.root.as_str(), &names), stage: Stage::Direct },
            ),
        }
    }

    /// Begins to resolve a request path as it arrived: percent-decodes it
    /// and goes on as `resolve` does.
    pub fn resolve_raw(&self, raw_path: &str) -> (out: Resolution)
        ensures
            out@ == first_step_raw(self@, raw_path@),
    {
        match percent_decode(raw_path) {
            Some(requested) => self.resolve(requested.as_str()),
            None => Resolution::Resolved(ResolvedAsset::Fallback(self.fallback.clone())),
        }
    }

    /// Takes the resolution one step on with what the caller found at the
    /// path it was asked to look at.
    pub fn resume(&self, pending: Pending, found: Found) -> (out: Resolution)
        ensures
            out@ == next_step(self@, pending@, found@),
    {
        match found {
            Found::File { canonical } => {
                if within(self.root.as_str(), canonical.as_str()) {
                    Resolution::Resolved(ResolvedAsset::File(canonical))
                } else {
                    Resolution::Failed(ResolveError::PathTraversalDenied)
                }
            },
            Found::Directory { canonical: _ } => match pending.stage {
                Stage::Direct => {
                    let mut path = pending.path;
                    path.append("/index.html");
                    Resolution::Probe(Pending { path, stage: Stage::Index })
                },
                Stage::Index => Resolution::Resolved(
                    ResolvedAsset::Fallback(self.fallback.clone()),
                ),
            },
            Found::Absent => Resolution::Resolved(ResolvedAsset::Fallback(self.fallback.clone())),
            Found::Failed { detail } => Resolution::Failed(ResolveError::IoError(detail)),
            Found::TimedOut => Resolution::Failed(
                ResolveError::IoError("the filesystem did not answer in time".to_owned()),
            ),
        }
    }
}

} // verus!
