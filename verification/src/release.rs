//! Release records and the rule that turns a remote release listing into the
//! list of downloadable assets a repository cares about.

use vstd::prelude::*;
use vstd::string::StringExecFns;
use crate::pattern::{
    compile_pattern, compiled_pattern, describe_pattern_error, filter_accepts, pattern_compiles,
    regex_accepts, regex_error_text,
};
use crate::text::same_text;

verus! {

/// A configured release source and the pattern that selects its assets.
#[derive(Debug, PartialEq, Eq)]
pub struct Repository {
    pub name: String,
    pub owner: String,
    pub description: String,
    pub asset_filter: String,
}

/// One downloadable asset of one release.
#[derive(Debug, PartialEq, Eq)]
pub struct Release {
    pub name: String,
    pub tag_name: String,
    pub browser_download_url: String,
}

/// An asset as the remote listing reports it.
#[derive(Debug, PartialEq, Eq)]
pub struct GithubAsset {
    pub name: String,
    pub browser_download_url: String,
}

/// A release as the remote listing reports it.
#[derive(Debug, PartialEq, Eq)]
pub struct GithubRelease {
    pub tag_name: String,
    pub assets: Vec<GithubAsset>,
}

/// The mathematical value of a [`Release`].
pub ghost struct ReleaseView {
    pub name: Seq<char>,
    pub tag_name: Seq<char>,
    pub browser_download_url: Seq<char>,
}

impl View for Release {
    type V = ReleaseView;

    open spec fn view(&self) -> ReleaseView {
        ReleaseView {
            name: self.name@,
            tag_name: self.tag_name@,
            browser_download_url: self.browser_download_url@,
        }
    }
}

impl DeepView for Release {
    type V = ReleaseView;

    open spec fn deep_view(&self) -> ReleaseView {
        self@
    }
}

impl Clone for Release {
    fn clone(&self) -> (copy: Release)
        ensures
            copy@ == self@,
    {
        Release {
            name: self.name.clone(),
            tag_name: self.tag_name.clone(),
            browser_download_url: self.browser_download_url.clone(),
        }
    }
}

/// The mathematical value of a [`Repository`].
pub ghost struct RepositoryView {
    pub name: Seq<char>,
    pub owner: Seq<char>,
    pub description: Seq<char>,
    pub asset_filter: Seq<char>,
}

impl View for Repository {
    type V = RepositoryView;

    open spec fn view(&self) -> RepositoryView {
        RepositoryView {
            name: self.name@,
            owner: self.owner@,
            description: self.description@,
            asset_filter: self.asset_filter@,
        }
    }
}

impl DeepView for Repository {
    type V = RepositoryView;

    open spec fn deep_view(&self) -> RepositoryView {
        self@
    }
}

impl Clone for Repository {
    fn clone(&self) -> (copy: Repository)
        ensures
            copy@ == self@,
    {
        Repository {
            name: self.name.clone(),
            owner: self.owner.clone(),
            description: self.description.clone(),
            asset_filter: self.asset_filter.clone(),
        }
    }
}

/// A copy of a list of releases, equal to it by value.
pub fn copy_releases(releases: &Vec<Release>) -> (copy: Vec<Release>)
    ensures
        copy.deep_view() == releases.deep_view(),
{
    let mut copy: Vec<Release> = Vec::new();
    let mut i: usize = 0;
    while i < releases.len()
        invariant
            i <= releases.len(),
            copy.len() == i,
            forall|k: int| 0 <= k < i ==> copy[k]@ == releases[k]@,
        decreases releases.len() - i,
    {
        copy.push(releases[i].clone());
        i += 1;
    }
    assert(copy.deep_view() =~= releases.deep_view());
    copy
}

/// A copy of a list of repositories, equal to it by value.
pub fn copy_repositories(repositories: &Vec<Repository>) -> (copy: Vec<Repository>)
    ensures
        copy.deep_view() == repositories.deep_view(),
{
    let mut copy: Vec<Repository> = Vec::new();
    let mut i: usize = 0;
    while i < repositories.len()
        invariant
            i <= repositories.len(),
            copy.len() == i,
            forall|k: int| 0 <= k < i ==> copy[k]@ == repositories[k]@,
        decreases repositories.len() - i,
    {
        copy.push(repositories[i].clone());
        i += 1;
    }
    assert(copy.deep_view() =~= repositories.deep_view());
    copy
}

/// The record that an asset of a release tagged `tag` gives rise to.
pub open spec fn release_of(tag: Seq<char>, asset: GithubAsset) -> ReleaseView {
    ReleaseView {
        name: asset.name@,
        tag_name: tag,
        browser_download_url: asset.browser_download_url@,
    }
}

/// The assets of one release whose names `filter` accepts, in listing order.
pub open spec fn matching_assets(
    tag: Seq<char>,
    assets: Seq<GithubAsset>,
    filter: regex::Regex,
) -> Seq<ReleaseView>
    decreases assets.len(),
{
    if assets.len() == 0 {
        Seq::empty()
    } else {
        let earlier = matching_assets(tag, assets.drop_last(), filter);
        if regex_accepts(filter, assets.last().name@) {
            earlier.push(release_of(tag, assets.last()))
        } else {
            earlier
        }
    }
}

/// Every accepted asset of every release: releases in listing order, and
/// inside a release its assets in listing order. Nothing is merged.
pub open spec fn matching_releases(releases: Seq<GithubRelease>, filter: regex::Regex) -> Seq<
    ReleaseView,
>
    decreases releases.len(),
{
    if releases.len() == 0 {
        Seq::empty()
    } else {
        matching_releases(releases.drop_last(), filter) + matching_assets(
            releases.last().tag_name@,
            releases.last().assets@,
            filter,
        )
    }
}

/// The selection from a listing is the selection from its first part
/// followed by the selection from the rest: releases are taken one by one,
/// in order, and none influences another.
pub proof fn lemma_matching_releases_concat(
    first: Seq<GithubRelease>,
    rest: Seq<GithubRelease>,
    filter: regex::Regex,
)
    ensures
        matching_releases(first + rest, filter) == matching_releases(first, filter)
            + matching_releases(rest, filter),
    decreases rest.len(),
{
    if rest.len() == 0 {
        assert(first + rest =~= first);
        assert(matching_releases(first, filter) + matching_releases(rest, filter)
            =~= matching_releases(first, filter));
    } else {
        lemma_matching_releases_concat(first, rest.drop_last(), filter);
        assert((first + rest).drop_last() =~= first + rest.drop_last());
        assert((first + rest).last() == rest.last());
        assert(matching_releases(first + rest, filter) =~= matching_releases(first, filter)
            + matching_releases(rest, filter));
    }
}

/// Every selected record stems from an asset whose name the filter
/// accepts, and carries the tag of that asset's release.
pub proof fn lemma_matching_assets_are_accepted(
    tag: Seq<char>,
    assets: Seq<GithubAsset>,
    filter: regex::Regex,
    i: int,
)
    requires
        0 <= i < matching_assets(tag, assets, filter).len(),
    ensures
        matching_assets(tag, assets, filter)[i].tag_name == tag,
        regex_accepts(filter, matching_assets(tag, assets, filter)[i].name),
    decreases assets.len(),
{
    if assets.len() > 0 {
        let earlier = matching_assets(tag, assets.drop_last(), filter);
        if i < earlier.len() {
            lemma_matching_assets_are_accepted(tag, assets.drop_last(), filter, i);
        }
    }
}

/// Selects from `releases` the assets that `filter` accepts.
pub fn select_releases(releases: &Vec<GithubRelease>, filter: &regex::Regex) -> (selected: Vec<
    Release,
>)
    ensures
        selected.deep_view() == matching_releases(releases@, *filter),
{
    let mut selected: Vec<Release> = Vec::new();
    let mut i: usize = 0;
    assert(selected.deep_view() =~= Seq::<ReleaseView>::empty());
    while i < releases.len()
        invariant
            i <= releases.len(),
            selected.deep_view() == matching_releases(releases@.take(i as int), *filter),
        decreases releases.len() - i,
    {
        let release = &releases[i];
        let ghost done = selected.deep_view();
        let ghost tag = release.tag_name@;
        let mut j: usize = 0;
        assert(release.assets@.take(0) =~= Seq::<GithubAsset>::empty());
        assert(selected.deep_view() =~= done + matching_assets(
            tag,
            release.assets@.take(0),
            *filter,
        ));
        while j < release.assets.len()
            invariant
                j <= release.assets.len(),
                i < releases.len(),
                release == &releases[i as int],
                tag == release.tag_name@,
                selected.deep_view() == done + matching_assets(
                    tag,
                    release.assets@.take(j as int),
                    *filter,
                ),
            decreases release.assets.len() - j,
        {
            let asset = &release.assets[j];
            let ghost before = selected.deep_view();
            assert(release.assets@.take(j + 1).drop_last() =~= release.assets@.take(j as int));
            assert(release.assets@.take(j + 1).last() == *asset);
            if filter_accepts(filter, asset.name.as_str()) {
                selected.push(
                    Release {
                        name: asset.name.clone(),
                        tag_name: release.tag_name.clone(),
                        browser_download_url: asset.browser_download_url.clone(),
                    },
                );
                assert(selected.deep_view() =~= before.push(release_of(tag, *asset)));
                assert(selected.deep_view() =~= done + matching_assets(
                    tag,
                    release.assets@.take(j + 1),
                    *filter,
                ));
            }
            j += 1;
        }
        assert(release.assets@.take(j as int) =~= release.assets@);
        assert(releases@.take(i + 1).drop_last() =~= releases@.take(i as int));
        assert(releases@.take(i + 1).last() == *release);
        i += 1;
    }
    assert(releases@.take(i as int) =~= releases@);
    selected
}

/// Why a release listing could not be produced.
#[derive(Debug, PartialEq, Eq)]
pub enum LookupError {
    /// No configured repository has the requested name.
    RepositoryNotFound,
    /// The repository's asset filter is not a pattern that compiles; the
    /// text is the compiler's explanation.
    InvalidFilter(String),
    /// The bundled configuration could not be read; the text says why.
    ConfigError(String),
    /// The remote listing could not be fetched or understood.
    RemoteFailed(String),
}

impl LookupError {
    /// What [`LookupError::message`] yields.
    pub open spec fn message_text(self) -> Seq<char> {
        match self {
            LookupError::RepositoryNotFound => "Repository not found"@,
            LookupError::InvalidFilter(detail) => "Invalid asset filter regex: "@ + detail@,
            LookupError::ConfigError(detail) => "Failed to parse config: "@ + detail@,
            LookupError::RemoteFailed(detail) => detail@,
        }
    }

    /// The text shown to the user for this error.
    pub fn message(&self) -> (text: String)
        ensures
            text@ == self.message_text(),
    {
        match self {
            LookupError::RepositoryNotFound => String::from_str("Repository not found"),
            LookupError::InvalidFilter(detail) => String::from_str(
                "Invalid asset filter regex: ",
            ).concat(detail.as_str()),
            LookupError::ConfigError(detail) => String::from_str("Failed to parse config: ").concat(
                detail.as_str(),
            ),
            LookupError::RemoteFailed(detail) => detail.clone(),
        }
    }
}

/// Resolves `name` against the configured repositories: the first one with
/// that name, or `RepositoryNotFound` when none has it.
pub fn find_repository<'a>(repositories: &'a Vec<Repository>, name: &str) -> (found: Result<
    &'a Repository,
    LookupError,
>)
    ensures
        match found {
            Ok(repository) => exists|i: int|
                0 <= i < repositories.len() && *repository == repositories[i]
                    && repositories[i].name@ == name@ && forall|k: int|
                    0 <= k < i ==> repositories[k].name@ != name@,
            Err(error) => error == LookupError::RepositoryNotFound && forall|i: int|
                0 <= i < repositories.len() ==> repositories[i].name@ != name@,
        },
{
    let mut i: usize = 0;
    while i < repositories.len()
        invariant
            i <= repositories.len(),
            forall|k: int| 0 <= k < i ==> repositories[k].name@ != name@,
        decreases repositories.len() - i,
    {
        if same_text(repositories[i].name.as_str(), name) {
            return Ok(&repositories[i]);
        }
        i += 1;
    }
    Err(LookupError::RepositoryNotFound)
}

/// The address of the remote listing of a repository's releases.
pub open spec fn releases_url_text(owner: Seq<char>, name: Seq<char>) -> Seq<char> {
    "https://api.github.com/repos/"@ + owner + "/"@ + name + "/releases"@
}

/// Builds the address that lists the releases of `repository`.
pub fn releases_url(repository: &Repository) -> (url: String)
    ensures
        url@ == releases_url_text(repository.owner@, repository.name@),
{
    let mut url = String::from_str("https://api.github.com/repos/");
    url.append(repository.owner.as_str());
    url.append("/");
    url.append(repository.name.as_str());
    url.append("/releases");
    url
}

/// The value of the identifying header that the remote listing requires.
pub fn user_agent() -> (agent: &'static str)
    ensures
        agent@ == "boxupdater"@,
{
    "boxupdater"
}

/// Turns the remote listing of `repository` into its release records.
/// Where the repository's filter compiles, the records are the assets that
/// it accepts; where it does not, the result is `InvalidFilter` with the
/// compiler's explanation, whatever the listing holds.
pub fn resolve_releases(repository: &Repository, releases: &Vec<GithubRelease>) -> (resolved:
    Result<Vec<Release>, LookupError>)
    ensures
        resolved is Ok <==> pattern_compiles(repository.asset_filter@),
        match compiled_pattern(repository.asset_filter@) {
            Ok(filter) => resolved is Ok && resolved->Ok_0.deep_view() == matching_releases(
                releases@,
                filter,
            ),
            Err(error) => resolved matches Err(LookupError::InvalidFilter(detail)) && detail@
                == regex_error_text(error),
        },
{
    match compile_pattern(repository.asset_filter.as_str()) {
        Ok(filter) => Ok(select_releases(releases, &filter)),
        Err(error) => Err(LookupError::InvalidFilter(describe_pattern_error(&error))),
    }
}

} // verus!
