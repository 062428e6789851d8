use vstd::prelude::*;

use crate::error::{ErrorView, LauncherError};
use crate::flow::{self, Action, ActionView, Event, Flow, FlowView, Outcome, step};
use crate::listing::mark_installed;
use crate::lookup::{
    first_with,
    is_first_with,
    lemma_first_unique,
    lemma_first_with,
    list_versions,
    normalize_version,
    normalized,
    select,
};
use crate::release::{Asset, Game, Release, ReleaseView, views};

verus! {

/// The view of the outcome of a release lookup.
pub open spec fn lookup_view(r: Result<Release, LauncherError>) -> Result<ReleaseView, ErrorView> {
    match r {
        Ok(rel) => Ok(rel@),
        Err(e) => Err(e@),
    }
}

/// The launcher: it keeps track of the command under way.
pub struct App {
    flow: Flow,
}

impl App {
    /// Where the command under way stands.
    pub closed spec fn state(&self) -> FlowView {
        self.flow@
    }

    /// A launcher with no command under way.
    pub fn new() -> (app: Result<App, LauncherError>)
        ensures
            app matches Ok(a) && a.state() == FlowView::Idle,
    {
        Ok(App { flow: Flow::Idle })
    }

    /// The release that a command works on: the first of `releases` when no
    /// version is requested, else the first whose version is the request
    /// with a `v` put in front where it lacks one.
    pub fn find_version(&self, version: Option<String>, releases: Vec<Release>) -> (found: Result<
        Release,
        LauncherError,
    >)
        ensures
            lookup_view(found) == select(version.deep_view(), views(releases@)),
    {
        let mut pool = releases;
        if pool.len() == 0 {
            return Err(LauncherError::NoReleases);
        }
        match version {
            Some(requested) => {
                let tag = normalize_version(requested.as_str());
                let ghost rs = views(pool@);
                let mut i: usize = 0;
                while i < pool.len()
                    invariant
                        i <= pool.len(),
                        rs == views(pool@),
                        rs == views(releases@),
                        version.deep_view() == Some(requested@),
                        tag@ == normalized(requested@),
                        forall|j: int| 0 <= j < i ==> #[trigger] rs[j].version != tag@,
                    decreases pool.len() - i,
                {
                    if pool[i].version == tag {
                        proof {
                            assert(is_first_with(rs, tag@, i as int));
                            lemma_first_with(rs, tag@);
                            lemma_first_unique(rs, tag@, i as int, first_with(rs, tag@));
                        }
                        let found = pool.swap_remove(i);
                        assert(found@ == rs[i as int]);
                        return Ok(found);
                    }
                    i = i + 1;
                }
                let available = list_versions(&pool);
                Err(LauncherError::VersionNotFound { requested, available })
            },
            None => Ok(pool.swap_remove(0)),
        }
    }
}

impl App {
    /// Starts listing the releases of `game`: first the installed ones are
    /// read.
    pub fn print_releases(&mut self, game: Game) -> (action: Action)
        ensures
            final(self).state() == (FlowView::ListingInstalled { game }),
            action@ == ActionView::ListInstalled(game),
    {
        self.flow = Flow::ListingInstalled { game };
        Action::ListInstalled(game)
    }

    /// Starts installing `version` of `game` (the newest release when no
    /// version is given): first the published releases are fetched.
    pub fn install(&mut self, game: Game, version: Option<String>) -> (action: Action)
        ensures
            final(self).state() == (FlowView::InstallFetching { game, version: version.deep_view() }),
            action@ == ActionView::FetchReleases(game),
    {
        self.flow = Flow::InstallFetching { game, version };
        Action::FetchReleases(game)
    }

    /// Starts uninstalling `version` of `game` (the newest release when no
    /// version is given): first the published releases are fetched.
    pub fn uninstall(&mut self, game: Game, version: Option<String>) -> (action: Action)
        ensures
            final(self).state() == (FlowView::UninstallFetching {
                game,
                version: version.deep_view(),
            }),
            action@ == ActionView::FetchReleases(game),
    {
        self.flow = Flow::UninstallFetching { game, version };
        Action::FetchReleases(game)
    }

    /// Starts launching `version` of `game` (the first installed release
    /// when no version is given): first the installed releases are read.
    pub fn launch(&mut self, game: Game, version: Option<String>) -> (action: Action)
        ensures
            final(self).state() == (FlowView::LaunchListing { game, version: version.deep_view() }),
            action@ == ActionView::ListInstalled(game),
    {
        self.flow = Flow::LaunchListing { game, version };
        Action::ListInstalled(game)
    }

    /// Moves the command under way on by what came of the work it asked
    /// for, and tells what to do next.
    pub fn advance(&mut self, event: Event) -> (action: Action)
        ensures
            (final(self).state(), action@) == step(old(self).state(), event@),
    {
        let mut flow = Flow::Idle;
        std::mem::swap(&mut flow, &mut self.flow);
        let (next, action) = self.next(flow, event);
        self.flow = next;
        action
    }

    fn next(&self, flow: Flow, event: Event) -> (moved: (Flow, Action))
        ensures
            (moved.0@, moved.1@) == step(flow@, event@),
    {
        match flow {
            Flow::Idle => (Flow::Idle, Action::Wait),
            Flow::ListingInstalled { game } => on_listing_installed(game, event),
            Flow::ListingReleases { game, installed } => on_listing_releases(game, installed, event),
            Flow::InstallFetching { game, version } => self.on_install_fetching(game, version, event),
            Flow::InstallResolving { game, version } => on_install_resolving(game, version, event),
            Flow::InstallDownloading { game, version, asset } => on_install_downloading(
                game,
                version,
                asset,
                event,
            ),
            Flow::InstallVerifying { game, version, asset } => on_install_verifying(
                game,
                version,
                asset,
                event,
            ),
            Flow::InstallExtracting { game, version } => on_install_extracting(game, version, event),
            Flow::UninstallFetching { game, version } => self.on_uninstall_fetching(
                game,
                version,
                event,
            ),
            Flow::UninstallChecking { game, version } => on_uninstall_checking(game, version, event),
            Flow::UninstallRemoving { game, version } => on_uninstall_removing(game, version, event),
            Flow::LaunchListing { game, version } => self.on_launch_listing(game, version, event),
            Flow::LaunchStarting { game, version } => on_launch_starting(game, version, event),
        }
    }

    fn on_install_fetching(&self, game: Game, version: Option<String>, event: Event) -> (moved: (
        Flow,
        Action,
    ))
        ensures
            (moved.0@, moved.1@) == flow::on_install_fetching(game, version.deep_view(), event@),
    {
        match event {
            Event::Releases(Ok(rs)) => match self.find_version(version, rs) {
                Ok(release) => {
                    let chosen = release.version.clone();
                    (Flow::InstallResolving { game, version: chosen }, Action::ResolveAsset(release))
                },
                Err(e) => (Flow::Idle, Action::Fail(e)),
            },
            Event::Releases(Err(m)) => fail_with(m),
            _ => (Flow::InstallFetching { game, version }, Action::Wait),
        }
    }

    fn on_uninstall_fetching(&self, game: Game, version: Option<String>, event: Event) -> (moved: (
        Flow,
        Action,
    ))
        ensures
            (moved.0@, moved.1@) == flow::on_uninstall_fetching(game, version.deep_view(), event@),
    {
        match event {
            Event::Releases(Ok(rs)) => match self.find_version(version, rs) {
                Ok(release) => {
                    let chosen = release.version.clone();
                    (
                        Flow::UninstallChecking { game, version: chosen },
                        Action::CheckInstalled { game, version: release.version },
                    )
                },
                Err(e) => (Flow::Idle, Action::Fail(e)),
            },
            Event::Releases(Err(m)) => fail_with(m),
            _ => (Flow::UninstallFetching { game, version }, Action::Wait),
        }
    }

    fn on_launch_listing(&self, game: Game, version: Option<String>, event: Event) -> (moved: (
        Flow,
        Action,
    ))
        ensures
            (moved.0@, moved.1@) == flow::on_launch_listing(game, version.deep_view(), event@),
    {
        match event {
            Event::InstalledReleases(Ok(rs)) => match self.find_version(version, rs) {
                Ok(release) => {
                    let chosen = release.version.clone();
                    (
                        Flow::LaunchStarting { game, version: chosen },
                        Action::Start { game, version: release.version },
                    )
                },
                Err(e) => (Flow::Idle, Action::Fail(e)),
            },
            Event::InstalledReleases(Err(m)) => fail_with(m),
            _ => (Flow::LaunchListing { game, version }, Action::Wait),
        }
    }
}

fn on_listing_installed(game: Game, event: Event) -> (moved: (Flow, Action))
    ensures
        (moved.0@, moved.1@) == flow::on_listing_installed(game, event@),
{
    match event {
        Event::InstalledReleases(Ok(installed)) => (
            Flow::ListingReleases { game, installed },
            Action::FetchReleases(game),
        ),
        Event::InstalledReleases(Err(m)) => fail_with(m),
        _ => (Flow::ListingInstalled { game }, Action::Wait),
    }
}

fn on_listing_releases(game: Game, installed: Vec<Release>, event: Event) -> (moved: (Flow, Action))
    ensures
        (moved.0@, moved.1@) == flow::on_listing_releases(game, views(installed@), event@),
{
    match event {
        Event::Releases(Ok(rs)) => {
            let releases = mark_installed(rs, &installed);
            (Flow::Idle, Action::Show { game, releases })
        },
        Event::Releases(Err(m)) => fail_with(m),
        _ => (Flow::ListingReleases { game, installed }, Action::Wait),
    }
}

fn on_install_resolving(game: Game, version: String, event: Event) -> (moved: (Flow, Action))
    ensures
        (moved.0@, moved.1@) == flow::on_install_resolving(game, version@, event@),
{
    match event {
        Event::AssetResolved(Ok(asset)) => {
            let kept = asset.duplicate();
            (Flow::InstallDownloading { game, version, asset: kept }, Action::Download(asset))
        },
        Event::AssetResolved(Err(m)) => fail_with(m),
        _ => (Flow::InstallResolving { game, version }, Action::Wait),
    }
}

fn on_install_downloading(game: Game, version: String, asset: Asset, event: Event) -> (moved: (
    Flow,
    Action,
))
    ensures
        (moved.0@, moved.1@) == flow::on_install_downloading(game, version@, asset@, event@),
{
    match event {
        Event::Downloaded(Ok(_)) => {
            let kept = asset.duplicate();
            (Flow::InstallVerifying { game, version, asset: kept }, Action::Verify(asset))
        },
        Event::Downloaded(Err(m)) => fail_with(m),
        _ => (Flow::InstallDownloading { game, version, asset }, Action::Wait),
    }
}

fn on_install_verifying(game: Game, version: String, asset: Asset, event: Event) -> (moved: (
    Flow,
    Action,
))
    ensures
        (moved.0@, moved.1@) == flow::on_install_verifying(game, version@, asset@, event@),
{
    match event {
        Event::Verified(Ok(_)) => {
            let kept = version.clone();
            (Flow::InstallExtracting { game, version: kept }, Action::Extract { asset, game, version })
        },
        Event::Verified(Err(m)) => fail_with(m),
        _ => (Flow::InstallVerifying { game, version, asset }, Action::Wait),
    }
}

fn on_install_extracting(game: Game, version: String, event: Event) -> (moved: (Flow, Action))
    ensures
        (moved.0@, moved.1@) == flow::on_install_extracting(game, version@, event@),
{
    match event {
        Event::Extracted(Ok(_)) => (Flow::Idle, Action::Done(Outcome::Installed(version))),
        Event::Extracted(Err(m)) => fail_with(m),
        _ => (Flow::InstallExtracting { game, version }, Action::Wait),
    }
}

fn on_uninstall_checking(game: Game, version: String, event: Event) -> (moved: (Flow, Action))
    ensures
        (moved.0@, moved.1@) == flow::on_uninstall_checking(game, version@, event@),
{
    match event {
        Event::InstallChecked(true) => {
            let kept = version.clone();
            (Flow::UninstallRemoving { game, version: kept }, Action::Remove { game, version })
        },
        Event::InstallChecked(false) => (Flow::Idle, Action::Done(Outcome::NotInstalled(version))),
        _ => (Flow::UninstallChecking { game, version }, Action::Wait),
    }
}

fn on_uninstall_removing(game: Game, version: String, event: Event) -> (moved: (Flow, Action))
    ensures
        (moved.0@, moved.1@) == flow::on_uninstall_removing(game, version@, event@),
{
    match event {
        Event::Removed(Ok(_)) => (Flow::Idle, Action::Done(Outcome::Uninstalled(version))),
        Event::Removed(Err(m)) => fail_with(m),
        _ => (Flow::UninstallRemoving { game, version }, Action::Wait),
    }
}

fn on_launch_starting(game: Game, version: String, event: Event) -> (moved: (Flow, Action))
    ensures
        (moved.0@, moved.1@) == flow::on_launch_starting(game, version@, event@),
{
    match event {
        Event::Started(Ok(_)) => (Flow::Idle, Action::Done(Outcome::Launched(version))),
        Event::Started(Err(m)) => fail_with(m),
        _ => (Flow::LaunchStarting { game, version }, Action::Wait),
    }
}

/// Ends the command under way because outside work failed with `m`.
fn fail_with(m: String) -> (moved: (Flow, Action))
    ensures
        (moved.0@, moved.1@) == crate::flow::failed(m@),
{
    (Flow::Idle, Action::Fail(LauncherError::External(m)))
}

} // verus!
