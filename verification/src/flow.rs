use vstd::prelude::*;

use crate::error::{ErrorView, LauncherError};
use crate::listing::marked;
use crate::lookup::select;
use crate::release::{Asset, AssetView, Game, Release, ReleaseView, views};

verus! {

/// How a command ended well.
#[derive(Debug)]
pub enum Outcome {
    /// The release with this version is ready to play.
    Installed(String),
    /// The release with this version was removed.
    Uninstalled(String),
    /// The release with this version was not installed, so nothing was removed.
    NotInstalled(String),
    /// The release with this version was started.
    Launched(String),
}

pub enum OutcomeView {
    Installed(Seq<char>),
    Uninstalled(Seq<char>),
    NotInstalled(Seq<char>),
    Launched(Seq<char>),
}

impl View for Outcome {
    type V = OutcomeView;

    open spec fn view(&self) -> OutcomeView {
        match self {
            Outcome::Installed(v) => OutcomeView::Installed(v@),
            Outcome::Uninstalled(v) => OutcomeView::Uninstalled(v@),
            Outcome::NotInstalled(v) => OutcomeView::NotInstalled(v@),
            Outcome::Launched(v) => OutcomeView::Launched(v@),
        }
    }
}

/// The outside work that a command asks its caller to perform next.
#[derive(Debug)]
pub enum Action {
    /// Fetch the published releases of the game, newest first.
    FetchReleases(Game),
    /// Read which releases of the game are installed on this machine.
    ListInstalled(Game),
    /// Pick the file of this release that fits this machine.
    ResolveAsset(Release),
    /// Download this file to the download folder.
    Download(Asset),
    /// Check the downloaded file against its published checksum.
    Verify(Asset),
    /// Unpack the downloaded file as this version of the game.
    Extract { asset: Asset, game: Game, version: String },
    /// Tell whether this version of the game is present on disk.
    CheckInstalled { game: Game, version: String },
    /// Delete this version of the game from disk.
    Remove { game: Game, version: String },
    /// Start this version of the game.
    Start { game: Game, version: String },
    /// Show these releases of the game to the user; the command is over.
    Show { game: Game, releases: Vec<Release> },
    /// The command is over and ended well.
    Done(Outcome),
    /// The command is over and failed.
    Fail(LauncherError),
    /// The reported result was not expected now; nothing is to be done.
    Wait,
}

pub enum ActionView {
    FetchReleases(Game),
    ListInstalled(Game),
    ResolveAsset(ReleaseView),
    Download(AssetView),
    Verify(AssetView),
    Extract { asset: AssetView, game: Game, version: Seq<char> },
    CheckInstalled { game: Game, version: Seq<char> },
    Remove { game: Game, version: Seq<char> },
    Start { game: Game, version: Seq<char> },
    Show { game: Game, releases: Seq<ReleaseView> },
    Done(OutcomeView),
    Fail(ErrorView),
    Wait,
}

impl View for Action {
    type V = ActionView;

    open spec fn view(&self) -> ActionView {
        match self {
            Action::FetchReleases(g) => ActionView::FetchReleases(*g),
            Action::ListInstalled(g) => ActionView::ListInstalled(*g),
            Action::ResolveAsset(r) => ActionView::ResolveAsset(r@),
            Action::Download(a) => ActionView::Download(a@),
            Action::Verify(a) => ActionView::Verify(a@),
            Action::Extract { asset, game, version } => ActionView::Extract {
                asset: asset@,
                game: *game,
                version: version@,
            },
            Action::CheckInstalled { game, version } => ActionView::CheckInstalled {
                game: *game,
                version: version@,
            },
            Action::Remove { game, version } => ActionView::Remove { game: *game, version: version@ },
            Action::Start { game, version } => ActionView::Start { game: *game, version: version@ },
            Action::Show { game, releases } => ActionView::Show {
                game: *game,
                releases: views(releases@),
            },
            Action::Done(o) => ActionView::Done(o@),
            Action::Fail(e) => ActionView::Fail(e@),
            Action::Wait => ActionView::Wait,
        }
    }
}

/// What came of the outside work that an [`Action`] asked for.
#[derive(Debug)]
pub enum Event {
    /// The published releases, or why fetching them failed.
    Releases(Result<Vec<Release>, String>),
    /// The installed releases, or why reading them failed.
    InstalledReleases(Result<Vec<Release>, String>),
    /// The file that fits this machine, or why there is none.
    AssetResolved(Result<Asset, String>),
    /// Whether the download succeeded.
    Downloaded(Result<(), String>),
    /// Whether the checksum matched.
    Verified(Result<(), String>),
    /// Whether unpacking succeeded.
    Extracted(Result<(), String>),
    /// Whether the version is present on disk.
    InstallChecked(bool),
    /// Whether removing succeeded.
    Removed(Result<(), String>),
    /// Whether the game started.
    Started(Result<(), String>),
}

pub enum EventView {
    Releases(Result<Seq<ReleaseView>, Seq<char>>),
    InstalledReleases(Result<Seq<ReleaseView>, Seq<char>>),
    AssetResolved(Result<AssetView, Seq<char>>),
    Downloaded(Result<(), Seq<char>>),
    Verified(Result<(), Seq<char>>),
    Extracted(Result<(), Seq<char>>),
    InstallChecked(bool),
    Removed(Result<(), Seq<char>>),
    Started(Result<(), Seq<char>>),
}

pub open spec fn list_result_view(r: Result<Vec<Release>, String>) -> Result<
    Seq<ReleaseView>,
    Seq<char>,
> {
    match r {
        Ok(rs) => Ok(views(rs@)),
        Err(m) => Err(m@),
    }
}

pub open spec fn unit_result_view(r: Result<(), String>) -> Result<(), Seq<char>> {
    match r {
        Ok(u) => Ok(u),
        Err(m) => Err(m@),
    }
}

impl View for Event {
    type V = EventView;

    open spec fn view(&self) -> EventView {
        match self {
            Event::Releases(r) => EventView::Releases(list_result_view(*r)),
            Event::InstalledReleases(r) => EventView::InstalledReleases(list_result_view(*r)),
            Event::AssetResolved(r) => EventView::AssetResolved(
                match r {
                    Ok(a) => Ok(a@),
                    Err(m) => Err(m@),
                },
            ),
            Event::Downloaded(r) => EventView::Downloaded(unit_result_view(*r)),
            Event::Verified(r) => EventView::Verified(unit_result_view(*r)),
            Event::Extracted(r) => EventView::Extracted(unit_result_view(*r)),
            Event::InstallChecked(b) => EventView::InstallChecked(*b),
            Event::Removed(r) => EventView::Removed(unit_result_view(*r)),
            Event::Started(r) => EventView::Started(unit_result_view(*r)),
        }
    }
}

/// Where a command stands, between two pieces of outside work.
#[derive(Debug)]
pub enum Flow {
    /// No command is under way.
    Idle,
    /// Listing: waiting for the installed releases.
    ListingInstalled { game: Game },
    /// Listing: waiting for the published releases.
    ListingReleases { game: Game, installed: Vec<Release> },
    /// Installing: waiting for the published releases.
    InstallFetching { game: Game, version: Option<String> },
    /// Installing the chosen version: waiting for its file.
    InstallResolving { game: Game, version: String },
    /// Installing: waiting for the download.
    InstallDownloading { game: Game, version: String, asset: Asset },
    /// Installing: waiting for the checksum.
    InstallVerifying { game: Game, version: String, asset: Asset },
    /// Installing: waiting for unpacking.
    InstallExtracting { game: Game, version: String },
    /// Uninstalling: waiting for the published releases.
    UninstallFetching { game: Game, version: Option<String> },
    /// Uninstalling the chosen version: waiting to know if it is on disk.
    UninstallChecking { game: Game, version: String },
    /// Uninstalling: waiting for the removal.
    UninstallRemoving { game: Game, version: String },
    /// Launching: waiting for the installed releases.
    LaunchListing { game: Game, version: Option<String> },
    /// Launching the chosen version: waiting for the game to start.
    LaunchStarting { game: Game, version: String },
}

pub enum FlowView {
    Idle,
    ListingInstalled { game: Game },
    ListingReleases { game: Game, installed: Seq<ReleaseView> },
    InstallFetching { game: Game, version: Option<Seq<char>> },
    InstallResolving { game: Game, version: Seq<char> },
    InstallDownloading { game: Game, version: Seq<char>, asset: AssetView },
    InstallVerifying { game: Game, version: Seq<char>, asset: AssetView },
    InstallExtracting { game: Game, version: Seq<char> },
    UninstallFetching { game: Game, version: Option<Seq<char>> },
    UninstallChecking { game: Game, version: Seq<char> },
    UninstallRemoving { game: Game, version: Seq<char> },
    LaunchListing { game: Game, version: Option<Seq<char>> },
    LaunchStarting { game: Game, version: Seq<char> },
}

impl View for Flow {
    type V = FlowView;

    open spec fn view(&self) -> FlowView {
        match self {
            Flow::Idle => FlowView::Idle,
            Flow::ListingInstalled { game } => FlowView::ListingInstalled { game: *game },
            Flow::ListingReleases { game, installed } => FlowView::ListingReleases {
                game: *game,
                installed: views(installed@),
            },
            Flow::InstallFetching { game, version } => FlowView::InstallFetching {
                game: *game,
                version: version.deep_view(),
            },
            Flow::InstallResolving { game, version } => FlowView::InstallResolving {
                game: *game,
                version: version@,
            },
            Flow::InstallDownloading { game, version, asset } => FlowView::InstallDownloading {
                game: *game,
                version: version@,
                asset: asset@,
            },
            Flow::InstallVerifying { game, version, asset } => FlowView::InstallVerifying {
                game: *game,
                version: version@,
                asset: asset@,
            },
            Flow::InstallExtracting { game, version } => FlowView::InstallExtracting {
                game: *game,
                version: version@,
            },
            Flow::UninstallFetching { game, version } => FlowView::UninstallFetching {
                game: *game,
                version: version.deep_view(),
            },
            Flow::UninstallChecking { game, version } => FlowView::UninstallChecking {
                game: *game,
                version: version@,
            },
            Flow::UninstallRemoving { game, version } => FlowView::UninstallRemoving {
                game: *game,
                version: version@,
            },
            Flow::LaunchListing { game, version } => FlowView::LaunchListing {
                game: *game,
                version: version.deep_view(),
            },
            Flow::LaunchStarting { game, version } => FlowView::LaunchStarting {
                game: *game,
                version: version@,
            },
        }
    }
}

/// The failure of a command because outside work failed with `m`.
pub open spec fn failed(m: Seq<char>) -> (FlowView, ActionView) {
    (FlowView::Idle, ActionView::Fail(ErrorView::External(m)))
}

/// Listing, waiting for the installed releases.
pub open spec fn on_listing_installed(game: Game, event: EventView) -> (FlowView, ActionView) {
    match event {
        EventView::InstalledReleases(Ok(installed)) => (
            FlowView::ListingReleases { game, installed },
            ActionView::FetchReleases(game),
        ),
        EventView::InstalledReleases(Err(m)) => failed(m),
        _ => (FlowView::ListingInstalled { game }, ActionView::Wait),
    }
}

/// Listing, waiting for the published releases.
pub open spec fn on_listing_releases(
    game: Game,
    installed: Seq<ReleaseView>,
    event: EventView,
) -> (FlowView, ActionView) {
    match event {
        EventView::Releases(Ok(rs)) => (
            FlowView::Idle,
            ActionView::Show { game, releases: marked(rs, installed) },
        ),
        EventView::Releases(Err(m)) => failed(m),
        _ => (FlowView::ListingReleases { game, installed }, ActionView::Wait),
    }
}

/// Installing, waiting for the published releases.
pub open spec fn on_install_fetching(game: Game, version: Option<Seq<char>>, event: EventView) -> (
    FlowView,
    ActionView,
) {
    match event {
        EventView::Releases(Ok(rs)) => match select(version, rs) {
            Ok(r) => (FlowView::InstallResolving { game, version: r.version }, ActionView::ResolveAsset(r)),
            Err(e) => (FlowView::Idle, ActionView::Fail(e)),
        },
        EventView::Releases(Err(m)) => failed(m),
        _ => (FlowView::InstallFetching { game, version }, ActionView::Wait),
    }
}

/// Installing, waiting for the file of the chosen release.
pub open spec fn on_install_resolving(game: Game, version: Seq<char>, event: EventView) -> (
    FlowView,
    ActionView,
) {
    match event {
        EventView::AssetResolved(Ok(asset)) => (
            FlowView::InstallDownloading { game, version, asset },
            ActionView::Download(asset),
        ),
        EventView::AssetResolved(Err(m)) => failed(m),
        _ => (FlowView::InstallResolving { game, version }, ActionView::Wait),
    }
}

/// Installing, waiting for the download.
pub open spec fn on_install_downloading(
    game: Game,
    version: Seq<char>,
    asset: AssetView,
    event: EventView,
) -> (FlowView, ActionView) {
    match event {
        EventView::Downloaded(Ok(_)) => (
            FlowView::InstallVerifying { game, version, asset },
            ActionView::Verify(asset),
        ),
        EventView::Downloaded(Err(m)) => failed(m),
        _ => (FlowView::InstallDownloading { game, version, asset }, ActionView::Wait),
    }
}

/// Installing, waiting for the checksum.
pub open spec fn on_install_verifying(
    game: Game,
    version: Seq<char>,
    asset: AssetView,
    event: EventView,
) -> (FlowView, ActionView) {
    match event {
        EventView::Verified(Ok(_)) => (
            FlowView::InstallExtracting { game, version },
            ActionView::Extract { asset, game, version },
        ),
        EventView::Verified(Err(m)) => failed(m),
        _ => (FlowView::InstallVerifying { game, version, asset }, ActionView::Wait),
    }
}

/// Installing, waiting for unpacking.
pub open spec fn on_install_extracting(game: Game, version: Seq<char>, event: EventView) -> (
    FlowView,
    ActionView,
) {
    match event {
        EventView::Extracted(Ok(_)) => (FlowView::Idle, ActionView::Done(OutcomeView::Installed(version))),
        EventView::Extracted(Err(m)) => failed(m),
        _ => (FlowView::InstallExtracting { game, version }, ActionView::Wait),
    }
}

/// Uninstalling, waiting for the published releases.
pub open spec fn on_uninstall_fetching(
    game: Game,
    version: Option<Seq<char>>,
    event: EventView,
) -> (FlowView, ActionView) {
    match event {
        EventView::Releases(Ok(rs)) => match select(version, rs) {
            Ok(r) => (
                FlowView::UninstallChecking { game, version: r.version },
                ActionView::CheckInstalled { game, version: r.version },
            ),
            Err(e) => (FlowView::Idle, ActionView::Fail(e)),
        },
        EventView::Releases(Err(m)) => failed(m),
        _ => (FlowView::UninstallFetching { game, version }, ActionView::Wait),
    }
}

/// Uninstalling, waiting to know whether the chosen version is on disk.
pub open spec fn on_uninstall_checking(game: Game, version: Seq<char>, event: EventView) -> (
    FlowView,
    ActionView,
) {
    match event {
        EventView::InstallChecked(true) => (
            FlowView::UninstallRemoving { game, version },
            ActionView::Remove { game, version },
        ),
        EventView::InstallChecked(false) => (
            FlowView::Idle,
            ActionView::Done(OutcomeView::NotInstalled(version)),
        ),
        _ => (FlowView::UninstallChecking { game, version }, ActionView::Wait),
    }
}

/// Uninstalling, waiting for the removal.
pub open spec fn on_uninstall_removing(game: Game, version: Seq<char>, event: EventView) -> (
    FlowView,
    ActionView,
) {
    match event {
        EventView::Removed(Ok(_)) => (FlowView::Idle, ActionView::Done(OutcomeView::Uninstalled(version))),
        EventView::Removed(Err(m)) => failed(m),
        _ => (FlowView::UninstallRemoving { game, version }, ActionView::Wait),
    }
}

/// Launching, waiting for the installed releases.
pub open spec fn on_launch_listing(game: Game, version: Option<Seq<char>>, event: EventView) -> (
    FlowView,
    ActionView,
) {
    match event {
        EventView::InstalledReleases(Ok(rs)) => match select(version, rs) {
            Ok(r) => (
                FlowView::LaunchStarting { game, version: r.version },
                ActionView::Start { game, version: r.version },
            ),
            Err(e) => (FlowView::Idle, ActionView::Fail(e)),
        },
        EventView::InstalledReleases(Err(m)) => failed(m),
        _ => (FlowView::LaunchListing { game, version }, ActionView::Wait),
    }
}

/// Launching, waiting for the game to start.
pub open spec fn on_launch_starting(game: Game, version: Seq<char>, event: EventView) -> (
    FlowView,
    ActionView,
) {
    match event {
        EventView::Started(Ok(_)) => (FlowView::Idle, ActionView::Done(OutcomeView::Launched(version))),
        EventView::Started(Err(m)) => failed(m),
        _ => (FlowView::LaunchStarting { game, version }, ActionView::Wait),
    }
}

/// How a command moves on when the outside work it asked for reports
/// `event`: the next place it stands and the next work it asks for. A
/// report that the current place does not wait for changes nothing.
pub open spec fn step(flow: FlowView, event: EventView) -> (FlowView, ActionView) {
    match flow {
        FlowView::Idle => (FlowView::Idle, ActionView::Wait),
        FlowView::ListingInstalled { game } => on_listing_installed(game, event),
        FlowView::ListingReleases { game, installed } => on_listing_releases(game, installed, event),
        FlowView::InstallFetching { game, version } => on_install_fetching(game, version, event),
        FlowView::InstallResolving { game, version } => on_install_resolving(game, version, event),
        FlowView::InstallDownloading { game, version, asset } => on_install_downloading(
            game,
            version,
            asset,
            event,
        ),
        FlowView::InstallVerifying { game, version, asset } => on_install_verifying(
            game,
            version,
            asset,
            event,
        ),
        FlowView::InstallExtracting { game, version } => on_install_extracting(game, version, event),
        FlowView::UninstallFetching { game, version } => on_uninstall_fetching(game, version, event),
        FlowView::UninstallChecking { game, version } => on_uninstall_checking(game, version, event),
        FlowView::UninstallRemoving { game, version } => on_uninstall_removing(game, version, event),
        FlowView::LaunchListing { game, version } => on_launch_listing(game, version, event),
        FlowView::LaunchStarting { game, version } => on_launch_starting(game, version, event),
    }
}

} // verus!
