use vstd::prelude::*;

verus! {

/// A game that the launcher manages.
#[derive(Clone, Copy, Debug, PartialEq, Eq, Structural)]
pub enum Game {
    Jumpy,
    Punchy,
}

impl Game {
    /// The name under which the game is shown.
    pub open spec fn spec_name(self) -> Seq<char> {
        match self {
            Game::Jumpy => "Jumpy"@,
            Game::Punchy => "Punchy"@,
        }
    }

    /// The name under which the game is shown.
    pub fn name(&self) -> (name: &'static str)
        ensures
            name@ == self.spec_name(),
    {
        match self {
            Game::Jumpy => "Jumpy",
            Game::Punchy => "Punchy",
        }
    }
}

/// A published release of a game.
#[derive(Clone, Debug)]
pub struct Release {
    /// The release tag, such as `v1.0.0`.
    pub version: String,
    /// The title of the release.
    pub name: String,
    /// Whether the release is marked as a pre-release.
    pub prerelease: bool,
    /// Whether the release is present on this machine.
    pub installed: bool,
    /// The files published with the release.
    pub assets: Vec<Asset>,
}

/// What a [`Release`] holds, as mathematical values.
pub struct ReleaseView {
    pub version: Seq<char>,
    pub name: Seq<char>,
    pub prerelease: bool,
    pub installed: bool,
    pub assets: Seq<AssetView>,
}

impl View for Release {
    type V = ReleaseView;

    open spec fn view(&self) -> ReleaseView {
        ReleaseView {
            version: self.version@,
            name: self.name@,
            prerelease: self.prerelease,
            installed: self.installed,
            assets: asset_views(self.assets@),
        }
    }
}

impl Default for Release {
    fn default() -> (r: Release)
        ensures
            r@.version.len() == 0,
            r@.name.len() == 0,
            !r.prerelease,
            !r.installed,
            r@.assets.len() == 0,
    {
        Release {
            version: String::new(),
            name: String::new(),
            prerelease: false,
            installed: false,
            assets: Vec::new(),
        }
    }
}

/// The views of a sequence of releases.
pub open spec fn views(s: Seq<Release>) -> Seq<ReleaseView> {
    s.map_values(|r: Release| r@)
}

/// A downloadable file of a release.
#[derive(Clone, Debug)]
pub struct Asset {
    /// The file name.
    pub name: String,
    /// The size in bytes.
    pub size: u64,
    /// Where the file is downloaded from.
    pub download_url: String,
}

/// What an [`Asset`] holds, as mathematical values.
pub struct AssetView {
    pub name: Seq<char>,
    pub size: u64,
    pub download_url: Seq<char>,
}

impl View for Asset {
    type V = AssetView;

    open spec fn view(&self) -> AssetView {
        AssetView { name: self.name@, size: self.size, download_url: self.download_url@ }
    }
}

/// The views of a sequence of files.
pub open spec fn asset_views(s: Seq<Asset>) -> Seq<AssetView> {
    s.map_values(|a: Asset| a@)
}

impl Asset {
    /// A copy of the file's description.
    pub fn duplicate(&self) -> (copy: Asset)
        ensures
            copy@ == self@,
    {
        Asset { name: self.name.clone(), size: self.size, download_url: self.download_url.clone() }
    }
}

/// A copy of a list of files.
pub fn duplicate_assets(assets: &Vec<Asset>) -> (copy: Vec<Asset>)
    ensures
        asset_views(copy@) == asset_views(assets@),
{
    let mut copy: Vec<Asset> = Vec::new();
    let mut i: usize = 0;
    while i < assets.len()
        invariant
            i <= assets.len(),
            copy@.len() == i,
            forall|j: int| 0 <= j < i ==> #[trigger] copy@[j]@ == assets@[j]@,
        decreases assets.len() - i,
    {
        copy.push(assets[i].duplicate());
        i = i + 1;
    }
    assert(asset_views(copy@) =~= asset_views(assets@));
    copy
}

} // verus!
