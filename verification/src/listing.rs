use vstd::prelude::*;

use crate::lookup::has_release;
use crate::paint::{
    blue,
    holds_reset,
    lemma_no_escape_no_reset,
    green,
    paint_blue,
    paint_green,
    paint_yellow,
    painted,
    yellow,
};
use crate::release::{Game, Release, ReleaseView, duplicate_assets, views};

verus! {

/// The releases `rs`, each marked installed exactly when some release of
/// `installed` carries its version; nothing else changes.
pub open spec fn marked(rs: Seq<ReleaseView>, installed: Seq<ReleaseView>) -> Seq<ReleaseView> {
    Seq::new(
        rs.len(),
        |i: int|
            ReleaseView {
                version: rs[i].version,
                name: rs[i].name,
                prerelease: rs[i].prerelease,
                installed: has_release(installed, rs[i].version),
                assets: rs[i].assets,
            },
    )
}

/// Whether some release of `installed` carries `version`.
fn carries(installed: &Vec<Release>, version: &String) -> (found: bool)
    ensures
        found == has_release(views(installed@), version@),
{
    let ghost rs = views(installed@);
    let mut i: usize = 0;
    while i < installed.len()
        invariant
            i <= installed.len(),
            rs == views(installed@),
            forall|j: int| 0 <= j < i ==> #[trigger] rs[j].version != version@,
        decreases installed.len() - i,
    {
        if installed[i].version == *version {
            assert(rs[i as int].version == version@);
            return true;
        }
        i = i + 1;
    }
    false
}

/// `releases`, each marked installed exactly when `installed` holds a
/// release with its version.
pub fn mark_installed(releases: Vec<Release>, installed: &Vec<Release>) -> (marked_releases: Vec<
    Release,
>)
    ensures
        views(marked_releases@) == marked(views(releases@), views(installed@)),
{
    let ghost rs = views(releases@);
    let ghost target = marked(rs, views(installed@));
    let mut out: Vec<Release> = Vec::new();
    let mut i: usize = 0;
    while i < releases.len()
        invariant
            i <= releases.len(),
            rs == views(releases@),
            target == marked(rs, views(installed@)),
            out@.len() == i,
            forall|j: int| 0 <= j < i ==> #[trigger] out@[j]@ == target[j],
        decreases releases.len() - i,
    {
        let r = &releases[i];
        let installed_now = carries(installed, &r.version);
        out.push(
            Release {
                version: r.version.clone(),
                name: r.name.clone(),
                prerelease: r.prerelease,
                installed: installed_now,
                assets: duplicate_assets(&r.assets),
            },
        );
        i = i + 1;
    }
    assert(views(out@) =~= target);
    out
}

/// The line for one release in the list of releases, from the shown forms
/// of its version, its name, its installation status, and its pre-release
/// tag where it has one.
pub open spec fn line_text(
    game: Game,
    version: Seq<char>,
    name: Seq<char>,
    status: Seq<char>,
    pre: Option<Seq<char>>,
) -> Seq<char> {
    "- "@ + game.spec_name() + " "@ + version + " ("@ + name + ") ["@ + status + "]"@ + match pre {
        Some(p) => " ["@ + p + "]"@,
        None => Seq::empty(),
    }
}

/// `text` is how release `r` of `game` is listed: its version in blue, its
/// name in green, `installed` in green or `not installed`, and, for a
/// pre-release, `pre-release` in yellow, where the terminal takes colors
/// (see [`painted`]). What the colors make of a version or name that holds
/// a reset sequence is not stated; the rest of the line is stated anyway.
pub open spec fn lists(game: Game, r: ReleaseView, text: Seq<char>) -> bool {
    exists|v: Seq<char>, n: Seq<char>, s: Seq<char>, p: Option<Seq<char>>|
        #![trigger line_text(game, v, n, s, p)]
        {
            &&& !holds_reset(r.version) ==> painted(r.version, blue(), v)
            &&& !holds_reset(r.name) ==> painted(r.name, green(), n)
            &&& if r.installed {
                painted("installed"@, green(), s)
            } else {
                s == "not installed"@
            }
            &&& if r.prerelease {
                p matches Some(pp) && painted("pre-release"@, yellow(), pp)
            } else {
                p is None
            }
            &&& text == line_text(game, v, n, s, p)
        }
}

/// The line that lists `release` of `game`.
pub fn release_line(game: Game, release: &Release) -> (line: String)
    ensures
        lists(game, release@, line@),
{
    let v = paint_blue(release.version.as_str());
    let n = paint_green(release.name.as_str());
    let s = if release.installed {
        proof {
            reveal_strlit("installed");
            lemma_no_escape_no_reset("installed"@);
        }
        paint_green("installed")
    } else {
        String::from_str("not installed")
    };
    let mut line = String::from_str("- ");
    line.append(game.name());
    line.append(" ");
    line.append(v.as_str());
    line.append(" (");
    line.append(n.as_str());
    line.append(") [");
    line.append(s.as_str());
    line.append("]");
    if release.prerelease {
        proof {
            reveal_strlit("pre-release");
            lemma_no_escape_no_reset("pre-release"@);
        }
        let p = paint_yellow("pre-release");
        line.append(" [");
        line.append(p.as_str());
        line.append("]");
        assert(line@ == line_text(game, v@, n@, s@, Some(p@)));
    } else {
        assert(line@ == line_text(game, v@, n@, s@, None));
    }
    line
}

/// The heading above the list of releases of `game`.
pub open spec fn heading_text(game: Game) -> Seq<char> {
    "\u{1f41f} "@ + game.spec_name() + " - Available versions:"@
}

/// The heading above the list of releases of `game`.
pub fn listing_heading(game: Game) -> (heading: String)
    ensures
        heading@ == heading_text(game),
{
    let mut heading = String::from_str("\u{1f41f} ");
    heading.append(game.name());
    heading.append(" - Available versions:");
    heading
}

/// A stage of a long command, shown while it runs.
#[derive(Clone, Copy, Debug, PartialEq, Eq, Structural)]
pub enum Stage {
    Downloading,
    Verifying,
    Extracting,
    Uninstalling,
}

impl Stage {
    /// The word that names the stage.
    pub open spec fn spec_word(self) -> Seq<char> {
        match self {
            Stage::Downloading => "Downloading"@,
            Stage::Verifying => "Verifying"@,
            Stage::Extracting => "Extracting"@,
            Stage::Uninstalling => "Uninstalling"@,
        }
    }

    /// The color in which the stage is named.
    pub open spec fn spec_color(self) -> Seq<char> {
        match self {
            Stage::Downloading => blue(),
            Stage::Verifying => yellow(),
            Stage::Extracting => green(),
            Stage::Uninstalling => green(),
        }
    }
}

/// `text` shows that `stage` is under way on `subject`: the stage's word in
/// its color (see [`painted`]), a space, and the subject.
pub open spec fn announces(stage: Stage, subject: Seq<char>, text: Seq<char>) -> bool {
    exists|w: Seq<char>|
        #![trigger painted(stage.spec_word(), stage.spec_color(), w)]
        painted(stage.spec_word(), stage.spec_color(), w) && text == w + " "@ + subject
}

/// The progress text that shows `stage` under way on `subject` (a file
/// name or a version).
pub fn stage_message(stage: Stage, subject: &str) -> (text: String)
    ensures
        announces(stage, subject@, text@),
{
    let word = match stage {
        Stage::Downloading => {
            proof {
                reveal_strlit("Downloading");
            lemma_no_escape_no_reset("Downloading"@);
            }
            paint_blue("Downloading")
        },
        Stage::Verifying => {
            proof {
                reveal_strlit("Verifying");
            lemma_no_escape_no_reset("Verifying"@);
            }
            paint_yellow("Verifying")
        },
        Stage::Extracting => {
            proof {
                reveal_strlit("Extracting");
            lemma_no_escape_no_reset("Extracting"@);
            }
            paint_green("Extracting")
        },
        Stage::Uninstalling => {
            proof {
                reveal_strlit("Uninstalling");
            lemma_no_escape_no_reset("Uninstalling"@);
            }
            paint_green("Uninstalling")
        },
    };
    assert(painted(stage.spec_word(), stage.spec_color(), word@));
    let mut text = word;
    text.append(" ");
    text.append(subject);
    text
}

/// The lines that list the releases of `game`: an empty line, the heading,
/// one line per release in their order, and an empty line.
pub fn listing_lines(game: Game, releases: &Vec<Release>) -> (lines: Vec<String>)
    ensures
        lines@.len() == releases@.len() + 3,
        lines@[0]@.len() == 0,
        lines@[1]@ == heading_text(game),
        forall|i: int|
            0 <= i < releases@.len() ==> lists(game, releases@[i]@, #[trigger] lines@[i + 2]@),
        lines@[releases@.len() + 2int]@.len() == 0,
{
    let mut lines: Vec<String> = Vec::new();
    lines.push(String::new());
    lines.push(listing_heading(game));
    let mut i: usize = 0;
    while i < releases.len()
        invariant
            i <= releases.len(),
            lines@.len() == i + 2,
            lines@[0]@.len() == 0,
            lines@[1]@ == heading_text(game),
            forall|j: int| 0 <= j < i ==> lists(game, releases@[j]@, #[trigger] lines@[j + 2]@),
        decreases releases.len() - i,
    {
        let line = release_line(game, &releases[i]);
        lines.push(line);
        i = i + 1;
    }
    lines.push(String::new());
    lines
}

} // verus!
