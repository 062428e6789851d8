use vstd::prelude::*;

use crate::error::{ErrorView, describes, not_found_text};
use crate::paint::{holds_reset, painted, style_start};
use crate::flow::{ActionView, EventView, FlowView, OutcomeView, step};
use crate::listing::{line_text, lists, marked};
use crate::lookup::{
    first_with,
    has_release,
    has_v_prefix,
    is_first_with,
    lemma_first_with,
    normalized,
    select,
};
use crate::release::{AssetView, Game, ReleaseView};

verus! {

/// A normalized version carries the `v` prefix, and normalizing it again
/// changes nothing.
pub proof fn law_normalize_idempotent(s: Seq<char>)
    ensures
        has_v_prefix(normalized(s)),
        normalized(normalized(s)) == normalized(s),
{
}

/// With no releases there is nothing to choose, whatever was requested.
pub proof fn law_no_releases(version: Option<Seq<char>>, rs: Seq<ReleaseView>)
    requires
        rs.len() == 0,
    ensures
        select(version, rs) == Err::<ReleaseView, ErrorView>(ErrorView::NoReleases),
{
}

/// Without a requested version, the first (newest) release is chosen.
pub proof fn law_default_is_first(rs: Seq<ReleaseView>)
    requires
        rs.len() > 0,
    ensures
        select(None, rs) == Ok::<ReleaseView, ErrorView>(rs[0]),
{
}

/// The chosen release is one of the releases offered, and where a version
/// was requested it carries the normalized request and no earlier release
/// does.
pub proof fn law_choice_is_offered(version: Option<Seq<char>>, rs: Seq<ReleaseView>)
    requires
        select(version, rs) is Ok,
    ensures
        exists|i: int| 0 <= i < rs.len() && #[trigger] rs[i] == select(version, rs)->Ok_0,
        version matches Some(v) ==> is_first_with(
            rs,
            normalized(v),
            first_with(rs, normalized(v)),
        ) && select(version, rs)->Ok_0 == rs[first_with(rs, normalized(v))],
{
    match version {
        None => {
            assert(rs[0] == select(version, rs)->Ok_0);
        },
        Some(v) => {
            lemma_first_with(rs, normalized(v));
            let i = first_with(rs, normalized(v));
            assert(rs[i] == select(version, rs)->Ok_0);
        },
    }
}

/// A requested version is found exactly when some release carries it
/// (with the `v` prefix added where missing); otherwise the error names
/// the request.
pub proof fn law_found_iff_offered(v: Seq<char>, rs: Seq<ReleaseView>)
    requires
        rs.len() > 0,
    ensures
        select(Some(v), rs) is Ok <==> has_release(rs, normalized(v)),
        !has_release(rs, normalized(v)) ==> (select(Some(v), rs) matches Err(
            ErrorView::VersionNotFound { requested, available },
        ) && requested == v),
{
}

/// Requesting a version with or without its `v` prefix makes no difference
/// to which release is found.
pub proof fn law_prefix_optional(v: Seq<char>, rs: Seq<ReleaseView>)
    ensures
        select(Some(v), rs) is Ok <==> select(Some(normalized(v)), rs) is Ok,
        select(Some(v), rs) is Ok ==> select(Some(v), rs) == select(Some(normalized(v)), rs),
{
    law_normalize_idempotent(v);
}

/// Asking for the version of an offered release (given with its `v`) finds
/// a release with that very version: the first one that carries it.
pub proof fn law_offered_version_found(rs: Seq<ReleaseView>, i: int)
    requires
        0 <= i < rs.len(),
        has_v_prefix(rs[i].version),
    ensures
        select(Some(rs[i].version), rs) is Ok,
        select(Some(rs[i].version), rs)->Ok_0.version == rs[i].version,
        first_with(rs, rs[i].version) <= i,
{
    let tag = rs[i].version;
    assert(has_release(rs, tag));
    lemma_first_with(rs, tag);
    let k = first_with(rs, tag);
    if k > i {
        assert(rs[i].version != tag);
    }
}

/// Marking releases keeps their order, versions, names, pre-release tags
/// and files; a release is marked installed exactly when an installed release
/// carries its version; and marking twice against the same installed
/// releases gives what marking once gives.
pub proof fn law_marking(rs: Seq<ReleaseView>, installed: Seq<ReleaseView>)
    ensures
        marked(rs, installed).len() == rs.len(),
        forall|i: int|
            0 <= i < rs.len() ==> {
                let m = #[trigger] marked(rs, installed)[i];
                &&& m.version == rs[i].version
                &&& m.name == rs[i].name
                &&& m.prerelease == rs[i].prerelease
                &&& m.installed == has_release(installed, rs[i].version)
                &&& m.assets == rs[i].assets
            },
        marked(marked(rs, installed), installed) == marked(rs, installed),
{
    assert(marked(marked(rs, installed), installed) =~= marked(rs, installed));
}

/// A command ends whenever it fails, shows the releases, or succeeds: the
/// launcher is then idle again.
pub proof fn law_terminal_actions_end(flow: FlowView, event: EventView)
    ensures
        ({
            let (next, action) = step(flow, event);
            (action is Fail || action is Show || action is Done) ==> next == FlowView::Idle
        }),
{
}

/// A report that the current command does not wait for, and any report
/// while no command is under way, changes nothing and asks for nothing.
pub proof fn law_idle_ignores(event: EventView)
    ensures
        step(FlowView::Idle, event) == (FlowView::Idle, ActionView::Wait),
{
}

/// A release is deleted only after it was found on disk: the only step that
/// asks for a removal is the report that the chosen version is present.
pub proof fn law_remove_only_when_present(flow: FlowView, event: EventView)
    requires
        step(flow, event).1 is Remove,
    ensures
        flow is UninstallChecking,
        event == EventView::InstallChecked(true),
        step(flow, event).1 == (ActionView::Remove {
            game: flow->UninstallChecking_game,
            version: flow->UninstallChecking_version,
        }),
{
}

/// An install in which every piece of outside work succeeds chooses the
/// release as [`select`] does, then downloads, checks and unpacks the file
/// found for it, in that order, and reports that release as installed.
pub proof fn law_install_succeeds(
    game: Game,
    version: Option<Seq<char>>,
    rs: Seq<ReleaseView>,
    asset: AssetView,
)
    requires
        select(version, rs) is Ok,
    ensures
        ({
            let r = select(version, rs)->Ok_0;
            let s0 = FlowView::InstallFetching { game, version };
            let (s1, a1) = step(s0, EventView::Releases(Ok(rs)));
            let (s2, a2) = step(s1, EventView::AssetResolved(Ok(asset)));
            let (s3, a3) = step(s2, EventView::Downloaded(Ok(())));
            let (s4, a4) = step(s3, EventView::Verified(Ok(())));
            let (s5, a5) = step(s4, EventView::Extracted(Ok(())));
            &&& a1 == ActionView::ResolveAsset(r)
            &&& a2 == ActionView::Download(asset)
            &&& a3 == ActionView::Verify(asset)
            &&& a4 == (ActionView::Extract { asset, game, version: r.version })
            &&& a5 == ActionView::Done(OutcomeView::Installed(r.version))
            &&& s5 == FlowView::Idle
        }),
{
}

/// An uninstall removes the chosen release when it is on disk and reports
/// it as uninstalled, and reports it as not installed, removing nothing,
/// when it is not.
pub proof fn law_uninstall(
    game: Game,
    version: Option<Seq<char>>,
    rs: Seq<ReleaseView>,
    present: bool,
)
    requires
        select(version, rs) is Ok,
    ensures
        ({
            let r = select(version, rs)->Ok_0;
            let s0 = FlowView::UninstallFetching { game, version };
            let (s1, a1) = step(s0, EventView::Releases(Ok(rs)));
            let (s2, a2) = step(s1, EventView::InstallChecked(present));
            let (s3, a3) = step(s2, EventView::Removed(Ok(())));
            &&& a1 == (ActionView::CheckInstalled { game, version: r.version })
            &&& present ==> a2 == (ActionView::Remove { game, version: r.version })
                && a3 == ActionView::Done(OutcomeView::Uninstalled(r.version))
                && s3 == FlowView::Idle
            &&& !present ==> a2 == ActionView::Done(OutcomeView::NotInstalled(r.version))
                && s2 == FlowView::Idle
        }),
{
}

/// A launch starts the release chosen among the installed ones and reports
/// it as launched; when no installed release fits, it fails with the error
/// of the choice and starts nothing.
pub proof fn law_launch(game: Game, version: Option<Seq<char>>, installed: Seq<ReleaseView>)
    ensures
        ({
            let s0 = FlowView::LaunchListing { game, version };
            let (s1, a1) = step(s0, EventView::InstalledReleases(Ok(installed)));
            let (s2, a2) = step(s1, EventView::Started(Ok(())));
            match select(version, installed) {
                Ok(r) => a1 == (ActionView::Start { game, version: r.version }) && a2
                    == ActionView::Done(OutcomeView::Launched(r.version)) && s2 == FlowView::Idle,
                Err(e) => a1 == ActionView::Fail(e) && s1 == FlowView::Idle,
            }
        }),
{
}

/// Listing reads the installed releases, fetches the published ones, and
/// shows the published ones marked by the installed ones.
pub proof fn law_listing(game: Game, installed: Seq<ReleaseView>, rs: Seq<ReleaseView>)
    ensures
        ({
            let s0 = FlowView::ListingInstalled { game };
            let (s1, a1) = step(s0, EventView::InstalledReleases(Ok(installed)));
            let (s2, a2) = step(s1, EventView::Releases(Ok(rs)));
            &&& a1 == ActionView::FetchReleases(game)
            &&& a2 == (ActionView::Show { game, releases: marked(rs, installed) })
            &&& s2 == FlowView::Idle
        }),
{
}

/// `part` appears, as one run of characters, in `text`.
pub open spec fn occurs_in(part: Seq<char>, text: Seq<char>) -> bool {
    exists|k: int|
        0 <= k && k + part.len() <= text.len() && #[trigger] text.subrange(k, k + part.len())
            == part
}

/// Where a painted text shows its original.
proof fn lemma_painted_offset(s: Seq<char>, code: Seq<char>, out: Seq<char>) -> (k: int)
    requires
        painted(s, code, out),
    ensures
        0 <= k && k + s.len() <= out.len(),
        out.subrange(k, k + s.len()) == s,
{
    if out == s {
        assert(out.subrange(0, s.len() as int) =~= s);
        0
    } else if out == style_start(code) + s + crate::paint::style_reset() {
        let k = style_start(code).len() as int;
        assert(out.subrange(k, k + s.len()) =~= s);
        k
    } else {
        assert(out.subrange(0, s.len() as int) =~= s);
        0
    }
}

/// A run inside the middle part of a concatenation.
proof fn lemma_run_in_middle(a: Seq<char>, x: Seq<char>, c: Seq<char>, k: int, n: int)
    requires
        0 <= k,
        0 <= n,
        k + n <= x.len(),
    ensures
        (a + x + c).subrange(a.len() + k, a.len() + k + n) == x.subrange(k, k + n),
{
    assert((a + x + c).subrange(a.len() + k, a.len() + k + n) =~= x.subrange(k, k + n));
}

/// The message for a missing version shows the request and the list of
/// offered versions, whether or not colors are used, when neither holds a
/// reset sequence.
pub proof fn law_not_found_message(requested: Seq<char>, available: Seq<char>, text: Seq<char>)
    requires
        !holds_reset(requested),
        !holds_reset(available),
        describes(ErrorView::VersionNotFound { requested, available }, text),
    ensures
        occurs_in(requested, text),
        occurs_in(available, text),
        occurs_in(" not found, available versions are: "@, text),
{
    let (r, b) = choose|r: Seq<char>, b: Seq<char>|
        #![trigger not_found_text(r, b)]
        {
            &&& !holds_reset(requested) ==> painted(requested, crate::paint::red(), r)
            &&& !holds_reset(available) ==> painted(available, crate::paint::blue(), b)
            &&& text == not_found_text(r, b)
        };
    let pre = "Version "@;
    let mid = " not found, available versions are: "@;
    assert(text == pre + r + mid + b);
    let kr = lemma_painted_offset(requested, crate::paint::red(), r);
    lemma_run_in_middle(pre, r, mid + b, kr, requested.len() as int);
    assert(pre + r + (mid + b) =~= text);
    let i: int = pre.len() + kr;
    assert(text.subrange(i, i + requested.len()) == requested);
    let kb = lemma_painted_offset(available, crate::paint::blue(), b);
    lemma_run_in_middle(pre + r + mid, b, Seq::empty(), kb, available.len() as int);
    assert(pre + r + mid + b + Seq::<char>::empty() =~= text);
    let j: int = (pre + r + mid).len() + kb;
    assert(text.subrange(j, j + available.len()) == available);
    lemma_run_in_middle(pre + r, mid, b, 0, mid.len() as int);
    assert(mid.subrange(0, mid.len() as int) =~= mid);
    let m: int = (pre + r).len() as int;
    assert(text.subrange(m, m + mid.len()) == mid);
}

/// A request that does not start with `v` stands for the tag `v` followed
/// by the request, character for character; a request that starts with `v`
/// stands for itself.
pub proof fn law_normalize_prepends_v(s: Seq<char>)
    ensures
        !(s.len() > 0 && s[0] == 'v') ==> normalized(s) == seq!['v'] + s,
        (s.len() > 0 && s[0] == 'v') ==> normalized(s) == s,
{
}

/// A request without the `v` finds the first release whose version is `v`
/// followed by the request; a request with the `v` finds the first release
/// whose version is the request itself.
pub proof fn law_request_finds_tagged_release(s: Seq<char>, rs: Seq<ReleaseView>, i: int)
    requires
        0 <= i < rs.len(),
        rs[i].version == (if s.len() > 0 && s[0] == 'v' {
            s
        } else {
            seq!['v'] + s
        }),
        forall|j: int| 0 <= j < i ==> #[trigger] rs[j].version != rs[i].version,
    ensures
        select(Some(s), rs) == Ok::<ReleaseView, ErrorView>(rs[i]),
{
    law_normalize_prepends_v(s);
    let tag = rs[i].version;
    assert(normalized(s) == tag);
    assert(has_release(rs, tag));
    assert(is_first_with(rs, tag, i));
    lemma_first_with(rs, tag);
    crate::lookup::lemma_first_unique(rs, tag, i, first_with(rs, tag));
}

/// Every outside failure ends the command that waited for it, as a failure
/// that carries the outside message, and asks for nothing further.
pub proof fn law_outside_failures_fail(
    game: Game,
    request: Option<Seq<char>>,
    version: Seq<char>,
    asset: AssetView,
    installed: Seq<ReleaseView>,
    m: Seq<char>,
)
    ensures
        ({
            let fail = (FlowView::Idle, ActionView::Fail(ErrorView::External(m)));
            &&& step(FlowView::ListingInstalled { game }, EventView::InstalledReleases(Err(m)))
                == fail
            &&& step(FlowView::ListingReleases { game, installed }, EventView::Releases(Err(m)))
                == fail
            &&& step(FlowView::InstallFetching { game, version: request }, EventView::Releases(Err(m)))
                == fail
            &&& step(FlowView::InstallResolving { game, version }, EventView::AssetResolved(Err(m)))
                == fail
            &&& step(
                FlowView::InstallDownloading { game, version, asset },
                EventView::Downloaded(Err(m)),
            ) == fail
            &&& step(
                FlowView::InstallVerifying { game, version, asset },
                EventView::Verified(Err(m)),
            ) == fail
            &&& step(FlowView::InstallExtracting { game, version }, EventView::Extracted(Err(m)))
                == fail
            &&& step(
                FlowView::UninstallFetching { game, version: request },
                EventView::Releases(Err(m)),
            ) == fail
            &&& step(FlowView::UninstallRemoving { game, version }, EventView::Removed(Err(m)))
                == fail
            &&& step(
                FlowView::LaunchListing { game, version: request },
                EventView::InstalledReleases(Err(m)),
            ) == fail
            &&& step(FlowView::LaunchStarting { game, version }, EventView::Started(Err(m)))
                == fail
        }),
{
}

/// A command reports success only on a successful report of its last piece
/// of work: installed after unpacking succeeded, uninstalled after removal
/// succeeded, launched after the game started, and not installed after the
/// chosen version was found absent. The version reported is the one the
/// command was working on.
pub proof fn law_done_only_after_success(flow: FlowView, event: EventView)
    requires
        step(flow, event).1 is Done,
    ensures
        ({
            let outcome = step(flow, event).1->Done_0;
            match outcome {
                OutcomeView::Installed(v) => flow == (FlowView::InstallExtracting {
                    game: flow->InstallExtracting_game,
                    version: v,
                }) && event is Extracted && event->Extracted_0 is Ok,
                OutcomeView::Uninstalled(v) => flow == (FlowView::UninstallRemoving {
                    game: flow->UninstallRemoving_game,
                    version: v,
                }) && event is Removed && event->Removed_0 is Ok,
                OutcomeView::Launched(v) => flow == (FlowView::LaunchStarting {
                    game: flow->LaunchStarting_game,
                    version: v,
                }) && event is Started && event->Started_0 is Ok,
                OutcomeView::NotInstalled(v) => flow == (FlowView::UninstallChecking {
                    game: flow->UninstallChecking_game,
                    version: v,
                }) && event == EventView::InstallChecked(false),
            }
        }),
{
}

/// The line of a release that is not installed says `[not installed]`,
/// whether or not the release is a pre-release, and whatever its version
/// and name hold.
pub proof fn law_not_installed_is_listed_so(game: Game, r: ReleaseView, text: Seq<char>)
    requires
        !r.installed,
        lists(game, r, text),
    ensures
        occurs_in("[not installed]"@, text),
{
    let (v, n, st, p) = choose|v: Seq<char>, n: Seq<char>, st: Seq<char>, p: Option<Seq<char>>|
        #![trigger line_text(game, v, n, st, p)]
        {
            &&& !holds_reset(r.version) ==> painted(r.version, crate::paint::blue(), v)
            &&& !holds_reset(r.name) ==> painted(r.name, crate::paint::green(), n)
            &&& if r.installed {
                painted("installed"@, crate::paint::green(), st)
            } else {
                st == "not installed"@
            }
            &&& if r.prerelease {
                p matches Some(pp) && painted("pre-release"@, crate::paint::yellow(), pp)
            } else {
                p is None
            }
            &&& text == line_text(game, v, n, st, p)
        };
    reveal_strlit(") [");
    reveal_strlit("]");
    reveal_strlit("not installed");
    reveal_strlit("[not installed]");
    let head = "- "@ + game.spec_name() + " "@ + v + " ("@ + n;
    let mid = ") ["@ + st + "]"@;
    let tail = match p {
        Some(pp) => " ["@ + pp + "]"@,
        None => Seq::<char>::empty(),
    };
    assert(text =~= head + mid + tail);
    lemma_run_in_middle(head, mid, tail, 2, 15);
    assert(mid.subrange(2, 17) =~= "[not installed]"@);
    let k: int = head.len() + 2int;
    assert(text.subrange(k, k + "[not installed]"@.len()) == "[not installed]"@);
}

} // verus!
