use vstd::prelude::*;

use crate::error::ErrorView;
use crate::release::{Release, ReleaseView, views};

verus! {

/// Whether a version text already carries the `v` prefix of a release tag.
pub open spec fn has_v_prefix(s: Seq<char>) -> bool {
    s.len() > 0 && s[0] == 'v'
}

/// The release tag that a requested version stands for: the text itself
/// where it starts with `v`, else the text with `v` in front.
pub open spec fn normalized(s: Seq<char>) -> Seq<char> {
    if has_v_prefix(s) {
        s
    } else {
        seq!['v'] + s
    }
}

/// The versions of `rs`, in order, separated by a comma and a space.
pub open spec fn version_list(rs: Seq<ReleaseView>) -> Seq<char>
    decreases rs.len(),
{
    if rs.len() == 0 {
        Seq::empty()
    } else if rs.len() == 1 {
        rs[0].version
    } else {
        version_list(rs.drop_last()) + seq![',', ' '] + rs.last().version
    }
}

/// Whether some release of `rs` carries the tag `tag`.
pub open spec fn has_release(rs: Seq<ReleaseView>, tag: Seq<char>) -> bool {
    exists|i: int| 0 <= i < rs.len() && #[trigger] rs[i].version == tag
}

/// `i` is the position of the first release of `rs` that carries `tag`.
pub open spec fn is_first_with(rs: Seq<ReleaseView>, tag: Seq<char>, i: int) -> bool {
    &&& 0 <= i < rs.len()
    &&& rs[i].version == tag
    &&& forall|j: int| 0 <= j < i ==> #[trigger] rs[j].version != tag
}

/// The position of the first release of `rs` that carries `tag`.
pub open spec fn first_with(rs: Seq<ReleaseView>, tag: Seq<char>) -> int {
    choose|i: int| is_first_with(rs, tag, i)
}

/// The release a command works on. With no releases, there is nothing to
/// choose. Without a requested version, the first release is chosen. With
/// one, the first release whose tag is the normalized request is chosen; if
/// none has it, the error names the request and lists the offered versions.
pub open spec fn select(version: Option<Seq<char>>, rs: Seq<ReleaseView>) -> Result<
    ReleaseView,
    ErrorView,
> {
    if rs.len() == 0 {
        Err(ErrorView::NoReleases)
    } else {
        match version {
            None => Ok(rs[0]),
            Some(v) => if has_release(rs, normalized(v)) {
                Ok(rs[first_with(rs, normalized(v))])
            } else {
                Err(ErrorView::VersionNotFound { requested: v, available: version_list(rs) })
            },
        }
    }
}

/// A release that carries a tag is preceded by a first one that does.
pub proof fn lemma_first_with(rs: Seq<ReleaseView>, tag: Seq<char>)
    requires
        has_release(rs, tag),
    ensures
        is_first_with(rs, tag, first_with(rs, tag)),
{
    let k = choose|i: int| 0 <= i < rs.len() && #[trigger] rs[i].version == tag;
    lemma_first_below(rs, tag, k);
}

proof fn lemma_first_below(rs: Seq<ReleaseView>, tag: Seq<char>, k: int)
    requires
        0 <= k < rs.len(),
        rs[k].version == tag,
    ensures
        exists|i: int| is_first_with(rs, tag, i),
    decreases k,
{
    if forall|j: int| 0 <= j < k ==> #[trigger] rs[j].version != tag {
        assert(is_first_with(rs, tag, k));
    } else {
        let j = choose|j: int| 0 <= j < k && #[trigger] rs[j].version == tag;
        lemma_first_below(rs, tag, j);
    }
}

/// Only one position is the first to carry a tag.
pub proof fn lemma_first_unique(rs: Seq<ReleaseView>, tag: Seq<char>, i: int, k: int)
    requires
        is_first_with(rs, tag, i),
        is_first_with(rs, tag, k),
    ensures
        i == k,
{
    if i < k {
        assert(rs[i].version != tag);
    } else if k < i {
        assert(rs[k].version != tag);
    }
}

/// The release tag that a requested version stands for: `version` itself
/// where it starts with `v`, else `version` with `v` in front.
pub fn normalize_version(version: &str) -> (tag: String)
    ensures
        tag@ == normalized(version@),
{
    if !version.is_empty() && version.get_char(0) == 'v' {
        version.to_owned()
    } else {
        let mut tag = String::from_str("v");
        proof {
            reveal_strlit("v");
        }
        tag.append(version);
        tag
    }
}

/// The versions of `releases`, in order, separated by a comma and a space.
pub fn list_versions(releases: &Vec<Release>) -> (list: String)
    ensures
        list@ == version_list(views(releases@)),
{
    let mut list = String::new();
    let ghost rs = views(releases@);
    let mut i: usize = 0;
    while i < releases.len()
        invariant
            i <= releases.len(),
            rs == views(releases@),
            list@ == version_list(rs.take(i as int)),
        decreases releases.len() - i,
    {
        assert(rs.take(i + 1).drop_last() =~= rs.take(i as int));
        if i != 0 {
            list.append(", ");
            proof {
                reveal_strlit(", ");
            }
        }
        list.append(releases[i].version.as_str());
        assert(rs[i as int] == releases@[i as int]@);
        i = i + 1;
    }
    assert(rs.take(releases.len() as int) =~= rs);
    list
}

} // verus!
