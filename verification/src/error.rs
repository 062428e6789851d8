use vstd::prelude::*;

use crate::paint::{blue, holds_reset, paint_blue, paint_red, painted, red};

verus! {

/// Why a command of the launcher failed.
#[derive(Debug)]
pub enum LauncherError {
    /// There was no release to choose from.
    NoReleases,
    /// No release carries the requested version. `available` lists the
    /// versions that were offered, in their order.
    VersionNotFound { requested: String, available: String },
    /// An outside operation (network, disk, archive, game process) failed
    /// with this message.
    External(String),
}

/// What a [`LauncherError`] holds, as mathematical values.
pub enum ErrorView {
    NoReleases,
    VersionNotFound { requested: Seq<char>, available: Seq<char> },
    External(Seq<char>),
}

impl View for LauncherError {
    type V = ErrorView;

    open spec fn view(&self) -> ErrorView {
        match self {
            LauncherError::NoReleases => ErrorView::NoReleases,
            LauncherError::VersionNotFound { requested, available } => ErrorView::VersionNotFound {
                requested: requested@,
                available: available@,
            },
            LauncherError::External(m) => ErrorView::External(m@),
        }
    }
}

/// The text of the error for an empty list of releases.
pub open spec fn no_releases_text() -> Seq<char> {
    "No releases found/installed :("@
}

/// The text of the error for a missing version, from the shown forms of the
/// request and of the list of offered versions.
pub open spec fn not_found_text(requested: Seq<char>, available: Seq<char>) -> Seq<char> {
    "Version "@ + requested + " not found, available versions are: "@ + available
}

/// `text` is how the error `e` reads. The request is shown in red and the
/// list in blue, where the terminal takes colors (see [`painted`]); what
/// the colors make of a part that holds a reset sequence is not stated,
/// and does not affect what is stated of the other part.
pub open spec fn describes(e: ErrorView, text: Seq<char>) -> bool {
    match e {
        ErrorView::NoReleases => text == no_releases_text(),
        ErrorView::VersionNotFound { requested, available } => exists|
            r: Seq<char>,
            b: Seq<char>,
        |
            #![trigger not_found_text(r, b)]
            {
                &&& !holds_reset(requested) ==> painted(requested, red(), r)
                &&& !holds_reset(available) ==> painted(available, blue(), b)
                &&& text == not_found_text(r, b)
            },
        ErrorView::External(m) => text == m,
    }
}

impl LauncherError {
    /// The text that explains the error to the user.
    pub fn message(&self) -> (text: String)
        ensures
            describes(self@, text@),
    {
        match self {
            LauncherError::NoReleases => String::from_str("No releases found/installed :("),
            LauncherError::VersionNotFound { requested, available } => {
                let r = paint_red(requested.as_str());
                let b = paint_blue(available.as_str());
                let mut text = String::from_str("Version ");
                text.append(r.as_str());
                text.append(" not found, available versions are: ");
                text.append(b.as_str());
                assert(text@ == not_found_text(r@, b@));
                text
            },
            LauncherError::External(m) => m.clone(),
        }
    }
}

} // verus!
