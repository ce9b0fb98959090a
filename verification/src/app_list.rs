//! Listing apps: the decisions behind the paged listing.
//!
//! The apps themselves arrive from the backend in pages over a stream; this
//! module owns the choices the listing loop makes: which query scope the
//! options select, how many entries of a page still fit under the `--max`
//! cap, and what the user's paging reply means.

use vstd::prelude::*;

verus! {

/// List apps belonging to a namespace.
#[derive(Debug, Clone)]
pub struct CmdAppList {
    /// Get apps in a specific namespace.
    ///
    /// Will fetch the apps owned by the current user otherwise.
    pub namespace: Option<String>,
    /// Get all apps that are accessible by the current user, including apps
    /// directly owned by the user and apps in namespaces the user can
    /// access.
    pub all: bool,
    /// Maximum number of apps to display.
    pub max: usize,
    /// Asks whether to display the next page or not.
    pub paging_mode: bool,
}

/// Which set of apps the listing queries.
#[derive(Debug, Clone, PartialEq, Eq)]
pub enum ListScope {
    /// The apps of one namespace.
    Namespace(String),
    /// Every app the current user can access.
    AllAccessible,
    /// The apps the current user owns.
    CurrentUser,
}

/// What the user answered to the paging question.
#[derive(Debug, Clone, Copy, PartialEq, Eq, Structural)]
pub enum PageReply {
    /// Display the next page.
    NextPage,
    /// Stop listing.
    Stop,
    /// Anything else: ask again.
    Unknown,
}

impl CmdAppList {
    /// The query scope the options select: a namespace when one was given,
    /// else everything accessible under `--all`, else the current user's
    /// own apps.
    pub fn list_scope(&self) -> (r: ListScope)
        ensures
            self.namespace matches Some(ns) ==> (r matches ListScope::Namespace(s) && s == ns),
            self.namespace is None && self.all ==> r == ListScope::AllAccessible,
            self.namespace is None && !self.all ==> r == ListScope::CurrentUser,
    {
        match &self.namespace {
            Some(ns) => ListScope::Namespace(ns.clone()),
            None => {
                if self.all {
                    ListScope::AllAccessible
                } else {
                    ListScope::CurrentUser
                }
            },
        }
    }
}

/// How many entries of a page of `available` apps are still displayed when
/// `remaining` more may be shown under the cap: the smaller of the two.
pub fn page_take(remaining: usize, available: usize) -> (take: usize)
    ensures
        take == if available < remaining {
            available as int
        } else {
            remaining as int
        },
        take <= remaining,
        take <= available,
{
    if available < remaining {
        available
    } else {
        remaining
    }
}

/// Reads the user's (already trimmed) reply to the paging question: `y`
/// continues to the next page, `n` stops the listing, and anything else is
/// asked again.
pub fn parse_page_reply(reply: &str) -> (r: PageReply)
    ensures
        reply@ == "y"@ ==> r == PageReply::NextPage,
        reply@ == "n"@ ==> r == PageReply::Stop,
        reply@ != "y"@ && reply@ != "n"@ ==> r == PageReply::Unknown,
{
    proof {
        reveal_strlit("y");
        reveal_strlit("n");
    }
    if reply.unicode_len() == 1 {
        let c = reply.get_char(0);
        if c == 'y' {
            assert(reply@ =~= "y"@);
            PageReply::NextPage
        } else if c == 'n' {
            assert(reply@ =~= "n"@);
            PageReply::Stop
        } else {
            PageReply::Unknown
        }
    } else {
        PageReply::Unknown
    }
}

} // verus!
