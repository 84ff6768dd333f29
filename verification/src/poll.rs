//! One observation of the authorization surface, and what it means.
//!
//! The surface is sampled on a fixed cadence. Most samples say nothing: the
//! surface is between pages, or the login is still under way. A sample ends
//! the polling when its address carries the token parameter.

use crate::address::{pairs_read, pairs_text, read_pairs};
use crate::marker::{contains_text, occurs_in};
use crate::token::{find_value, last_value};
use vstd::prelude::*;

verus! {

/// The name of the query parameter in which the provider hands over the token.
/// Its presence anywhere in an address marks the address as the redirect.
pub const TOKEN_PARAMETER: &'static str = "musicUserToken";

/// The text that marks an address of the provider's sign-in pages, on which a
/// surface may stall.
pub const STALL_MARKER: &'static str = "idmsa";

/// The time between two observations, in milliseconds.
pub const POLL_INTERVAL_MILLIS: u64 = 500;

/// The time left to a stalled page before it is loaded again, in milliseconds.
pub const STALL_DELAY_MILLIS: u64 = 2000;

/// What one observation means.
#[derive(Debug, PartialEq, Eq)]
pub enum Sighting {
    /// Nothing yet: the address could not be read, or carries no marker.
    Nothing,
    /// A sign-in page that may have stalled.
    Stalled,
    /// The redirect, with the token it carries.
    Token(String),
    /// The address holds the name of the token parameter, but no parameter of
    /// that name can be read from it.
    Unreadable,
}

/// A [`Sighting`] with its token as a sequence of characters.
pub enum SightingView {
    Nothing,
    Stalled,
    Token(Seq<char>),
    Unreadable,
}

impl View for Sighting {
    type V = SightingView;

    open spec fn view(&self) -> SightingView {
        match self {
            Sighting::Nothing => SightingView::Nothing,
            Sighting::Stalled => SightingView::Stalled,
            Sighting::Token(token) => SightingView::Token(token@),
            Sighting::Unreadable => SightingView::Unreadable,
        }
    }
}

/// What an observation means, given the pairs read from its query (`None`
/// where the address did not parse). `armed` says whether a stalled page is
/// still to be looked for.
pub open spec fn reading(
    armed: bool,
    observed: Option<Seq<char>>,
    pairs: Option<Seq<(Seq<char>, Seq<char>)>>,
) -> SightingView {
    match observed {
        None => SightingView::Nothing,
        Some(address) => if armed && occurs_in(address, STALL_MARKER@) {
            SightingView::Stalled
        } else if occurs_in(address, TOKEN_PARAMETER@) {
            token_among(pairs)
        } else {
            SightingView::Nothing
        },
    }
}

/// What the pairs of a redirect hold: the token, or nothing that can be
/// read as one.
pub open spec fn token_among(pairs: Option<Seq<(Seq<char>, Seq<char>)>>) -> SightingView {
    match pairs {
        Some(list) => match last_value(list, TOKEN_PARAMETER@) {
            Some(token) => SightingView::Token(token),
            None => SightingView::Unreadable,
        },
        None => SightingView::Unreadable,
    }
}

/// What an observation means.
pub open spec fn sighting(armed: bool, observed: Option<Seq<char>>) -> SightingView {
    match observed {
        None => SightingView::Nothing,
        Some(address) => reading(armed, observed, pairs_read(address)),
    }
}

/// An observed address by its characters.
pub open spec fn observed_text(observed: Option<&str>) -> Option<Seq<char>> {
    match observed {
        Some(address) => Some(address@),
        None => None,
    }
}

/// Looks for the token among the pairs of a redirect.
pub fn find_token(pairs: Option<&Vec<(String, String)>>) -> (seen: Sighting)
    ensures
        seen@ == token_among(pairs_text(pairs)),
{
    match pairs {
        Some(list) => match find_value(list, TOKEN_PARAMETER) {
            Some(token) => Sighting::Token(token),
            None => Sighting::Unreadable,
        },
        None => Sighting::Unreadable,
    }
}

/// Decides what an observation means, given the pairs read from its query.
///
/// An unreadable surface is no failure: it is what a surface looks like
/// while it moves from one page to the next.
pub fn read(
    armed: bool,
    observed: Option<&str>,
    pairs: Option<&Vec<(String, String)>>,
) -> (seen: Sighting)
    ensures
        seen@ == reading(armed, observed_text(observed), pairs_text(pairs)),
{
    match observed {
        None => Sighting::Nothing,
        Some(address) => {
            if armed && contains_text(address, STALL_MARKER) {
                Sighting::Stalled
            } else if contains_text(address, TOKEN_PARAMETER) {
                find_token(pairs)
            } else {
                Sighting::Nothing
            }
        },
    }
}

/// Decides what an observation means. The query of the address is read,
/// with the `url` crate, only once the address is seen to be the redirect.
pub fn inspect(armed: bool, observed: Option<&str>) -> (seen: Sighting)
    ensures
        seen@ == sighting(armed, observed_text(observed)),
{
    match observed {
        None => Sighting::Nothing,
        Some(address) => {
            if armed && contains_text(address, STALL_MARKER) {
                Sighting::Stalled
            } else if contains_text(address, TOKEN_PARAMETER) {
                let pairs = read_pairs(address);
                find_token(pairs.as_ref())
            } else {
                Sighting::Nothing
            }
        },
    }
}

} // verus!
