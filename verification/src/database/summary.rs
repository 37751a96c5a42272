//! What a slug stands for, and how that is found out

use vstd::prelude::*;

use crate::aliases::Alias;
use crate::aliases::AliasView;
use crate::destinations::Destination;
use crate::destinations::DestinationView;

verus! {

/// The result of trying to fetch a destination by slug
#[derive(Debug)]
pub enum SlugFoundSummary {
    /// The destination exists and is not deleted
    DestinationExists(Destination),
    /// The destination exists but is deleted
    DestinationDeleted(Destination, Option<Alias>),
    /// The alias exists and is not deleted
    AliasExists(Alias, Destination),
    /// The alias exists but is deleted
    AliasDeleted(Alias, Destination),
}

/// What a summary holds, as mathematical values
pub enum SlugFoundSummaryView {
    DestinationExists(DestinationView),
    DestinationDeleted(DestinationView, Option<AliasView>),
    AliasExists(AliasView, DestinationView),
    AliasDeleted(AliasView, DestinationView),
}

impl View for SlugFoundSummary {
    type V = SlugFoundSummaryView;

    open spec fn view(&self) -> SlugFoundSummaryView {
        match self {
            SlugFoundSummary::DestinationExists(destination) => {
                SlugFoundSummaryView::DestinationExists(destination@)
            },
            SlugFoundSummary::DestinationDeleted(destination, alias) => {
                SlugFoundSummaryView::DestinationDeleted(
                    destination@,
                    match alias {
                        Some(alias) => Some(alias@),
                        None => None,
                    },
                )
            },
            SlugFoundSummary::AliasExists(alias, destination) => {
                SlugFoundSummaryView::AliasExists(alias@, destination@)
            },
            SlugFoundSummary::AliasDeleted(alias, destination) => {
                SlugFoundSummaryView::AliasDeleted(alias@, destination@)
            },
        }
    }
}

impl SlugFoundSummaryView {
    /// The destination that the slug leads to
    pub open spec fn destination(self) -> DestinationView {
        match self {
            SlugFoundSummaryView::DestinationExists(destination) => destination,
            SlugFoundSummaryView::DestinationDeleted(destination, _) => destination,
            SlugFoundSummaryView::AliasExists(_, destination) => destination,
            SlugFoundSummaryView::AliasDeleted(_, destination) => destination,
        }
    }

    /// The alias through which the slug was found, if it was
    pub open spec fn alias(self) -> Option<AliasView> {
        match self {
            SlugFoundSummaryView::DestinationExists(_) => None,
            SlugFoundSummaryView::DestinationDeleted(_, alias) => alias,
            SlugFoundSummaryView::AliasExists(alias, _) => Some(alias),
            SlugFoundSummaryView::AliasDeleted(alias, _) => Some(alias),
        }
    }

    /// Whether the slug leads to something that was deleted
    pub open spec fn is_deleted(self) -> bool {
        self is DestinationDeleted || self is AliasDeleted
    }
}

impl SlugFoundSummary {
    /// Get the destination
    pub fn destination(&self) -> (destination: &Destination)
        ensures
            destination@ == self@.destination(),
    {
        match self {
            SlugFoundSummary::DestinationExists(destination) => destination,
            SlugFoundSummary::DestinationDeleted(destination, _) => destination,
            SlugFoundSummary::AliasExists(_, destination) => destination,
            SlugFoundSummary::AliasDeleted(_, destination) => destination,
        }
    }

    /// Get the alias if it exists
    pub fn alias(&self) -> (alias: Option<&Alias>)
        ensures
            match alias {
                Some(alias) => self@.alias() == Some(alias@),
                None => self@.alias() is None,
            },
    {
        match self {
            SlugFoundSummary::DestinationExists(_) => None,
            SlugFoundSummary::DestinationDeleted(_, alias) => alias.as_ref(),
            SlugFoundSummary::AliasExists(alias, _) => Some(alias),
            SlugFoundSummary::AliasDeleted(alias, _) => Some(alias),
        }
    }

    /// Is the destination or alias deleted?
    pub fn is_deleted(&self) -> (deleted: bool)
        ensures
            deleted == self@.is_deleted(),
    {
        match self {
            SlugFoundSummary::DestinationDeleted(_, _) => true,
            SlugFoundSummary::AliasDeleted(_, _) => true,
            _ => false,
        }
    }
}

/// What a slug stands for, given what the store holds: the destination with
/// that slug, the alias with that slug, and the destination that such an alias
/// names. A destination with the slug goes before an alias with it, and a
/// deleted destination before the state of the alias that led to it.
pub open spec fn summary_of(
    destination: Option<DestinationView>,
    alias: Option<AliasView>,
    alias_destination: DestinationView,
) -> Option<SlugFoundSummaryView> {
    match destination {
        Some(destination) => Some(
            if destination.deleted_at.is_some() {
                SlugFoundSummaryView::DestinationDeleted(destination, None)
            } else {
                SlugFoundSummaryView::DestinationExists(destination)
            },
        ),
        None => match alias {
            Some(alias) => Some(alias_summary_of(alias, alias_destination)),
            None => None,
        },
    }
}

/// What the slug of an alias stands for, given the destination that it names
pub open spec fn alias_summary_of(
    alias: AliasView,
    destination: DestinationView,
) -> SlugFoundSummaryView {
    if destination.deleted_at.is_some() {
        SlugFoundSummaryView::DestinationDeleted(destination, Some(alias))
    } else if alias.deleted_at.is_some() {
        SlugFoundSummaryView::AliasDeleted(alias, destination)
    } else {
        SlugFoundSummaryView::AliasExists(alias, destination)
    }
}

/// What follows the search for the destination with a slug
#[derive(Debug)]
pub enum DestinationSearched {
    /// A destination has the slug: the search is over
    Found(SlugFoundSummary),
    /// No destination has the slug: look for an alias with it, deleted or not
    FindAlias,
}

/// What follows the search for the alias with a slug
#[derive(Debug)]
pub enum AliasSearched {
    /// Nothing has the slug: the search is over, without a summary
    NotFound,
    /// An alias has the slug: load the destination that it names, deleted or
    /// not
    FindDestination(Alias),
}

/// The view of a destination that may be missing
pub open spec fn destination_view(destination: Option<Destination>) -> Option<DestinationView> {
    match destination {
        Some(destination) => Some(destination@),
        None => None,
    }
}

/// The view of an alias that may be missing
pub open spec fn alias_view(alias: Option<Alias>) -> Option<AliasView> {
    match alias {
        Some(alias) => Some(alias@),
        None => None,
    }
}

/// First step of the search: the store was asked for the destination with
/// the slug, deleted or not.
pub fn destination_searched(destination: Option<Destination>) -> (next: DestinationSearched)
    ensures
        match destination {
            Some(found) => next matches DestinationSearched::Found(summary) && Some(summary@)
                == summary_of(Some(found@), None, found@),
            None => next is FindAlias,
        },
{
    match destination {
        Some(destination) => {
            if destination.is_deleted() {
                DestinationSearched::Found(SlugFoundSummary::DestinationDeleted(destination, None))
            } else {
                DestinationSearched::Found(SlugFoundSummary::DestinationExists(destination))
            }
        },
        None => DestinationSearched::FindAlias,
    }
}

/// Second step of the search: no destination has the slug, and the store was
/// asked for the alias with it, deleted or not.
pub fn alias_searched(alias: Option<Alias>) -> (next: AliasSearched)
    ensures
        match alias {
            Some(found) => next == AliasSearched::FindDestination(found),
            None => next is NotFound,
        },
{
    match alias {
        Some(alias) => AliasSearched::FindDestination(alias),
        None => AliasSearched::NotFound,
    }
}

/// Last step of the search: the store was asked for the destination that the
/// alias names, deleted or not.
pub fn alias_destination_searched(alias: Alias, destination: Destination) -> (summary:
    SlugFoundSummary)
    ensures
        Some(summary@) == summary_of(None, Some(alias@), destination@),
        summary@ == alias_summary_of(alias@, destination@),
{
    if destination.is_deleted() {
        SlugFoundSummary::DestinationDeleted(destination, Some(alias))
    } else if alias.is_deleted() {
        SlugFoundSummary::AliasDeleted(alias, destination)
    } else {
        SlugFoundSummary::AliasExists(alias, destination)
    }
}

/// A live alias whose destination is deleted stands for the deleted
/// destination, not for the alias: the deletion of a destination goes before
/// the state of its aliases.
pub proof fn lemma_deleted_destination_dominates(alias: AliasView, destination: DestinationView)
    requires
        destination.deleted_at.is_some(),
    ensures
        alias_summary_of(alias, destination) == SlugFoundSummaryView::DestinationDeleted(
            destination,
            Some(alias),
        ),
        summary_of(None, Some(alias), destination) == Some(
            SlugFoundSummaryView::DestinationDeleted(destination, Some(alias)),
        ),
        !(alias_summary_of(alias, destination) is AliasExists),
{
}

} // verus!
