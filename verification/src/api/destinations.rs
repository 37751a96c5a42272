//! Destinations API endpoints
//!
//! Everything related to the destinations management

use vstd::prelude::*;

use url::Url;

use super::aliases::alias_response_views;
use super::aliases::alias_responses;
use super::aliases::is_reserved;
use super::aliases::AliasResponse;
use super::aliases::AliasResponseView;
use super::notes::note_response_views;
use super::notes::note_responses;
use super::notes::NoteResponse;
use super::notes::NoteResponseView;
use super::request::parse_slug;
use super::request::parse_url;
use super::request::slug_refusal;
use super::response::failure;
use super::response::Error;
use super::response::BAD_REQUEST;
use crate::aliases::Alias;
use crate::database::form_types::UpdateDestinationValues;
use crate::destinations::Destination;
use crate::destinations::DestinationView;
use crate::normalization::nfc_of;
use crate::notes::Note;
use crate::text::begins_with;
use crate::text::trimmed;
use crate::timestamp::Timestamp;
use crate::urls::url_parse;
use crate::urls::url_text;

verus! {

/// Destination response going to the user
///
/// Basically filtering which fields are shown to the user
#[derive(Debug)]
pub struct DestinationResponse {
    /// Destination ID
    pub id: u128,
    /// Slug used to identify the destination by the root
    pub slug: String,
    /// Url where root will redirect to
    pub url: String,
    /// Type of destination
    pub is_permanent: bool,
    /// Should the query parameters of the root endpoint be forwarded to the destination?
    ///
    /// Only query parameters that are _not_ present in the `url` will be added
    pub forward_query_parameters: bool,
    /// Creation date
    pub created_at: Timestamp,
    /// Last updated at
    pub updated_at: Timestamp,
    /// List of aliases
    pub aliases: Option<Vec<AliasResponse>>,
    /// List of notes
    pub notes: Option<Vec<NoteResponse>>,
}

/// What a destination response holds, as mathematical values
pub struct DestinationResponseView {
    pub id: u128,
    pub slug: Seq<char>,
    pub url: Seq<char>,
    pub is_permanent: bool,
    pub forward_query_parameters: bool,
    pub created_at: Timestamp,
    pub updated_at: Timestamp,
    pub aliases: Option<Seq<AliasResponseView>>,
    pub notes: Option<Seq<NoteResponseView>>,
}

impl View for DestinationResponse {
    type V = DestinationResponseView;

    open spec fn view(&self) -> DestinationResponseView {
        DestinationResponseView {
            id: self.id,
            slug: self.slug@,
            url: self.url@,
            is_permanent: self.is_permanent,
            forward_query_parameters: self.forward_query_parameters,
            created_at: self.created_at,
            updated_at: self.updated_at,
            aliases: match self.aliases {
                Some(aliases) => Some(alias_response_views(aliases@)),
                None => None,
            },
            notes: match self.notes {
                Some(notes) => Some(note_response_views(notes@)),
                None => None,
            },
        }
    }
}

impl DestinationView {
    /// The response that shows the destination, with the aliases and the
    /// notes that go with it where they are asked for
    pub open spec fn response(
        self,
        aliases: Option<Seq<Alias>>,
        notes: Option<Seq<Note>>,
    ) -> DestinationResponseView {
        DestinationResponseView {
            id: self.id,
            slug: self.slug,
            url: self.url,
            is_permanent: self.is_permanent,
            forward_query_parameters: self.forward_query_parameters,
            created_at: self.created_at,
            updated_at: self.updated_at,
            aliases: match aliases {
                Some(aliases) => Some(alias_responses(aliases)),
                None => None,
            },
            notes: match notes {
                Some(notes) => Some(note_responses(notes)),
                None => None,
            },
        }
    }
}

/// What a list that may be missing holds
pub open spec fn listed<T>(list: Option<Vec<T>>) -> Option<Seq<T>> {
    match list {
        Some(list) => Some(list@),
        None => None,
    }
}

impl DestinationResponse {
    /// Create a response from a [`Destination`](Destination)
    ///
    /// Basically filtering which fields are shown to the user
    pub fn from_destination(
        destination: Destination,
        aliases: Option<Vec<Alias>>,
        notes: Option<Vec<Note>>,
    ) -> (response: Self)
        ensures
            response@ == destination@.response(listed(aliases), listed(notes)),
    {
        Self {
            id: destination.id,
            slug: destination.slug,
            url: destination.url,
            is_permanent: destination.is_permanent,
            forward_query_parameters: destination.forward_query_parameters,
            created_at: destination.created_at,
            updated_at: destination.updated_at,
            aliases: match aliases {
                Some(aliases) => Some(AliasResponse::from_alias_multiple(aliases)),
                None => None,
            },
            notes: match notes {
                Some(notes) => Some(NoteResponse::from_note_multiple(notes)),
                None => None,
            },
        }
    }
}

/// Filtering twice keeps what a filter keeps that agrees, on every item of
/// the list, with both filters together.
proof fn lemma_filter_then<T>(
    items: Seq<T>,
    first: spec_fn(T) -> bool,
    second: spec_fn(T) -> bool,
    both: spec_fn(T) -> bool,
)
    requires
        forall|i: int|
            0 <= i < items.len() ==> both(#[trigger] items[i]) == (first(items[i]) && second(
                items[i],
            )),
    ensures
        items.filter(first).filter(second) == items.filter(both),
    decreases items.len(),
{
    if items.len() == 0 {
        reveal(Seq::filter);
        assert(items.filter(first) =~= Seq::<T>::empty());
        assert(items.filter(both) =~= Seq::<T>::empty());
        assert(Seq::<T>::empty().filter(second) =~= Seq::<T>::empty());
    } else {
        let rest = items.drop_last();
        let last = items.last();
        assert forall|i: int| 0 <= i < rest.len() implies both(#[trigger] rest[i]) == (first(
            rest[i],
        ) && second(rest[i])) by {
            assert(rest[i] == items[i]);
        }
        lemma_filter_then(rest, first, second, both);
        assert(rest.push(last) =~= items);
        assert(both(items[items.len() - 1]) == (first(last) && second(last)));
        rest.lemma_filter_push(last, first);
        rest.lemma_filter_push(last, both);
        if first(last) {
            rest.filter(first).lemma_filter_push(last, second);
        }
    }
}

/// A filter that keeps every item of a list keeps the list as it is.
proof fn lemma_filter_all<T>(items: Seq<T>, keep: spec_fn(T) -> bool)
    requires
        forall|i: int| 0 <= i < items.len() ==> keep(#[trigger] items[i]),
    ensures
        items.filter(keep) == items,
    decreases items.len(),
{
    if items.len() == 0 {
        reveal(Seq::filter);
    } else {
        let rest = items.drop_last();
        assert forall|i: int| 0 <= i < rest.len() implies keep(#[trigger] rest[i]) by {
            assert(rest[i] == items[i]);
        }
        lemma_filter_all(rest, keep);
        assert(rest.push(items.last()) =~= items);
        assert(keep(items[items.len() - 1]));
        rest.lemma_filter_push(items.last(), keep);
    }
}

/// Whether one of the first `upto` destinations has the identifier
pub open spec fn listed_before(destinations: Seq<Destination>, upto: int, id: u128) -> bool {
    exists|j: int| 0 <= j < upto && j < destinations.len() && #[trigger] destinations[j].id == id
}

/// The aliases of the destination with the identifier
pub open spec fn alias_of(id: u128) -> spec_fn(Alias) -> bool {
    |alias: Alias| alias.destination_id == id
}

/// The aliases of other destinations than the one with the identifier
pub open spec fn alias_of_other(id: u128) -> spec_fn(Alias) -> bool {
    |alias: Alias| alias.destination_id != id
}

/// The aliases of none of the first `upto` destinations
pub open spec fn alias_left(destinations: Seq<Destination>, upto: int) -> spec_fn(Alias) -> bool {
    |alias: Alias| !listed_before(destinations, upto, alias.destination_id)
}

/// The aliases of the destination at `index`, unless a destination earlier
/// in the list has the same identifier
pub open spec fn alias_at(destinations: Seq<Destination>, index: int) -> spec_fn(Alias) -> bool {
    |alias: Alias|
        alias.destination_id == destinations[index].id && !listed_before(
            destinations,
            index,
            alias.destination_id,
        )
}

/// The notes of the destination with the identifier
pub open spec fn note_of(id: u128) -> spec_fn(Note) -> bool {
    |note: Note| note.destination_id == id
}

/// The notes of other destinations than the one with the identifier
pub open spec fn note_of_other(id: u128) -> spec_fn(Note) -> bool {
    |note: Note| note.destination_id != id
}

/// The notes of none of the first `upto` destinations
pub open spec fn note_left(destinations: Seq<Destination>, upto: int) -> spec_fn(Note) -> bool {
    |note: Note| !listed_before(destinations, upto, note.destination_id)
}

/// The notes of the destination at `index`, unless a destination earlier in
/// the list has the same identifier
pub open spec fn note_at(destinations: Seq<Destination>, index: int) -> spec_fn(Note) -> bool {
    |note: Note|
        note.destination_id == destinations[index].id && !listed_before(
            destinations,
            index,
            note.destination_id,
        )
}

/// An identifier is listed before the place after `index` exactly when it is
/// listed before `index` or is the identifier at `index`.
proof fn lemma_listed_before(destinations: Seq<Destination>, index: int, id: u128)
    requires
        0 <= index < destinations.len(),
    ensures
        listed_before(destinations, index + 1, id) == (listed_before(destinations, index, id)
            || destinations[index].id == id),
{
    if listed_before(destinations, index + 1, id) {
        let j = choose|j: int|
            0 <= j < index + 1 && j < destinations.len() && #[trigger] destinations[j].id == id;
        if j < index {
            assert(listed_before(destinations, index, id));
        }
    }
    if listed_before(destinations, index, id) {
        let j = choose|j: int|
            0 <= j < index && j < destinations.len() && #[trigger] destinations[j].id == id;
        assert(0 <= j < index + 1 && destinations[j].id == id);
    }
    if destinations[index].id == id {
        assert(listed_before(destinations, index + 1, id));
    }
}

/// Parting the aliases that are left at `index` gives those that go with the
/// destination at `index`, and leaves those that are left after it.
proof fn lemma_part_aliases(list: Seq<Alias>, destinations: Seq<Destination>, index: int)
    requires
        0 <= index < destinations.len(),
    ensures
        list.filter(alias_left(destinations, index)).filter(alias_of(destinations[index].id))
            == list.filter(alias_at(destinations, index)),
        list.filter(alias_left(destinations, index)).filter(
            alias_of_other(destinations[index].id),
        ) == list.filter(alias_left(destinations, index + 1)),
{
    let id = destinations[index].id;
    assert forall|i: int| 0 <= i < list.len() implies alias_left(destinations, index + 1)(
        #[trigger] list[i],
    ) == (alias_left(destinations, index)(list[i]) && alias_of_other(id)(list[i])) by {
        lemma_listed_before(destinations, index, list[i].destination_id);
    }
    lemma_filter_then(
        list,
        alias_left(destinations, index),
        alias_of(id),
        alias_at(destinations, index),
    );
    lemma_filter_then(
        list,
        alias_left(destinations, index),
        alias_of_other(id),
        alias_left(destinations, index + 1),
    );
}

/// Parting the notes that are left at `index` gives those that go with the
/// destination at `index`, and leaves those that are left after it.
proof fn lemma_part_notes(list: Seq<Note>, destinations: Seq<Destination>, index: int)
    requires
        0 <= index < destinations.len(),
    ensures
        list.filter(note_left(destinations, index)).filter(note_of(destinations[index].id))
            == list.filter(note_at(destinations, index)),
        list.filter(note_left(destinations, index)).filter(note_of_other(destinations[index].id))
            == list.filter(note_left(destinations, index + 1)),
{
    let id = destinations[index].id;
    assert forall|i: int| 0 <= i < list.len() implies note_left(destinations, index + 1)(
        #[trigger] list[i],
    ) == (note_left(destinations, index)(list[i]) && note_of_other(id)(list[i])) by {
        lemma_listed_before(destinations, index, list[i].destination_id);
    }
    lemma_filter_then(
        list,
        note_left(destinations, index),
        note_of(id),
        note_at(destinations, index),
    );
    lemma_filter_then(
        list,
        note_left(destinations, index),
        note_of_other(id),
        note_left(destinations, index + 1),
    );
}

/// Part the aliases into those of a destination and the others, each part in
/// the order of the whole
fn part_aliases(aliases: Vec<Alias>, destination_id: u128) -> (parts: (Vec<Alias>, Vec<Alias>))
    ensures
        parts.0@ == aliases@.filter(alias_of(destination_id)),
        parts.1@ == aliases@.filter(alias_of_other(destination_id)),
{
    let ghost own = alias_of(destination_id);
    let ghost other = alias_of_other(destination_id);
    let mut for_destination: Vec<Alias> = Vec::new();
    let mut rest: Vec<Alias> = Vec::new();
    proof {
        reveal(Seq::filter);
        assert(aliases@.take(0).filter(own) =~= for_destination@);
        assert(aliases@.take(0).filter(other) =~= rest@);
    }
    for alias in it: aliases
        invariant
            it.seq() == aliases@,
            own == alias_of(destination_id),
            other == alias_of_other(destination_id),
            for_destination@ == aliases@.take(it.index() as int).filter(own),
            rest@ == aliases@.take(it.index() as int).filter(other),
    {
        proof {
            let before = aliases@.take(it.index() as int);
            assert(aliases@.take(it.index() + 1) =~= before.push(alias));
            before.lemma_filter_push(alias, own);
            before.lemma_filter_push(alias, other);
        }
        if alias.destination_id == destination_id {
            for_destination.push(alias);
        } else {
            rest.push(alias);
        }
    }
    proof {
        assert(aliases@.take(aliases@.len() as int) =~= aliases@);
    }
    (for_destination, rest)
}

/// Part the notes into those of a destination and the others, each part in
/// the order of the whole
fn part_notes(notes: Vec<Note>, destination_id: u128) -> (parts: (Vec<Note>, Vec<Note>))
    ensures
        parts.0@ == notes@.filter(note_of(destination_id)),
        parts.1@ == notes@.filter(note_of_other(destination_id)),
{
    let ghost own = note_of(destination_id);
    let ghost other = note_of_other(destination_id);
    let mut for_destination: Vec<Note> = Vec::new();
    let mut rest: Vec<Note> = Vec::new();
    proof {
        reveal(Seq::filter);
        assert(notes@.take(0).filter(own) =~= for_destination@);
        assert(notes@.take(0).filter(other) =~= rest@);
    }
    for note in it: notes
        invariant
            it.seq() == notes@,
            own == note_of(destination_id),
            other == note_of_other(destination_id),
            for_destination@ == notes@.take(it.index() as int).filter(own),
            rest@ == notes@.take(it.index() as int).filter(other),
    {
        proof {
            let before = notes@.take(it.index() as int);
            assert(notes@.take(it.index() + 1) =~= before.push(note));
            before.lemma_filter_push(note, own);
            before.lemma_filter_push(note, other);
        }
        if note.destination_id == destination_id {
            for_destination.push(note);
        } else {
            rest.push(note);
        }
    }
    proof {
        assert(notes@.take(notes@.len() as int) =~= notes@);
    }
    (for_destination, rest)
}

/// The aliases that go with the destination at `index` of a list: those that
/// name it, unless a destination earlier in the list has the same identifier
/// and took them
pub open spec fn aliases_at(
    aliases: Seq<Alias>,
    destinations: Seq<Destination>,
    index: int,
) -> Seq<Alias> {
    aliases.filter(alias_at(destinations, index))
}

/// The notes that go with the destination at `index` of a list: those that
/// name it, unless a destination earlier in the list has the same identifier
/// and took them
pub open spec fn notes_at(notes: Seq<Note>, destinations: Seq<Destination>, index: int) -> Seq<
    Note,
> {
    notes.filter(note_at(destinations, index))
}

/// The response for the destination at `index` of a list
pub open spec fn response_at(
    destinations: Seq<Destination>,
    aliases: Option<Seq<Alias>>,
    notes: Option<Seq<Note>>,
    index: int,
) -> DestinationResponseView {
    destinations[index]@.response(
        match aliases {
            Some(aliases) => Some(aliases_at(aliases, destinations, index)),
            None => None,
        },
        match notes {
            Some(notes) => Some(notes_at(notes, destinations, index)),
            None => None,
        },
    )
}

/// Destination response builder, for a single destination or for a list
pub struct DestinationResponseBuilder<D> {
    /// The destination or destinations to build the response for
    pub destinations: D,
    /// Optional aliases to include in the response(s)
    pub aliases: Option<Vec<Alias>>,
    /// Optional notes to include in the response(s)
    pub notes: Option<Vec<Note>>,
}

impl<D> DestinationResponseBuilder<D> {
    /// With aliases to include in the response(s)
    pub fn with_aliases(self, aliases: Vec<Alias>) -> (builder: Self)
        ensures
            builder.destinations == self.destinations,
            builder.aliases == Some(aliases),
            builder.notes == self.notes,
    {
        Self { destinations: self.destinations, aliases: Some(aliases), notes: self.notes }
    }

    /// With notes to include in the response(s)
    pub fn with_notes(self, notes: Vec<Note>) -> (builder: Self)
        ensures
            builder.destinations == self.destinations,
            builder.aliases == self.aliases,
            builder.notes == Some(notes),
    {
        Self { destinations: self.destinations, aliases: self.aliases, notes: Some(notes) }
    }
}

impl DestinationResponseBuilder<Destination> {
    /// Create a response builder for a single [`Destination`](Destination)
    pub fn single(destination: Destination) -> (builder: Self)
        ensures
            builder.destinations == destination,
            builder.aliases is None,
            builder.notes is None,
    {
        DestinationResponseBuilder { destinations: destination, aliases: None, notes: None }
    }

    /// The identifiers of the current destinations
    ///
    /// Just a single one
    pub fn destination_ids(&self) -> (ids: Vec<u128>)
        ensures
            ids@ == seq![self.destinations.id],
    {
        let mut ids: Vec<u128> = Vec::new();
        ids.push(self.destinations.id);
        ids
    }

    /// Build the single destination response
    pub fn build(self) -> (response: DestinationResponse)
        ensures
            response@ == self.destinations@.response(listed(self.aliases), listed(self.notes)),
    {
        DestinationResponse::from_destination(self.destinations, self.aliases, self.notes)
    }
}

/// The identifiers of the destinations, in their order
pub open spec fn ids_of(destinations: Seq<Destination>) -> Seq<u128> {
    destinations.map_values(|destination: Destination| destination.id)
}

impl DestinationResponseBuilder<Vec<Destination>> {
    /// Create a response builder for multiple [`Destination`](Destination)s
    pub fn multiple(destinations: Vec<Destination>) -> (builder: Self)
        ensures
            builder.destinations == destinations,
            builder.aliases is None,
            builder.notes is None,
    {
        DestinationResponseBuilder { destinations, aliases: None, notes: None }
    }

    /// The identifiers of the current destinations, in their order
    pub fn destination_ids(&self) -> (ids: Vec<u128>)
        ensures
            ids@ == ids_of(self.destinations@),
    {
        let mut ids: Vec<u128> = Vec::new();
        let mut i: usize = 0;
        while i < self.destinations.len()
            invariant
                i <= self.destinations.len(),
                ids@ == ids_of(self.destinations@.take(i as int)),
            decreases self.destinations.len() - i,
        {
            proof {
                assert(ids_of(self.destinations@.take(i + 1)) =~= ids_of(
                    self.destinations@.take(i as int),
                ).push(self.destinations@[i as int].id));
            }
            ids.push(self.destinations[i].id);
            i = i + 1;
        }
        proof {
            assert(self.destinations@.take(self.destinations@.len() as int)
                =~= self.destinations@);
        }
        ids
    }

    /// Build the multiple destinations response
    ///
    /// Each destination gets the aliases and the notes that name it, in
    /// their order.
    pub fn build(self) -> (responses: Vec<DestinationResponse>)
        ensures
            responses@.len() == self.destinations@.len(),
            forall|i: int|
                0 <= i < responses@.len() ==> #[trigger] responses@[i]@ == response_at(
                    self.destinations@,
                    listed(self.aliases),
                    listed(self.notes),
                    i,
                ),
    {
        let ghost all = self.destinations@;
        let ghost all_aliases = listed(self.aliases);
        let ghost all_notes = listed(self.notes);
        let mut aliases = self.aliases;
        let mut notes = self.notes;
        let mut responses: Vec<DestinationResponse> = Vec::new();
        proof {
            if let Some(list) = all_aliases {
                lemma_filter_all(list, alias_left(all, 0));
            }
            if let Some(list) = all_notes {
                lemma_filter_all(list, note_left(all, 0));
            }
        }
        for destination in it: self.destinations
            invariant
                it.seq() == all,
                responses@.len() == it.index(),
                forall|i: int|
                    0 <= i < responses@.len() ==> #[trigger] responses@[i]@ == response_at(
                        all,
                        all_aliases,
                        all_notes,
                        i,
                    ),
                match all_aliases {
                    Some(list) => aliases matches Some(left) && left@ == list.filter(
                        alias_left(all, it.index() as int),
                    ),
                    None => aliases is None,
                },
                match all_notes {
                    Some(list) => notes matches Some(left) && left@ == list.filter(
                        note_left(all, it.index() as int),
                    ),
                    None => notes is None,
                },
        {
            let ghost index = it.index() as int;
            let id = destination.id;
            proof {
                if let Some(list) = all_aliases {
                    lemma_part_aliases(list, all, index);
                }
                if let Some(list) = all_notes {
                    lemma_part_notes(list, all, index);
                }
            }
            let filtered_aliases = match aliases {
                Some(left) => {
                    let (for_destination, rest) = part_aliases(left, id);
                    aliases = Some(rest);
                    Some(for_destination)
                },
                None => {
                    aliases = None;
                    None
                },
            };
            let filtered_notes = match notes {
                Some(left) => {
                    let (for_destination, rest) = part_notes(left, id);
                    notes = Some(rest);
                    Some(for_destination)
                },
                None => {
                    notes = None;
                    None
                },
            };
            let response = DestinationResponse::from_destination(
                destination,
                filtered_aliases,
                filtered_notes,
            );
            proof {
                assert(response@ == response_at(all, all_aliases, all_notes, index));
            }
            responses.push(response);
        }
        responses
    }
}

/// Create destination form
///
/// Fields to create a destination with
#[derive(Debug)]
pub struct CreateDestinationForm {
    /// Slug to create a destination with
    ///
    /// The slug is normalized:
    /// - Leading and trailing slashes are removed
    /// - Unicode normalization
    pub slug: String,
    /// Url to create a destination with
    pub url: String,
    /// Type to create a destination with
    pub is_permanent: Option<bool>,
    /// Should the query parameters of the root endpoint be forwarded to the destination?
    ///
    /// Only query parameters that are _not_ present in the `url` will be added
    pub forward_query_parameters: Option<bool>,
}

/// Update destination form
///
/// Fields to update a destination with, all fields are optional and are not touched when not
/// provided
#[derive(Debug)]
pub struct UpdateDestinationForm {
    /// New URL to update destination with
    pub url: Option<String>,
    /// Type to update destination with
    ///
    /// Can only be set to `false` if the destination already has `is_permanent=true`, otherwise
    /// only `true` is valid
    pub is_permanent: Option<bool>,
    /// Should the query parameters of the root endpoint be forwarded to the destination?
    ///
    /// Only query parameters that are _not_ present in the `url` will be added
    pub forward_query_parameters: Option<bool>,
}

/// What a destination is created with, once its form was checked
pub struct NewDestination {
    /// The slug, normalized
    pub slug: String,
    /// The URL the destination redirects to
    pub url: Url,
    /// Make the destination as permanent
    pub is_permanent: bool,
    /// Should the query parameters of the root endpoint be forwarded to the destination?
    pub forward_query_parameters: bool,
}

/// Why a form to create a destination is refused, if it is: for its slug,
/// then for its URL, then for a slug that starts with the prefix of the API
pub open spec fn create_refusal(slug: Seq<char>, url: Seq<char>) -> Option<Seq<char>> {
    match slug_refusal(trimmed(slug)) {
        Some(message) => Some(message),
        None => match url_parse(url) {
            Err(message) => Some(message),
            Ok(_) => if is_reserved(nfc_of(trimmed(slug))) {
                Some("Slug can not start with 'api/'"@)
            } else {
                None
            },
        },
    }
}

/// Check the form to create a destination
///
/// The slug is parsed and normalized, the URL is parsed, and a slug that
/// starts with the prefix of the API is refused. A destination is neither
/// permanent nor forwarding unless the form says so.
pub fn create(form: &CreateDestinationForm) -> (checked: Result<NewDestination, Error>)
    ensures
        match create_refusal(form.slug@, form.url@) {
            Some(message) => checked matches Err(error) && error@ == failure(BAD_REQUEST, message),
            None => checked matches Ok(values) && values.slug@ == nfc_of(trimmed(form.slug@))
                && url_parse(form.url@) == Ok::<Seq<char>, Seq<char>>(url_text(values.url))
                && values.is_permanent == (form.is_permanent == Some(true))
                && values.forward_query_parameters == (form.forward_query_parameters == Some(
                true,
            )),
        },
{
    let slug = parse_slug(form.slug.as_str())?;
    let url = parse_url(form.url.as_str())?;
    if begins_with(slug.as_str(), "api/") {
        return Err(Error::bad_request("Slug can not start with 'api/'"));
    }
    Ok(
        NewDestination {
            slug,
            url,
            is_permanent: match form.is_permanent {
                Some(is_permanent) => is_permanent,
                None => false,
            },
            forward_query_parameters: match form.forward_query_parameters {
                Some(forward_query_parameters) => forward_query_parameters,
                None => false,
            },
        },
    )
}

/// Why a form to update a destination is refused, if it is: permanent
/// destinations are never updated, and a new URL has to parse
pub open spec fn update_refusal(destination: DestinationView, url: Option<Seq<char>>) -> Option<
    Seq<char>,
> {
    if destination.is_permanent {
        Some("Permanent URLs can not be updated"@)
    } else {
        match url {
            Some(url) => match url_parse(url) {
                Err(message) => Some(message),
                Ok(_) => None,
            },
            None => None,
        }
    }
}

/// The view of a text that may be missing
pub open spec fn text_view(text: Option<String>) -> Option<Seq<char>> {
    match text {
        Some(text) => Some(text@),
        None => None,
    }
}

/// Check the form to update a destination
///
/// Only provided values are processed, the other fields of the destination
/// will not be touched. Permanent destinations can not be updated.
pub fn update<'a>(destination: &Destination, form: &'a UpdateDestinationForm) -> (checked: Result<
    UpdateDestinationValues<'a>,
    Error,
>)
    ensures
        match update_refusal(destination@, text_view(form.url)) {
            Some(message) => checked matches Err(error) && error@ == failure(BAD_REQUEST, message),
            None => checked matches Ok(values) && (match form.url {
                Some(url) => values.url matches Some(parsed) && url_parse(url@) == Ok::<
                    Seq<char>,
                    Seq<char>,
                >(url_text(parsed)),
                None => values.url is None,
            }) && (match form.is_permanent {
                Some(is_permanent) => values.is_permanent matches Some(given) && *given
                    == is_permanent,
                None => values.is_permanent is None,
            }) && (match form.forward_query_parameters {
                Some(forward) => values.forward_query_parameters matches Some(given) && *given
                    == forward,
                None => values.forward_query_parameters is None,
            }),
        },
{
    if destination.is_permanent {
        return Err(Error::bad_request("Permanent URLs can not be updated"));
    }
    let url = match &form.url {
        Some(url) => Some(parse_url(url.as_str())?),
        None => None,
    };
    Ok(
        UpdateDestinationValues {
            url,
            is_permanent: form.is_permanent.as_ref(),
            forward_query_parameters: form.forward_query_parameters.as_ref(),
        },
    )
}

/// Check that a destination can be deleted
///
/// Permanent destinations can not be deleted
pub fn delete(destination: &Destination) -> (checked: Result<(), Error>)
    ensures
        match checked {
            Ok(_) => !destination@.is_permanent,
            Err(error) => destination@.is_permanent && error@ == failure(
                BAD_REQUEST,
                "Permanent URLs can not be deleted"@,
            ),
        },
{
    if destination.is_permanent {
        return Err(Error::bad_request("Permanent URLs can not be deleted"));
    }
    Ok(())
}

} // verus!
