//! The root!
//!
//! The most important part: the actual redirect logic

use vstd::prelude::*;
use vstd::slice::*;
use vstd::string::StringExecFns;
use vstd::utf8::encode_utf8;

use tokio::sync::mpsc::Sender;

use crate::api::response::failure;
use crate::api::response::Error;
use crate::api::response::BAD_REQUEST;
use crate::api::response::INTERNAL_SERVER_ERROR;
use crate::api::response::NOT_FOUND;
use crate::client_ip::ClientIp;
use crate::client_ip::IpAddress;
use crate::database::page_hits::schedule_save_hit;
use crate::database::page_hits::scheduling_error;
use crate::database::page_hits::PageHitInformation;
use crate::database::page_hits::SendOutcome;
use crate::database::summary::SlugFoundSummary;
use crate::database::summary::SlugFoundSummaryView;
use crate::destinations::Destination;
use crate::destinations::DestinationView;
use crate::normalization::nfc;
use crate::normalization::nfc_of;
use crate::percent::decoded_text;
use crate::percent::percent_decode_utf8;
use crate::text::trim_one_separator;
use crate::text::trimmed_once;
use crate::timestamp::Timestamp;
use crate::urls::as_str;
use crate::urls::extend_query;
use crate::urls::growth;
use crate::urls::has_room;
use crate::urls::pairs_view;
use crate::urls::query_pairs;
use crate::urls::url_extended;
use crate::urls::url_parse;
use crate::urls::url_query_pairs;
use crate::urls::QueryPair;
use crate::urls::MAX_URL_BYTES;

verus! {

/// Status code `307 Temporary redirect`
pub const TEMPORARY_REDIRECT: u16 = 307;

/// Status code `308 Permanent redirect`
pub const PERMANENT_REDIRECT: u16 = 308;

/// Status code `410 Gone`
pub const GONE: u16 = 410;

/// What a request to the root is answered with
#[derive(Debug)]
pub enum RedirectOutcome {
    /// Redirect for now, to the location
    Temporary(String),
    /// Redirect for good, to the location
    Permanent(String),
    /// Nothing has the slug
    NotFound,
    /// What has the slug was deleted
    Gone,
    /// The request cannot be served as it is; with the reason
    BadRequest(String),
    /// The slug could not be looked up; nothing of the failure is shown
    InternalServerError,
}

/// What an outcome holds, as mathematical values
pub enum RedirectOutcomeView {
    Temporary(Seq<char>),
    Permanent(Seq<char>),
    NotFound,
    Gone,
    BadRequest(Seq<char>),
    InternalServerError,
}

impl View for RedirectOutcome {
    type V = RedirectOutcomeView;

    open spec fn view(&self) -> RedirectOutcomeView {
        match self {
            RedirectOutcome::Temporary(location) => RedirectOutcomeView::Temporary(location@),
            RedirectOutcome::Permanent(location) => RedirectOutcomeView::Permanent(location@),
            RedirectOutcome::NotFound => RedirectOutcomeView::NotFound,
            RedirectOutcome::Gone => RedirectOutcomeView::Gone,
            RedirectOutcome::BadRequest(reason) => RedirectOutcomeView::BadRequest(reason@),
            RedirectOutcome::InternalServerError => RedirectOutcomeView::InternalServerError,
        }
    }
}

impl RedirectOutcomeView {
    /// The status code of the response
    pub open spec fn status_code(self) -> u16 {
        match self {
            RedirectOutcomeView::Temporary(_) => TEMPORARY_REDIRECT,
            RedirectOutcomeView::Permanent(_) => PERMANENT_REDIRECT,
            RedirectOutcomeView::NotFound => NOT_FOUND,
            RedirectOutcomeView::Gone => GONE,
            RedirectOutcomeView::BadRequest(_) => BAD_REQUEST,
            RedirectOutcomeView::InternalServerError => INTERNAL_SERVER_ERROR,
        }
    }

    /// The location that the response redirects to, if it redirects
    pub open spec fn location(self) -> Option<Seq<char>> {
        match self {
            RedirectOutcomeView::Temporary(location) => Some(location),
            RedirectOutcomeView::Permanent(location) => Some(location),
            _ => None,
        }
    }

    /// The message for the error page, where the response shows one with a
    /// message
    pub open spec fn message(self) -> Option<Seq<char>> {
        match self {
            RedirectOutcomeView::Gone => Some("Page not longer exists"@),
            RedirectOutcomeView::BadRequest(reason) => Some(reason),
            RedirectOutcomeView::InternalServerError => Some("Internal server error"@),
            _ => None,
        }
    }
}

impl RedirectOutcome {
    /// The status code of the response
    pub fn status_code(&self) -> (status_code: u16)
        ensures
            status_code == self@.status_code(),
    {
        match self {
            RedirectOutcome::Temporary(_) => TEMPORARY_REDIRECT,
            RedirectOutcome::Permanent(_) => PERMANENT_REDIRECT,
            RedirectOutcome::NotFound => NOT_FOUND,
            RedirectOutcome::Gone => GONE,
            RedirectOutcome::BadRequest(_) => BAD_REQUEST,
            RedirectOutcome::InternalServerError => INTERNAL_SERVER_ERROR,
        }
    }

    /// The location that the response redirects to, if it redirects
    pub fn location(&self) -> (location: Option<&str>)
        ensures
            match location {
                Some(location) => self@.location() == Some(location@),
                None => self@.location() is None,
            },
    {
        match self {
            RedirectOutcome::Temporary(location) => Some(location.as_str()),
            RedirectOutcome::Permanent(location) => Some(location.as_str()),
            _ => None,
        }
    }

    /// The message for the error page, where the response shows one with a
    /// message
    pub fn message(&self) -> (message: Option<String>)
        ensures
            match message {
                Some(message) => self@.message() == Some(message@),
                None => self@.message() is None,
            },
    {
        match self {
            RedirectOutcome::Gone => Some(String::from_str("Page not longer exists")),
            RedirectOutcome::BadRequest(reason) => Some(reason.clone()),
            RedirectOutcome::InternalServerError => Some(String::from_str("Internal server error")),
            _ => None,
        }
    }
}

/// The slug that a percent-encoded text stands for, where it stands for one:
/// the decoded text in NFC form
pub open spec fn decoded_slug(slug: Seq<char>) -> Option<Seq<char>> {
    match decoded_text(slug) {
        Some(text) => Some(nfc_of(text)),
        None => None,
    }
}

/// URL decode slug
///
/// Will:
/// - Convert percent encoded characters to their UTF-8 representation
/// - Normalize the slug to NFC form (same as database storage)
///
/// Gives a bad request where the decoded bytes are no UTF-8
pub fn url_decode_slug(slug: &str) -> (decoded: Result<String, RedirectOutcome>)
    ensures
        match decoded_slug(slug@) {
            Some(text) => decoded matches Ok(normalized) && normalized@ == text,
            None => decoded matches Err(outcome) && outcome@ == RedirectOutcomeView::BadRequest(
                "URL contains invalid UTF-8 characters"@,
            ),
        },
{
    match percent_decode_utf8(slug) {
        Some(decoded) => Ok(nfc(decoded.as_str())),
        None => Err(
            RedirectOutcome::BadRequest(String::from_str("URL contains invalid UTF-8 characters")),
        ),
    }
}

/// The slug that the path of a request asks for: the path percent-decoded,
/// normalized, and without one separator at its start and one at its end
pub open spec fn slug_of(path: Seq<char>) -> Option<Seq<char>> {
    match decoded_slug(path) {
        Some(text) => Some(trimmed_once(text)),
        None => None,
    }
}

/// The slug that the path of a request asks for
///
/// Gives a bad request where the path does not decode to UTF-8
pub fn request_slug(path: &str) -> (slug: Result<String, RedirectOutcome>)
    ensures
        match slug_of(path@) {
            Some(text) => slug matches Ok(key) && key@ == text,
            None => slug matches Err(outcome) && outcome@ == RedirectOutcomeView::BadRequest(
                "URL contains invalid UTF-8 characters"@,
            ),
        },
{
    match url_decode_slug(path) {
        Ok(decoded) => Ok(String::from_str(trim_one_separator(decoded.as_str()))),
        Err(outcome) => Err(outcome),
    }
}

/// Whether one of the pairs has the name
pub open spec fn has_name(pairs: Seq<(Seq<char>, Seq<char>)>, name: Seq<char>) -> bool {
    exists|i: int| 0 <= i < pairs.len() && #[trigger] pairs[i].0 == name
}

/// The incoming pairs that are forwarded: those whose name no pair of the
/// location has, in their order, with every value of a repeated name
pub open spec fn forwardable(
    existing: Seq<(Seq<char>, Seq<char>)>,
    incoming: Seq<(Seq<char>, Seq<char>)>,
) -> Seq<(Seq<char>, Seq<char>)> {
    incoming.filter(|pair: (Seq<char>, Seq<char>)| !has_name(existing, pair.0))
}

/// Whether one of the pairs has the name
fn names(pairs: &Vec<QueryPair>, name: &String) -> (found: bool)
    ensures
        found == has_name(pairs_view(pairs@), name@),
{
    let mut i: usize = 0;
    while i < pairs.len()
        invariant
            i <= pairs.len(),
            forall|k: int| 0 <= k < i ==> pairs_view(pairs@)[k].0 != name@,
        decreases pairs.len() - i,
    {
        if pairs[i].0 == *name {
            assert(pairs_view(pairs@)[i as int].0 == name@);
            return true;
        }
        i = i + 1;
    }
    false
}

/// Pick the incoming query pairs that are forwarded to a location
///
/// Pairs that are already in the location are skipped: the pairs of the
/// location are leading, and overwriting them could give problematic
/// redirects.
pub fn forwardable_pairs(existing: &Vec<QueryPair>, incoming: &Vec<QueryPair>) -> (forwarded: Vec<
    QueryPair,
>)
    ensures
        pairs_view(forwarded@) == forwardable(pairs_view(existing@), pairs_view(incoming@)),
{
    let mut forwarded: Vec<QueryPair> = Vec::new();
    let ghost keep = |pair: (Seq<char>, Seq<char>)| !has_name(pairs_view(existing@), pair.0);
    let mut i: usize = 0;
    proof {
        assert(pairs_view(incoming@).take(0) =~= Seq::empty());
        reveal(Seq::filter);
        assert(pairs_view(forwarded@) =~= Seq::empty());
    }
    while i < incoming.len()
        invariant
            i <= incoming.len(),
            keep == |pair: (Seq<char>, Seq<char>)| !has_name(pairs_view(existing@), pair.0),
            pairs_view(forwarded@) == pairs_view(incoming@).take(i as int).filter(keep),
        decreases incoming.len() - i,
    {
        let ghost before = pairs_view(incoming@).take(i as int);
        let ghost pair = pairs_view(incoming@)[i as int];
        proof {
            assert(pairs_view(incoming@).take(i + 1) =~= before.push(pair));
            before.lemma_filter_push(pair, keep);
        }
        if !names(existing, &incoming[i].0) {
            let name = incoming[i].0.clone();
            let value = incoming[i].1.clone();
            proof {
                assert(pairs_view(forwarded@.push((name, value))) =~= pairs_view(forwarded@).push(
                    pair,
                ));
            }
            forwarded.push((name, value));
        }
        i = i + 1;
    }
    proof {
        assert(pairs_view(incoming@).take(incoming@.len() as int) =~= pairs_view(incoming@));
    }
    forwarded
}

/// The pairs before a place make the query string grow no more than all the
/// pairs do.
proof fn lemma_growth(pairs: Seq<(Seq<char>, Seq<char>)>, upto: int)
    requires
        0 <= upto <= pairs.len(),
    ensures
        1 <= growth(pairs.take(upto)) <= growth(pairs),
    decreases pairs.len(),
{
    if upto == pairs.len() {
        assert(pairs.take(upto) =~= pairs);
        if pairs.len() > 0 {
            lemma_growth(pairs.drop_last(), upto - 1);
        }
    } else {
        lemma_growth(pairs.drop_last(), upto);
        assert(pairs.drop_last().take(upto) =~= pairs.take(upto));
    }
}

/// Whether the serialization of a URL stays within what the `url` crate can
/// hold when the pairs are appended to it
fn fits(text: &str, pairs: &Vec<QueryPair>) -> (room: bool)
    ensures
        room == has_room(text@, pairs_view(pairs@)),
{
    let limit: u64 = MAX_URL_BYTES as u64;
    let length = text.as_bytes().len();
    if length as u64 >= limit {
        proof {
            lemma_growth(pairs_view(pairs@), 0);
        }
        return false;
    }
    let mut total: u64 = length as u64 + 1;
    let mut i: usize = 0;
    proof {
        assert(pairs_view(pairs@).take(0) =~= Seq::empty());
    }
    while i < pairs.len()
        invariant
            i <= pairs.len(),
            limit == MAX_URL_BYTES,
            total <= limit,
            total == encode_utf8(text@).len() + growth(pairs_view(pairs@).take(i as int)),
        decreases pairs.len() - i,
    {
        let name = pairs[i].0.as_str().as_bytes().len();
        let value = pairs[i].1.as_str().as_bytes().len();
        proof {
            let all = pairs_view(pairs@);
            assert(all.take(i + 1).drop_last() =~= all.take(i as int));
            assert(all.take(i + 1).last() == all[i as int]);
            lemma_growth(all, i + 1);
        }
        if name as u64 > limit || value as u64 > limit {
            return false;
        }
        let more: u64 = 2 + 3 * (name as u64) + 3 * (value as u64);
        if more > limit - total {
            return false;
        }
        total = total + more;
        i = i + 1;
    }
    proof {
        assert(pairs_view(pairs@).take(pairs@.len() as int) =~= pairs_view(pairs@));
    }
    true
}

/// The URL that stands for the query string of a request when its pairs are
/// read
pub open spec fn incoming_location(query: Seq<char>) -> Seq<char> {
    "https://www.example.com/?"@ + query
}

/// The location that a redirect goes to when the query string of the request
/// is forwarded: the location with the forwardable pairs of the request
/// appended to its own, or the reason why there is none
pub open spec fn forwarded_location(location: Seq<char>, query: Seq<char>) -> Result<
    Seq<char>,
    Seq<char>,
> {
    match url_parse(location) {
        Err(reason) => Err(reason),
        Ok(text) => match url_parse(incoming_location(query)) {
            Err(reason) => Err(reason),
            Ok(incoming) => {
                let pairs = forwardable(url_query_pairs(text), url_query_pairs(incoming));
                if has_room(text, pairs) {
                    Ok(url_extended(text, pairs))
                } else {
                    Err("URLs more than 4 GB are not supported"@)
                }
            },
        },
    }
}

/// Forward the query string of a request to a location
///
/// Every pair of the request whose name the location does not have yet is
/// appended to the query string of the location, in the order of the request.
/// The pairs of the location stay as they are.
pub fn forward_query_parameters(location: &str, query: &str) -> (forwarded: Result<String, Error>)
    ensures
        match forwarded_location(location@, query@) {
            Ok(text) => forwarded matches Ok(target) && target@ == text,
            Err(reason) => forwarded matches Err(error) && error@ == failure(BAD_REQUEST, reason),
        },
{
    let mut location_parsed = match crate::urls::parse(location) {
        Ok(parsed) => parsed,
        Err(reason) => {
            return Err(Error::bad_request(reason.as_str()));
        },
    };
    let location_pairs = query_pairs(&location_parsed);
    let incoming = String::from_str("https://www.example.com/?").concat(query);
    let incoming_parsed = match crate::urls::parse(incoming.as_str()) {
        Ok(parsed) => parsed,
        Err(reason) => {
            return Err(Error::bad_request(reason.as_str()));
        },
    };
    let incoming_pairs = query_pairs(&incoming_parsed);
    let forwarded = forwardable_pairs(&location_pairs, &incoming_pairs);
    if !fits(as_str(&location_parsed), &forwarded) {
        return Err(Error::bad_request("URLs more than 4 GB are not supported"));
    }
    extend_query(&mut location_parsed, &forwarded);
    Ok(String::from_str(as_str(&location_parsed)))
}

/// The location that a redirect to the destination goes to, or the reason
/// why there is none. The query string of the request is forwarded only where
/// the destination asks for it and the request has one.
pub open spec fn target_of(destination: DestinationView, query: Option<Seq<char>>) -> Result<
    Seq<char>,
    Seq<char>,
> {
    match query {
        Some(query) if destination.forward_query_parameters => forwarded_location(
            destination.url,
            query,
        ),
        _ => Ok(destination.url),
    }
}

/// What a request is answered with, given what its slug stands for
pub open spec fn outcome_of(
    found: Result<Option<SlugFoundSummaryView>, ()>,
    query: Option<Seq<char>>,
) -> RedirectOutcomeView {
    match found {
        Err(_) => RedirectOutcomeView::InternalServerError,
        Ok(None) => RedirectOutcomeView::NotFound,
        Ok(Some(summary)) => if summary.is_deleted() {
            RedirectOutcomeView::Gone
        } else {
            match target_of(summary.destination(), query) {
                Err(reason) => RedirectOutcomeView::BadRequest(reason),
                Ok(location) => if summary.destination().is_permanent {
                    RedirectOutcomeView::Permanent(location)
                } else {
                    RedirectOutcomeView::Temporary(location)
                },
            }
        },
    }
}

/// The page hit that a request leaves, given what its slug stands for: one
/// for everything that was found, deleted or not
pub open spec fn page_hit_of(
    found: Result<Option<SlugFoundSummaryView>, ()>,
    ip_address: Option<IpAddress>,
    user_agent: Option<String>,
    when: Timestamp,
) -> Option<PageHitInformation> {
    match found {
        Ok(Some(summary)) => Some(
            PageHitInformation {
                destination_id: summary.destination().id,
                alias_id: match summary.alias() {
                    Some(alias) => Some(alias.id),
                    None => None,
                },
                ip_address,
                user_agent,
                when,
            },
        ),
        _ => None,
    }
}

/// What was found for a slug, as mathematical values
pub open spec fn found_view<E>(found: Result<Option<&SlugFoundSummary>, E>) -> Result<
    Option<SlugFoundSummaryView>,
    (),
> {
    match found {
        Ok(Some(summary)) => Ok(Some(summary@)),
        Ok(None) => Ok(None),
        Err(_) => Err(()),
    }
}

/// The view of a query string that may be missing
pub open spec fn query_view(query: Option<&str>) -> Option<Seq<char>> {
    match query {
        Some(query) => Some(query@),
        None => None,
    }
}

/// The IP address of a client that may be unknown
pub open spec fn address_of(client_ip: Option<ClientIp>) -> Option<IpAddress> {
    match client_ip {
        Some(client_ip) => Some(client_ip.ip_address),
        None => None,
    }
}

/// What is decided for a request
#[derive(Debug)]
pub struct Decision {
    /// What the request is answered with
    pub outcome: RedirectOutcome,
    /// The page hit to record, if the request leaves one
    pub page_hit: Option<PageHitInformation>,
}

/// The location of the redirect to a destination
fn target(destination: &Destination, query: Option<&str>) -> (location: Result<String, Error>)
    ensures
        match target_of(destination@, query_view(query)) {
            Ok(text) => location matches Ok(target) && target@ == text,
            Err(reason) => location matches Err(error) && error@ == failure(BAD_REQUEST, reason),
        },
{
    match query {
        Some(query) => {
            if destination.forward_query_parameters {
                forward_query_parameters(destination.url.as_str(), query)
            } else {
                Ok(destination.url.clone())
            }
        },
        None => Ok(destination.url.clone()),
    }
}

/// Decide what a request is answered with and which page hit it leaves
///
/// `found` is what the lookup of the slug gave. A slug that stands for
/// nothing is not found and leaves no page hit. Whatever it stands for leaves
/// one, also when that was deleted and the answer is that it is gone. A
/// failed lookup gives an internal server error that shows nothing of the
/// failure.
pub fn decide<E>(
    found: Result<Option<&SlugFoundSummary>, E>,
    query: Option<&str>,
    client_ip: Option<ClientIp>,
    user_agent: Option<String>,
    when: Timestamp,
) -> (decision: Decision)
    ensures
        decision.outcome@ == outcome_of(found_view(found), query_view(query)),
        decision.page_hit == page_hit_of(found_view(found), address_of(client_ip), user_agent, when),
{
    match found {
        Err(_) => Decision { outcome: RedirectOutcome::InternalServerError, page_hit: None },
        Ok(None) => Decision { outcome: RedirectOutcome::NotFound, page_hit: None },
        Ok(Some(summary)) => {
            let destination = summary.destination();
            let page_hit = PageHitInformation {
                destination_id: destination.id,
                alias_id: match summary.alias() {
                    Some(alias) => Some(alias.id),
                    None => None,
                },
                ip_address: match client_ip {
                    Some(client_ip) => Some(client_ip.ip_address),
                    None => None,
                },
                user_agent,
                when,
            };
            let outcome = if summary.is_deleted() {
                RedirectOutcome::Gone
            } else {
                match target(destination, query) {
                    Err(error) => RedirectOutcome::BadRequest(error.message),
                    Ok(location) => if destination.is_permanent {
                        RedirectOutcome::Permanent(location)
                    } else {
                        RedirectOutcome::Temporary(location)
                    },
                }
            };
            Decision { outcome, page_hit: Some(page_hit) }
        },
    }
}

/// What a request was answered with, and what became of its page hit
#[derive(Debug)]
pub struct Served {
    /// What the request is answered with
    pub outcome: RedirectOutcome,
    /// Whether the page hit was scheduled, where the request leaves one; an
    /// error here is for the log only
    pub scheduled: Option<Result<(), crate::database::Error>>,
}

/// The root!
///
/// All wildcard requests end up in this function, once the slug of the
/// request was looked up: it decides the answer and schedules the page hit.
/// The answer never waits for the page hit and never depends on what became
/// of it.
pub fn root<E>(
    sender: &Sender<PageHitInformation>,
    client_ip: Option<ClientIp>,
    user_agent: Option<String>,
    found: Result<Option<&SlugFoundSummary>, E>,
    query: Option<&str>,
    when: Timestamp,
) -> (served: Served)
    ensures
        served.outcome@ == outcome_of(found_view(found), query_view(query)),
        served.scheduled is Some <==> found_view(found) matches Ok(Some(_)),
        served.scheduled matches Some(Err(error)) ==> (error@ == scheduling_error(
            SendOutcome::Full,
        )->0 || error@ == scheduling_error(SendOutcome::Closed)->0),
{
    let decision = decide(found, query, client_ip, user_agent, when);
    let scheduled = match decision.page_hit {
        Some(page_hit) => Some(
            schedule_save_hit(
                sender,
                page_hit.destination_id,
                page_hit.alias_id,
                page_hit.ip_address,
                page_hit.user_agent,
                page_hit.when,
            ),
        ),
        None => None,
    };
    Served { outcome: decision.outcome, scheduled }
}

/// Gone, not redirected: whatever stands for a deleted destination or a
/// deleted alias is answered with `410 Gone`, whatever the query string, and
/// still leaves its page hit.
pub proof fn lemma_deleted_is_gone(
    summary: SlugFoundSummaryView,
    query: Option<Seq<char>>,
    ip_address: Option<IpAddress>,
    user_agent: Option<String>,
    when: Timestamp,
)
    requires
        summary.is_deleted(),
    ensures
        outcome_of(Ok(Some(summary)), query) == RedirectOutcomeView::Gone,
        outcome_of(Ok(Some(summary)), query).status_code() == GONE,
        page_hit_of(Ok(Some(summary)), ip_address, user_agent, when) matches Some(page_hit)
            && page_hit.destination_id == summary.destination().id,
{
}

/// No forwarding where it is switched off or nothing is to forward: the
/// redirect goes to the URL of the destination as it is stored.
pub proof fn lemma_not_forwarded(destination: DestinationView, query: Option<Seq<char>>)
    requires
        !destination.forward_query_parameters || query is None,
    ensures
        target_of(destination, query) == Ok::<Seq<char>, Seq<char>>(destination.url),
{
}

/// The pairs of the location take precedence: no forwarded pair has a name
/// that a pair of the location has, and every forwarded pair is one of the
/// request.
pub proof fn lemma_location_pairs_lead(
    existing: Seq<(Seq<char>, Seq<char>)>,
    incoming: Seq<(Seq<char>, Seq<char>)>,
    i: int,
)
    requires
        0 <= i < forwardable(existing, incoming).len(),
    ensures
        !has_name(existing, forwardable(existing, incoming)[i].0),
        incoming.contains(forwardable(existing, incoming)[i]),
{
    let keep = |pair: (Seq<char>, Seq<char>)| !has_name(existing, pair.0);
    incoming.lemma_filter_pred(keep, i);
    incoming.lemma_filter_contains_rev(keep, forwardable(existing, incoming)[i]);
}

} // verus!
