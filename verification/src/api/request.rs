//! API request helpers

use vstd::prelude::*;
use vstd::string::StringExecFns;

use url::Url;

use super::response::failure;
use super::response::Error;
use super::response::ErrorView;
use super::response::BAD_REQUEST;
use crate::normalization::nfc;
use crate::normalization::nfc_of;
use crate::text::chars_of;
use crate::text::parts;
use crate::text::same_text;
use crate::text::split_commas;
use crate::text::stripped;
use crate::text::trim_separators;
use crate::text::trim_white_space;
use crate::text::trimmed;
use crate::text::views;
use crate::urls::url_parse;
use crate::urls::url_text;

verus! {

/// Why a slug is refused: the message for the first `?` or `#` in it, if it
/// holds one
pub open spec fn slug_refusal(slug: Seq<char>) -> Option<Seq<char>>
    decreases slug.len(),
{
    if slug.len() == 0 {
        None
    } else if slug[0] == '?' {
        Some("Slug can not contain \"?\""@)
    } else if slug[0] == '#' {
        Some("Slug can not contain \"#\""@)
    } else {
        slug_refusal(slug.drop_first())
    }
}

/// A slug whose first characters hold neither `?` nor `#` is refused for what
/// the rest of it holds.
proof fn lemma_slug_refusal(slug: Seq<char>, from: int)
    requires
        0 <= from <= slug.len(),
        forall|k: int| 0 <= k < from ==> slug[k] != '?' && slug[k] != '#',
    ensures
        slug_refusal(slug) == slug_refusal(slug.skip(from)),
    decreases from,
{
    if from == 0 {
        assert(slug.skip(0) =~= slug);
    } else {
        lemma_slug_refusal(slug.drop_first(), from - 1);
        assert(slug.drop_first().skip(from - 1) =~= slug.skip(from));
    }
}

/// Parse and normalize a slug
///
/// Will:
/// - Remove leading and trailing slashes
/// - Reject if slug contains `?` or `#`
/// - Will normalize the slug to NFC form
///
/// Will return an [`Error`](Error) when the slug contains invalid characters
pub fn parse_slug(slug: &str) -> (parsed: Result<String, Error>)
    ensures
        match slug_refusal(trimmed(slug@)) {
            Some(message) => parsed matches Err(error) && error@ == failure(BAD_REQUEST, message),
            None => parsed matches Ok(normalized) && normalized@ == nfc_of(trimmed(slug@)),
        },
{
    let inner = trim_separators(slug);
    let chars = chars_of(inner);
    let mut i: usize = 0;
    while i < chars.len()
        invariant
            i <= chars.len(),
            chars@ == inner@,
            inner@ == trimmed(slug@),
            forall|k: int| 0 <= k < i ==> inner@[k] != '?' && inner@[k] != '#',
        decreases chars.len() - i,
    {
        let ch = chars[i];
        if ch == '?' {
            proof {
                lemma_slug_refusal(inner@, i as int);
                assert(inner@.skip(i as int)[0] == '?');
            }
            return Err(Error::bad_request("Slug can not contain \"?\""));
        }
        if ch == '#' {
            proof {
                lemma_slug_refusal(inner@, i as int);
                assert(inner@.skip(i as int)[0] == '#');
            }
            return Err(Error::bad_request("Slug can not contain \"#\""));
        }
        i = i + 1;
    }
    proof {
        lemma_slug_refusal(inner@, inner@.len() as int);
    }
    // unicode normalization, prefer NFC form
    Ok(nfc(inner))
}

/// Parse and validate a URL
pub fn parse_url(url: &str) -> (parsed: Result<Url, Error>)
    ensures
        match parsed {
            Ok(location) => url_parse(url@) == Ok::<Seq<char>, Seq<char>>(url_text(location)),
            Err(error) => url_parse(url@) == Err::<Seq<char>, Seq<char>>(error@.message)
                && error@ == failure(BAD_REQUEST, error@.message),
        },
{
    match crate::urls::parse(url) {
        Ok(location) => Ok(location),
        Err(message) => Err(Error::bad_request(message.as_str())),
    }
}

/// Why the JSON body of a request could not be taken
#[derive(Debug)]
pub enum JsonFailure {
    /// The JSON does not hold the data that the form asks for; with the
    /// text of the failure
    JsonDataError(String),
    /// The body is no JSON; with the text of what the parser found
    JsonSyntaxError(String),
    /// The request does not say that its body is JSON
    MissingJsonContentType,
    /// The body could not be read; with the text of the failure
    BytesRejection(String),
    /// Anything else; with the text of the failure
    Unknown(String),
}

impl JsonFailure {
    /// The failed response that tells of the failure
    pub open spec fn response(self) -> ErrorView {
        match self {
            JsonFailure::JsonDataError(text) => ErrorView {
                description: Some(text@),
                ..failure(BAD_REQUEST, "Data error"@)
            },
            JsonFailure::JsonSyntaxError(text) => ErrorView {
                description: Some(text@),
                ..failure(BAD_REQUEST, "JSON syntax error"@)
            },
            JsonFailure::MissingJsonContentType => failure(
                BAD_REQUEST,
                "Missing `application/json` content type"@,
            ),
            JsonFailure::BytesRejection(text) => ErrorView {
                description: Some(text@),
                ..failure(BAD_REQUEST, "Invalid characters in JSON"@)
            },
            JsonFailure::Unknown(text) => ErrorView {
                description: Some(text@),
                ..failure(BAD_REQUEST, "Unknown JSON error"@)
            },
        }
    }
}

/// Handle incoming JSON with proper API error handling
///
/// When the json is invalid, a [`Error`](Error) describing the issue will be returned
pub fn handle_json<J>(json: Result<J, JsonFailure>) -> (handled: Result<J, Error>)
    ensures
        match json {
            Ok(form) => handled == Ok::<J, Error>(form),
            Err(rejection) => handled matches Err(error) && error@ == rejection.response(),
        },
{
    match json {
        Ok(json) => Ok(json),
        Err(err) => match err {
            JsonFailure::JsonDataError(err) => {
                Err(Error::bad_request("Data error").with_description(err.as_str()))
            },
            JsonFailure::JsonSyntaxError(err) => {
                Err(Error::bad_request("JSON syntax error").with_description(err.as_str()))
            },
            JsonFailure::MissingJsonContentType => {
                Err(Error::bad_request("Missing `application/json` content type"))
            },
            JsonFailure::BytesRejection(err) => {
                Err(Error::bad_request("Invalid characters in JSON").with_description(err.as_str()))
            },
            JsonFailure::Unknown(err) => {
                Err(Error::bad_request("Unknown JSON error").with_description(err.as_str()))
            },
        },
    }
}

/// Wrapper around the form that a request carries
pub struct Form<F>(pub F);

impl<F> Form<F> {
    /// The form of a request, from what reading its JSON body gave
    ///
    /// When the json is invalid, a [`Error`](Error) describing the issue will be returned
    pub fn from_request(json: Result<F, JsonFailure>) -> (form: Result<Self, Error>)
        ensures
            match json {
                Ok(read) => form == Ok::<Self, Error>(Form(read)),
                Err(rejection) => form matches Err(error) && error@ == rejection.response(),
            },
    {
        match handle_json(json) {
            Ok(read) => Ok(Form(read)),
            Err(error) => Err(error),
        }
    }
}

/// Why the parameters in the path of a request could not be taken
#[derive(Debug)]
pub enum PathFailure {
    /// A parameter does not read as what is asked for; with the text of the
    /// failure
    FailedToDeserializePathParams(String),
    /// The route has no parameters; with the text of the failure
    MissingPathParams(String),
    /// Anything else; with the text of the failure
    Unknown(String),
}

impl PathFailure {
    /// The failed response that tells of the failure
    pub open spec fn response(self) -> ErrorView {
        match self {
            PathFailure::FailedToDeserializePathParams(text) => ErrorView {
                description: Some(text@),
                ..failure(BAD_REQUEST, "Invalid path parameter"@)
            },
            PathFailure::MissingPathParams(text) => ErrorView {
                description: Some(text@),
                ..failure(BAD_REQUEST, "Missing path parameter"@)
            },
            PathFailure::Unknown(text) => ErrorView {
                description: Some(text@),
                ..failure(BAD_REQUEST, "Unknown path error"@)
            },
        }
    }
}

/// Handle incoming path parameters with proper API error handling
///
/// When the path is invalid, a [`Error`](Error) describing the issue will be returned
pub fn handle_path<P>(path: Result<P, PathFailure>) -> (handled: Result<P, Error>)
    ensures
        match path {
            Ok(parameters) => handled == Ok::<P, Error>(parameters),
            Err(rejection) => handled matches Err(error) && error@ == rejection.response(),
        },
{
    match path {
        Ok(path) => Ok(path),
        Err(err) => match err {
            PathFailure::FailedToDeserializePathParams(err) => {
                Err(Error::bad_request("Invalid path parameter").with_description(err.as_str()))
            },
            PathFailure::MissingPathParams(err) => {
                Err(Error::bad_request("Missing path parameter").with_description(err.as_str()))
            },
            PathFailure::Unknown(err) => {
                Err(Error::bad_request("Unknown path error").with_description(err.as_str()))
            },
        },
    }
}

/// Wrapper around the parameters in the path of a request
pub struct PathParameters<P>(pub P);

impl<P> PathParameters<P> {
    /// The parameters in the path of a request, from what reading the path
    /// gave
    ///
    /// When the path is invalid, a [`Error`](Error) describing the issue will be returned
    pub fn from_request_parts(path: Result<P, PathFailure>) -> (parameters: Result<Self, Error>)
        ensures
            match path {
                Ok(read) => parameters == Ok::<Self, Error>(PathParameters(read)),
                Err(rejection) => parameters matches Err(error) && error@ == rejection.response(),
            },
    {
        match handle_path(path) {
            Ok(read) => Ok(PathParameters(read)),
            Err(error) => Err(error),
        }
    }
}

/// What should be included?
#[derive(Clone, Copy, Debug, PartialEq, Eq, Structural)]
pub struct IncludeParameters {
    /// Should the aliases be included?
    pub aliases: bool,
    /// Should the notes be included?
    pub notes: bool,
}

impl Default for IncludeParameters {
    fn default() -> (parameters: Self)
        ensures
            !parameters.aliases,
            !parameters.notes,
    {
        IncludeParameters { aliases: false, notes: false }
    }
}

/// What the parts of an `include` parameter ask for, on top of what is asked
/// for already; or the first part that names nothing known
pub open spec fn included(
    parts: Seq<Seq<char>>,
    so_far: IncludeParameters,
) -> Result<IncludeParameters, Seq<char>>
    decreases parts.len(),
{
    if parts.len() == 0 {
        Ok(so_far)
    } else {
        let part = stripped(parts[0]);
        if part == "aliases"@ {
            included(parts.drop_first(), IncludeParameters { aliases: true, ..so_far })
        } else if part == "notes"@ {
            included(parts.drop_first(), IncludeParameters { notes: true, ..so_far })
        } else {
            Err(part)
        }
    }
}

/// The failed response for a part of an `include` parameter that names
/// nothing known
pub open spec fn unknown_include(part: Seq<char>) -> ErrorView {
    ErrorView {
        description: Some("Unknown include parameter: "@ + part),
        ..failure(BAD_REQUEST, "Unknown include parameter"@)
    }
}

impl IncludeParameters {
    /// Read the `include` query parameter: a list of `aliases` and `notes`,
    /// separated by commas, with white space around them ignored
    pub fn from_query(requested: Option<&str>) -> (parsed: Result<Self, Error>)
        ensures
            match requested {
                None => parsed == Ok::<Self, Error>(
                    IncludeParameters { aliases: false, notes: false },
                ),
                Some(list) => match included(
                    parts(list@),
                    IncludeParameters { aliases: false, notes: false },
                ) {
                    Ok(parameters) => parsed == Ok::<Self, Error>(parameters),
                    Err(part) => parsed matches Err(error) && error@ == unknown_include(part),
                },
            },
    {
        let mut include_parameters = IncludeParameters { aliases: false, notes: false };
        if let Some(list) = requested {
            let collected = split_commas(list);
            let ghost start = include_parameters;
            let mut i: usize = 0;
            proof {
                assert(parts(list@).skip(0) =~= parts(list@));
            }
            while i < collected.len()
                invariant
                    i <= collected.len(),
                    requested == Some(list),
                    start == (IncludeParameters { aliases: false, notes: false }),
                    views(collected@) == parts(list@),
                    included(parts(list@), start) == included(
                        parts(list@).skip(i as int),
                        include_parameters,
                    ),
                decreases collected.len() - i,
            {
                let part = trim_white_space(collected[i]);
                proof {
                    let rest = parts(list@).skip(i as int);
                    assert(views(collected@)[i as int] == collected@[i as int]@);
                    assert(rest.len() > 0 && rest[0] == collected@[i as int]@);
                    assert(part@ == stripped(rest[0]));
                    assert(rest.drop_first() =~= parts(list@).skip(i + 1));
                }
                if same_text(part, "aliases") {
                    include_parameters.aliases = true;
                } else if same_text(part, "notes") {
                    include_parameters.notes = true;
                } else {
                    return Err(
                        Error::bad_request("Unknown include parameter").with_description(
                            String::from_str("Unknown include parameter: ").concat(part).as_str(),
                        ),
                    );
                }
                i = i + 1;
            }
        }
        Ok(include_parameters)
    }
}

} // verus!
