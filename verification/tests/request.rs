use shurly::api::parse_slug;
use shurly::api::parse_url;
use shurly::api::request::handle_json;
use shurly::api::request::handle_path;
use shurly::api::request::IncludeParameters;
use shurly::api::request::JsonFailure;
use shurly::api::request::PathFailure;

#[test]
fn test_parse_slug() {
    let slug = "/some-slug";
    assert_eq!(parse_slug(slug).unwrap(), "some-slug".to_string());

    let slug = "some-slug/";
    assert_eq!(parse_slug(slug).unwrap(), "some-slug".to_string());

    let slug = "some-slug";
    assert_eq!(parse_slug(slug).unwrap(), slug.to_string());
}

#[test]
fn test_parse_url() {
    let url = "https://www.example.com/";
    assert!(parse_url(url).is_ok());
}

#[test]
fn test_unicode_normalization() {
    // 'ä' with a single code point U+00E4
    let slug_one = String::from_utf8(vec![195, 164]).unwrap();
    assert_eq!(parse_slug(&slug_one).unwrap(), slug_one);

    // 'ä' with two code points: U+0061 U+03080
    let slug_two = String::from_utf8(vec![97, 204, 136]).unwrap();

    // the two code points are normalized to U+00E4
    assert_eq!(parse_slug(&slug_two).unwrap(), slug_one);
}

#[test]
fn parse_slug_trims_every_slash_at_both_ends() {
    assert_eq!(parse_slug("//2022/hello-world///").unwrap(), "2022/hello-world");
    assert_eq!(parse_slug("").unwrap(), "");
    assert_eq!(parse_slug("///").unwrap(), "");
    assert_eq!(parse_slug("hello world").unwrap(), "hello world");
}

#[test]
fn parse_slug_refuses_question_mark() {
    let error = parse_slug("hello?world").unwrap_err();
    assert_eq!(error.status_code, 400);
    assert_eq!(error.message, "Slug can not contain \"?\"");
    assert_eq!(error.description, None);
}

#[test]
fn parse_slug_refuses_hash() {
    let error = parse_slug("/hello#world/").unwrap_err();
    assert_eq!(error.status_code, 400);
    assert_eq!(error.message, "Slug can not contain \"#\"");
}

#[test]
fn parse_slug_refuses_for_the_first_offending_character() {
    assert_eq!(parse_slug("a#b?c").unwrap_err().message, "Slug can not contain \"#\"");
    assert_eq!(parse_slug("a?b#c").unwrap_err().message, "Slug can not contain \"?\"");
}

#[test]
fn parse_url_normalizes_and_keeps_the_query() {
    let url = parse_url("https://example.com/x?page=1").unwrap();
    assert_eq!(url.as_str(), "https://example.com/x?page=1");
    let url = parse_url("HTTPS://EXAMPLE.com").unwrap();
    assert_eq!(url.as_str(), "https://example.com/");
}

#[test]
fn parse_url_refuses_what_is_no_absolute_url() {
    let error = parse_url("not a url").unwrap_err();
    assert_eq!(error.status_code, 400);
    assert_eq!(error.message, "relative URL without a base");
    assert_eq!(error.description, None);

    let error = parse_url("https://").unwrap_err();
    assert_eq!(error.message, "empty host");
}

#[test]
fn handle_json_hands_the_form_on() {
    let handled = handle_json::<u8>(Ok(7));
    assert_eq!(handled.unwrap(), 7);
}

#[test]
fn handle_json_maps_every_failure() {
    let error = handle_json::<u8>(Err(JsonFailure::JsonDataError("missing field".to_string())))
        .unwrap_err();
    assert_eq!(error.status_code, 400);
    assert_eq!(error.message, "Data error");
    assert_eq!(error.description, Some("missing field".to_string()));

    let error =
        handle_json::<u8>(Err(JsonFailure::JsonSyntaxError("expected value".to_string())))
            .unwrap_err();
    assert_eq!(error.message, "JSON syntax error");
    assert_eq!(error.description, Some("expected value".to_string()));

    let error = handle_json::<u8>(Err(JsonFailure::MissingJsonContentType)).unwrap_err();
    assert_eq!(error.status_code, 400);
    assert_eq!(error.message, "Missing `application/json` content type");
    assert_eq!(error.description, None);

    let error =
        handle_json::<u8>(Err(JsonFailure::BytesRejection("body".to_string()))).unwrap_err();
    assert_eq!(error.message, "Invalid characters in JSON");
    assert_eq!(error.description, Some("body".to_string()));

    let error = handle_json::<u8>(Err(JsonFailure::Unknown("other".to_string()))).unwrap_err();
    assert_eq!(error.message, "Unknown JSON error");
    assert_eq!(error.description, Some("other".to_string()));
}

#[test]
fn handle_path_maps_every_failure() {
    assert_eq!(handle_path::<u8>(Ok(3)).unwrap(), 3);

    let error = handle_path::<u8>(Err(PathFailure::FailedToDeserializePathParams(
        "no uuid".to_string(),
    )))
    .unwrap_err();
    assert_eq!(error.status_code, 400);
    assert_eq!(error.message, "Invalid path parameter");
    assert_eq!(error.description, Some("no uuid".to_string()));

    let error =
        handle_path::<u8>(Err(PathFailure::MissingPathParams("none".to_string()))).unwrap_err();
    assert_eq!(error.message, "Missing path parameter");

    let error = handle_path::<u8>(Err(PathFailure::Unknown("other".to_string()))).unwrap_err();
    assert_eq!(error.message, "Unknown path error");
    assert_eq!(error.description, Some("other".to_string()));
}

#[test]
fn include_parameters_default_to_nothing() {
    let parameters = IncludeParameters::default();
    assert!(!parameters.aliases);
    assert!(!parameters.notes);
    assert_eq!(IncludeParameters::from_query(None).unwrap(), parameters);
}

#[test]
fn include_parameters_read_a_list() {
    let parameters = IncludeParameters::from_query(Some("aliases")).unwrap();
    assert_eq!(parameters, IncludeParameters { aliases: true, notes: false });

    let parameters = IncludeParameters::from_query(Some("notes")).unwrap();
    assert_eq!(parameters, IncludeParameters { aliases: false, notes: true });

    let parameters = IncludeParameters::from_query(Some(" notes ,\taliases\u{3000}")).unwrap();
    assert_eq!(parameters, IncludeParameters { aliases: true, notes: true });

    let parameters = IncludeParameters::from_query(Some("aliases,aliases")).unwrap();
    assert_eq!(parameters, IncludeParameters { aliases: true, notes: false });
}

#[test]
fn include_parameters_refuse_the_first_unknown_part() {
    let error = IncludeParameters::from_query(Some("aliases, hits ,other")).unwrap_err();
    assert_eq!(error.status_code, 400);
    assert_eq!(error.message, "Unknown include parameter");
    assert_eq!(error.description, Some("Unknown include parameter: hits".to_string()));

    let error = IncludeParameters::from_query(Some("")).unwrap_err();
    assert_eq!(error.description, Some("Unknown include parameter: ".to_string()));

    let error = IncludeParameters::from_query(Some("notes,")).unwrap_err();
    assert_eq!(error.description, Some("Unknown include parameter: ".to_string()));

    let error = IncludeParameters::from_query(Some("Aliases")).unwrap_err();
    assert_eq!(error.description, Some("Unknown include parameter: Aliases".to_string()));
}
