use workplace_watch::api_key::is_valid_uuid;
use workplace_watch::search_options::{
    prepare_get_contents, prepare_search, resolve_contents, BoolOrTextOptions, ContentsInput,
    Input, TextOptions,
};

fn empty_contents_input() -> ContentsInput {
    ContentsInput {
        text: None,
        summary: None,
        highlights: None,
        livecrawl: None,
        livecrawl_timeout: None,
        max_age_hours: None,
        filter_empty_results: None,
        subpages: None,
        subpage_target: None,
        extras: None,
    }
}

fn empty_input() -> Input {
    Input {
        action: None,
        query: None,
        num_results: None,
        search_type: None,
        category: None,
        include_domains: None,
        exclude_domains: None,
        start_crawl_date: None,
        end_crawl_date: None,
        start_published_date: None,
        end_published_date: None,
        include_text: None,
        exclude_text: None,
        use_autoprompt: None,
        moderation: None,
        user_location: None,
        additional_queries: None,
        url: None,
        exclude_source_domain: None,
        urls: None,
        contents: None,
        max_chars: None,
        filter_empty_results: None,
        extras: None,
        max_age_hours: None,
    }
}

#[test]
fn uuid_validation_accepts_the_canonical_shape() {
    assert!(is_valid_uuid("01234567-89ab-cdef-0123-456789abcdef"));
    assert!(!is_valid_uuid("01234567-89AB-cdef-0123-456789abcdef")); // uppercase
    assert!(!is_valid_uuid("0123456789ab-cdef-0123-456789abcdef")); // dash misplaced
    assert!(!is_valid_uuid("01234567-89ab-cdef-0123-456789abcde")); // too short
    assert!(!is_valid_uuid("01234567-89ab-cdef-0123-456789abcdefa")); // too long
    assert!(!is_valid_uuid("g1234567-89ab-cdef-0123-456789abcdef")); // not hex
    assert!(!is_valid_uuid(""));
}

#[test]
fn boolean_shorthand_enables_text_with_defaults() {
    let mut ci = empty_contents_input();
    ci.text = Some(BoolOrTextOptions::Bool(true));
    let opts = ci.into_options();
    let text = opts.text.unwrap();
    assert_eq!(text.max_characters, None);
    assert_eq!(text.include_html_tags, None);
    assert!(opts.summary.is_none());
}

#[test]
fn object_shorthand_keeps_its_options() {
    let mut ci = empty_contents_input();
    ci.text = Some(BoolOrTextOptions::Options(TextOptions {
        max_characters: Some(500),
        include_html_tags: Some(true),
        verbosity: None,
        include_sections: None,
        exclude_sections: None,
    }));
    let opts = ci.into_options();
    let text = opts.text.unwrap();
    assert_eq!(text.max_characters, Some(500));
    assert_eq!(text.include_html_tags, Some(true));
}

#[test]
fn legacy_default_always_requests_text_at_ten_thousand() {
    let opts = resolve_contents(None, None, None, None, None);
    assert_eq!(opts.text.unwrap().max_characters, Some(10000));
    let opts = resolve_contents(None, Some(250), Some(true), None, Some(48));
    assert_eq!(opts.text.unwrap().max_characters, Some(250));
    assert_eq!(opts.filter_empty_results, Some(true));
    assert_eq!(opts.max_age_hours, Some(48));
}

#[test]
fn legacy_max_chars_fills_only_an_unset_budget() {
    let mut ci = empty_contents_input();
    ci.text = Some(BoolOrTextOptions::Bool(true));
    let opts = resolve_contents(Some(ci), Some(123), None, None, None);
    assert_eq!(opts.text.unwrap().max_characters, Some(123));

    let mut ci = empty_contents_input();
    ci.text = Some(BoolOrTextOptions::Options(TextOptions {
        max_characters: Some(9),
        include_html_tags: None,
        verbosity: None,
        include_sections: None,
        exclude_sections: None,
    }));
    let opts = resolve_contents(Some(ci), Some(123), None, None, None);
    assert_eq!(opts.text.unwrap().max_characters, Some(9));
}

#[test]
fn top_level_shorthands_are_only_fallbacks() {
    let mut ci = empty_contents_input();
    ci.filter_empty_results = Some(false);
    let opts = resolve_contents(Some(ci), None, Some(true), None, Some(5));
    assert_eq!(opts.filter_empty_results, Some(false));
    assert_eq!(opts.max_age_hours, Some(5));
}

#[test]
fn search_requires_a_query() {
    let input = empty_input();
    match prepare_search(input) {
        Err(e) => assert_eq!(e, "'query' is required for action 'search'"),
        Ok(_) => panic!("a missing query must be refused"),
    }
}

#[test]
fn search_caps_the_result_count() {
    let mut input = empty_input();
    input.query = Some(String::from("rust"));
    input.num_results = Some(51);
    assert_eq!(
        match prepare_search(input) {
            Err(e) => e,
            Ok(_) => panic!("51 results must be refused"),
        },
        "num_results exceeds maximum of 50"
    );
    let mut input = empty_input();
    input.query = Some(String::from("rust"));
    input.num_results = Some(50);
    let opts = prepare_search(input).ok().unwrap();
    assert_eq!(opts.query, "rust");
    assert_eq!(opts.num_results, Some(50));
    assert_eq!(opts.contents.unwrap().text.unwrap().max_characters, Some(10000));
}

#[test]
fn get_contents_requires_urls() {
    let input = empty_input();
    assert!(prepare_get_contents(input).is_err());
    let mut input = empty_input();
    input.urls = Some(vec![]);
    assert!(prepare_get_contents(input).is_err());
    let mut input = empty_input();
    input.urls = Some(vec![String::from("https://example.com")]);
    input.max_chars = Some(77);
    let opts = prepare_get_contents(input).ok().unwrap();
    assert_eq!(opts.urls.len(), 1);
    // For get_contents the legacy budget applies only when no text options came.
    assert_eq!(opts.text.unwrap().max_characters, Some(77));
}
