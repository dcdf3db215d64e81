//! The request-shaping rules of the search front-end: the option types of
//! its wire protocol, the boolean-or-object shorthand resolution for the
//! `contents` group, the legacy `max_chars` fallback, and the validation
//! each action performs before a request is issued.

use vstd::prelude::*;

verus! {

#[derive(Clone, Copy, PartialEq, Eq, Structural)]
pub enum SearchType {
    Auto,
    Fast,
    Deep,
    Neural,
    Instant,
    Keyword,
}

/// The named result categories of the search service; requests carry the
/// category as a plain string, since some category names contain spaces.
#[derive(Clone, Copy, PartialEq, Eq, Structural)]
pub enum Category {
    Company,
    ResearchPaper,
    News,
    Pdf,
    Tweet,
    PersonalSite,
    FinancialReport,
    People,
}

#[derive(Clone, Copy, PartialEq, Eq, Structural)]
pub enum Livecrawl {
    Always,
    Fallback,
    Never,
    Auto,
    Preferred,
}

#[derive(Clone, Copy, PartialEq, Eq, Structural)]
pub enum Verbosity {
    Compact,
    Standard,
    Full,
}

/// Options for text extraction.
pub struct TextOptions {
    pub max_characters: Option<u32>,
    pub include_html_tags: Option<bool>,
    pub verbosity: Option<Verbosity>,
    pub include_sections: Option<Vec<String>>,
    pub exclude_sections: Option<Vec<String>>,
}

/// Options for summaries; the schema is an arbitrary JSON value passed through.
pub struct SummaryOptions {
    pub query: Option<String>,
    pub schema: Option<serde_json::Value>,
}

pub struct HighlightsOptions {
    pub query: Option<String>,
    pub max_characters: Option<u32>,
}

pub struct ExtrasOptions {
    pub links: Option<u32>,
}

/// The resolved `contents` options shared by all actions.
pub struct ContentsOptions {
    pub text: Option<TextOptions>,
    pub summary: Option<SummaryOptions>,
    pub highlights: Option<HighlightsOptions>,
    pub livecrawl: Option<Livecrawl>,
    pub livecrawl_timeout: Option<u32>,
    pub max_age_hours: Option<i32>,
    pub filter_empty_results: Option<bool>,
    pub subpages: Option<u32>,
    pub subpage_target: Option<serde_json::Value>,
    pub extras: Option<ExtrasOptions>,
}

/// In the wire protocol, `contents.text` is either a boolean ("enabled
/// with defaults") or an options object; likewise for the other groups.
pub enum BoolOrTextOptions {
    Bool(bool),
    Options(TextOptions),
}

pub enum BoolOrSummaryOptions {
    Bool(bool),
    Options(SummaryOptions),
}

pub enum BoolOrHighlightsOptions {
    Bool(bool),
    Options(HighlightsOptions),
}

/// The `contents` group as it arrives on the wire.
pub struct ContentsInput {
    pub text: Option<BoolOrTextOptions>,
    pub summary: Option<BoolOrSummaryOptions>,
    pub highlights: Option<BoolOrHighlightsOptions>,
    pub livecrawl: Option<Livecrawl>,
    pub livecrawl_timeout: Option<u32>,
    pub max_age_hours: Option<i32>,
    pub filter_empty_results: Option<bool>,
    pub subpages: Option<u32>,
    pub subpage_target: Option<serde_json::Value>,
    pub extras: Option<ExtrasOptions>,
}

pub open spec fn spec_default_text() -> TextOptions {
    TextOptions {
        max_characters: None,
        include_html_tags: None,
        verbosity: None,
        include_sections: None,
        exclude_sections: None,
    }
}

pub open spec fn spec_default_summary() -> SummaryOptions {
    SummaryOptions { query: None, schema: None }
}

pub open spec fn spec_default_highlights() -> HighlightsOptions {
    HighlightsOptions { query: None, max_characters: None }
}

pub open spec fn spec_default_contents() -> ContentsOptions {
    ContentsOptions {
        text: None,
        summary: None,
        highlights: None,
        livecrawl: None,
        livecrawl_timeout: None,
        max_age_hours: None,
        filter_empty_results: None,
        subpages: None,
        subpage_target: None,
        extras: None,
    }
}

impl Default for TextOptions {
    fn default() -> (r: Self)
        ensures
            r == spec_default_text(),
    {
        TextOptions {
            max_characters: None,
            include_html_tags: None,
            verbosity: None,
            include_sections: None,
            exclude_sections: None,
        }
    }
}

impl Default for SummaryOptions {
    fn default() -> (r: Self)
        ensures
            r == spec_default_summary(),
    {
        SummaryOptions { query: None, schema: None }
    }
}

impl Default for HighlightsOptions {
    fn default() -> (r: Self)
        ensures
            r == spec_default_highlights(),
    {
        HighlightsOptions { query: None, max_characters: None }
    }
}

impl Default for ContentsOptions {
    fn default() -> (r: Self)
        ensures
            r == spec_default_contents(),
    {
        ContentsOptions {
            text: None,
            summary: None,
            highlights: None,
            livecrawl: None,
            livecrawl_timeout: None,
            max_age_hours: None,
            filter_empty_results: None,
            subpages: None,
            subpage_target: None,
            extras: None,
        }
    }
}

/// How one boolean-or-object shorthand resolves: a boolean (of either
/// value) enables the group with defaults; an object carries its options.
pub open spec fn resolved_text(t: Option<BoolOrTextOptions>) -> Option<TextOptions> {
    match t {
        None => None,
        Some(BoolOrTextOptions::Bool(_)) => Some(spec_default_text()),
        Some(BoolOrTextOptions::Options(o)) => Some(o),
    }
}

pub open spec fn resolved_summary(t: Option<BoolOrSummaryOptions>) -> Option<SummaryOptions> {
    match t {
        None => None,
        Some(BoolOrSummaryOptions::Bool(_)) => Some(spec_default_summary()),
        Some(BoolOrSummaryOptions::Options(o)) => Some(o),
    }
}

pub open spec fn resolved_highlights(t: Option<BoolOrHighlightsOptions>) -> Option<
    HighlightsOptions,
> {
    match t {
        None => None,
        Some(BoolOrHighlightsOptions::Bool(_)) => Some(spec_default_highlights()),
        Some(BoolOrHighlightsOptions::Options(o)) => Some(o),
    }
}

/// The API-ready options a wire-level `contents` group resolves to.
pub open spec fn into_options_spec(ci: ContentsInput) -> ContentsOptions {
    ContentsOptions {
        text: resolved_text(ci.text),
        summary: resolved_summary(ci.summary),
        highlights: resolved_highlights(ci.highlights),
        livecrawl: ci.livecrawl,
        livecrawl_timeout: ci.livecrawl_timeout,
        max_age_hours: ci.max_age_hours,
        filter_empty_results: ci.filter_empty_results,
        subpages: ci.subpages,
        subpage_target: ci.subpage_target,
        extras: ci.extras,
    }
}

impl ContentsInput {
    /// Resolves the wire-level group to the API-ready struct, expanding
    /// each boolean shorthand to the group's defaults.
    pub fn into_options(self) -> (r: ContentsOptions)
        ensures
            r == into_options_spec(self),
    {
        let text = match self.text {
            None => None,
            Some(BoolOrTextOptions::Bool(_)) => Some(TextOptions::default()),
            Some(BoolOrTextOptions::Options(o)) => Some(o),
        };
        let summary = match self.summary {
            None => None,
            Some(BoolOrSummaryOptions::Bool(_)) => Some(SummaryOptions::default()),
            Some(BoolOrSummaryOptions::Options(o)) => Some(o),
        };
        let highlights = match self.highlights {
            None => None,
            Some(BoolOrHighlightsOptions::Bool(_)) => Some(HighlightsOptions::default()),
            Some(BoolOrHighlightsOptions::Options(o)) => Some(o),
        };
        ContentsOptions {
            text,
            summary,
            highlights,
            livecrawl: self.livecrawl,
            livecrawl_timeout: self.livecrawl_timeout,
            max_age_hours: self.max_age_hours,
            filter_empty_results: self.filter_empty_results,
            subpages: self.subpages,
            subpage_target: self.subpage_target,
            extras: self.extras,
        }
    }
}

/// `t` with its character budget set to `mc`.
pub open spec fn text_with_max(t: TextOptions, mc: u32) -> TextOptions {
    TextOptions {
        max_characters: Some(mc),
        include_html_tags: t.include_html_tags,
        verbosity: t.verbosity,
        include_sections: t.include_sections,
        exclude_sections: t.exclude_sections,
    }
}

/// How `search` and `find_similar` resolve their contents options: a
/// given group is resolved and the legacy `max_chars` and the top-level
/// shorthands fill only what the group left unset; with no group, text
/// extraction is always requested, budgeted at `max_chars` or 10000.
pub open spec fn resolved_contents_spec(
    ci: Option<ContentsInput>,
    max_chars: Option<u32>,
    filter_empty_results: Option<bool>,
    extras: Option<ExtrasOptions>,
    max_age_hours: Option<i32>,
) -> ContentsOptions {
    match ci {
        Some(c) => {
            let o = into_options_spec(c);
            ContentsOptions {
                text: match o.text {
                    Some(t) => if t.max_characters is None && max_chars is Some {
                        Some(text_with_max(t, max_chars->0))
                    } else {
                        Some(t)
                    },
                    None => None,
                },
                summary: o.summary,
                highlights: o.highlights,
                livecrawl: o.livecrawl,
                livecrawl_timeout: o.livecrawl_timeout,
                max_age_hours: if o.max_age_hours is None {
                    max_age_hours
                } else {
                    o.max_age_hours
                },
                filter_empty_results: if o.filter_empty_results is None {
                    filter_empty_results
                } else {
                    o.filter_empty_results
                },
                subpages: o.subpages,
                subpage_target: o.subpage_target,
                extras: if o.extras is None {
                    extras
                } else {
                    o.extras
                },
            }
        },
        None => ContentsOptions {
            text: Some(
                (TextOptions {
                    max_characters: if max_chars is None {
                        Some(10000u32)
                    } else {
                        max_chars
                    },
                    include_html_tags: None,
                    verbosity: None,
                    include_sections: None,
                    exclude_sections: None,
                }),
            ),
            summary: None,
            highlights: None,
            livecrawl: None,
            livecrawl_timeout: None,
            max_age_hours: max_age_hours,
            filter_empty_results: filter_empty_results,
            subpages: None,
            subpage_target: None,
            extras: extras,
        },
    }
}

/// Resolves the contents options of a request from the wire-level group,
/// the legacy `max_chars` field and the top-level shorthand fields.
pub fn resolve_contents(
    contents_input: Option<ContentsInput>,
    max_chars: Option<u32>,
    filter_empty_results: Option<bool>,
    extras: Option<ExtrasOptions>,
    max_age_hours: Option<i32>,
) -> (r: ContentsOptions)
    ensures
        r == resolved_contents_spec(
            contents_input,
            max_chars,
            filter_empty_results,
            extras,
            max_age_hours,
        ),
{
    match contents_input {
        Some(ci) => {
            let o = ci.into_options();
            let text = match o.text {
                Some(t) => {
                    if t.max_characters.is_none() {
                        match max_chars {
                            Some(mc) => Some(
                                TextOptions {
                                    max_characters: Some(mc),
                                    include_html_tags: t.include_html_tags,
                                    verbosity: t.verbosity,
                                    include_sections: t.include_sections,
                                    exclude_sections: t.exclude_sections,
                                },
                            ),
                            None => Some(t),
                        }
                    } else {
                        Some(t)
                    }
                },
                None => None,
            };
            let extras2 = match o.extras {
                Some(e) => Some(e),
                None => extras,
            };
            ContentsOptions {
                text,
                summary: o.summary,
                highlights: o.highlights,
                livecrawl: o.livecrawl,
                livecrawl_timeout: o.livecrawl_timeout,
                max_age_hours: if o.max_age_hours.is_none() {
                    max_age_hours
                } else {
                    o.max_age_hours
                },
                filter_empty_results: if o.filter_empty_results.is_none() {
                    filter_empty_results
                } else {
                    o.filter_empty_results
                },
                subpages: o.subpages,
                subpage_target: o.subpage_target,
                extras: extras2,
            }
        },
        None => {
            let max_characters = match max_chars {
                Some(mc) => Some(mc),
                None => Some(10000u32),
            };
            ContentsOptions {
                text: Some(
                    TextOptions {
                        max_characters,
                        include_html_tags: None,
                        verbosity: None,
                        include_sections: None,
                        exclude_sections: None,
                    },
                ),
                summary: None,
                highlights: None,
                livecrawl: None,
                livecrawl_timeout: None,
                max_age_hours,
                filter_empty_results,
                subpages: None,
                subpage_target: None,
                extras,
            }
        },
    }
}

/// One request as it arrives on the wire; every field is optional and
/// which ones are required depends on the action.
pub struct Input {
    pub action: Option<String>,
    pub query: Option<String>,
    pub num_results: Option<u32>,
    pub search_type: Option<SearchType>,
    pub category: Option<String>,
    pub include_domains: Option<Vec<String>>,
    pub exclude_domains: Option<Vec<String>>,
    pub start_crawl_date: Option<String>,
    pub end_crawl_date: Option<String>,
    pub start_published_date: Option<String>,
    pub end_published_date: Option<String>,
    pub include_text: Option<Vec<String>>,
    pub exclude_text: Option<Vec<String>>,
    pub use_autoprompt: Option<bool>,
    pub moderation: Option<bool>,
    pub user_location: Option<String>,
    pub additional_queries: Option<Vec<String>>,
    pub url: Option<String>,
    pub exclude_source_domain: Option<bool>,
    pub urls: Option<Vec<String>>,
    pub contents: Option<ContentsInput>,
    pub max_chars: Option<u32>,
    pub filter_empty_results: Option<bool>,
    pub extras: Option<ExtrasOptions>,
    pub max_age_hours: Option<i32>,
}

/// The body of a search request.
pub struct SearchOptions {
    pub query: String,
    pub num_results: Option<u32>,
    pub search_type: Option<SearchType>,
    pub category: Option<String>,
    pub include_domains: Option<Vec<String>>,
    pub exclude_domains: Option<Vec<String>>,
    pub start_crawl_date: Option<String>,
    pub end_crawl_date: Option<String>,
    pub start_published_date: Option<String>,
    pub end_published_date: Option<String>,
    pub include_text: Option<Vec<String>>,
    pub exclude_text: Option<Vec<String>>,
    pub use_autoprompt: Option<bool>,
    pub moderation: Option<bool>,
    pub user_location: Option<String>,
    pub additional_queries: Option<Vec<String>>,
    pub contents: Option<ContentsOptions>,
}

/// The body of a find-similar request.
pub struct FindSimilarOptions {
    pub url: String,
    pub num_results: Option<u32>,
    pub include_domains: Option<Vec<String>>,
    pub exclude_domains: Option<Vec<String>>,
    pub start_crawl_date: Option<String>,
    pub end_crawl_date: Option<String>,
    pub start_published_date: Option<String>,
    pub end_published_date: Option<String>,
    pub include_text: Option<Vec<String>>,
    pub exclude_text: Option<Vec<String>>,
    pub exclude_source_domain: Option<bool>,
    pub category: Option<String>,
    pub contents: Option<ContentsOptions>,
}

/// The body of a get-contents request.
pub struct GetContentsOptions {
    pub urls: Vec<String>,
    pub text: Option<TextOptions>,
    pub summary: Option<SummaryOptions>,
    pub highlights: Option<HighlightsOptions>,
    pub livecrawl: Option<Livecrawl>,
    pub livecrawl_timeout: Option<u32>,
    pub max_age_hours: Option<i32>,
    pub filter_empty_results: Option<bool>,
    pub subpages: Option<u32>,
    pub subpage_target: Option<serde_json::Value>,
    pub extras: Option<ExtrasOptions>,
}

/// The request asks for more results than the service accepts.
pub open spec fn too_many_results(n: Option<u32>) -> bool {
    match n {
        Some(v) => v > 50,
        None => false,
    }
}

/// The search request body a valid input shapes to.
pub open spec fn search_options_of(input: Input) -> SearchOptions {
    SearchOptions {
        query: input.query->0,
        num_results: input.num_results,
        search_type: input.search_type,
        category: input.category,
        include_domains: input.include_domains,
        exclude_domains: input.exclude_domains,
        start_crawl_date: input.start_crawl_date,
        end_crawl_date: input.end_crawl_date,
        start_published_date: input.start_published_date,
        end_published_date: input.end_published_date,
        include_text: input.include_text,
        exclude_text: input.exclude_text,
        use_autoprompt: input.use_autoprompt,
        moderation: input.moderation,
        user_location: input.user_location,
        additional_queries: input.additional_queries,
        contents: Some(
            resolved_contents_spec(
                input.contents,
                input.max_chars,
                input.filter_empty_results,
                input.extras,
                input.max_age_hours,
            ),
        ),
    }
}

/// Validates and shapes a search request: the query is required, at most
/// 50 results may be asked for, and the contents options are resolved
/// with the legacy and shorthand fallbacks.
pub fn prepare_search(input: Input) -> (r: Result<SearchOptions, &'static str>)
    ensures
        input.query is None ==> (r matches Err(e) && e@
            == "'query' is required for action 'search'"@),
        input.query is Some && too_many_results(input.num_results) ==> (r matches Err(e) && e@
            == "num_results exceeds maximum of 50"@),
        input.query is Some && !too_many_results(input.num_results) ==> (r matches Ok(o) && o
            == search_options_of(input)),
{
    let query = match input.query {
        Some(q) => q,
        None => {
            return Err("'query' is required for action 'search'");
        },
    };
    let over = match input.num_results {
        Some(n) => n > 50,
        None => false,
    };
    if over {
        return Err("num_results exceeds maximum of 50");
    }
    let contents = Some(
        resolve_contents(
            input.contents,
            input.max_chars,
            input.filter_empty_results,
            input.extras,
            input.max_age_hours,
        ),
    );
    Ok(
        SearchOptions {
            query,
            num_results: input.num_results,
            search_type: input.search_type,
            category: input.category,
            include_domains: input.include_domains,
            exclude_domains: input.exclude_domains,
            start_crawl_date: input.start_crawl_date,
            end_crawl_date: input.end_crawl_date,
            start_published_date: input.start_published_date,
            end_published_date: input.end_published_date,
            include_text: input.include_text,
            exclude_text: input.exclude_text,
            use_autoprompt: input.use_autoprompt,
            moderation: input.moderation,
            user_location: input.user_location,
            additional_queries: input.additional_queries,
            contents,
        },
    )
}

/// The find-similar request body a valid input shapes to.
pub open spec fn find_similar_options_of(input: Input) -> FindSimilarOptions {
    FindSimilarOptions {
        url: input.url->0,
        num_results: input.num_results,
        include_domains: input.include_domains,
        exclude_domains: input.exclude_domains,
        start_crawl_date: input.start_crawl_date,
        end_crawl_date: input.end_crawl_date,
        start_published_date: input.start_published_date,
        end_published_date: input.end_published_date,
        include_text: input.include_text,
        exclude_text: input.exclude_text,
        exclude_source_domain: input.exclude_source_domain,
        category: input.category,
        contents: Some(
            resolved_contents_spec(
                input.contents,
                input.max_chars,
                input.filter_empty_results,
                input.extras,
                input.max_age_hours,
            ),
        ),
    }
}

/// Validates and shapes a find-similar request: the url is required and
/// at most 50 results may be asked for.
pub fn prepare_find_similar(input: Input) -> (r: Result<FindSimilarOptions, &'static str>)
    ensures
        input.url is None ==> (r matches Err(e) && e@
            == "'url' is required for action 'find_similar'"@),
        input.url is Some && too_many_results(input.num_results) ==> (r matches Err(e) && e@
            == "num_results exceeds maximum of 50"@),
        input.url is Some && !too_many_results(input.num_results) ==> (r matches Ok(o) && o
            == find_similar_options_of(input)),
{
    let url = match input.url {
        Some(u) => u,
        None => {
            return Err("'url' is required for action 'find_similar'");
        },
    };
    let over = match input.num_results {
        Some(n) => n > 50,
        None => false,
    };
    if over {
        return Err("num_results exceeds maximum of 50");
    }
    let contents = Some(
        resolve_contents(
            input.contents,
            input.max_chars,
            input.filter_empty_results,
            input.extras,
            input.max_age_hours,
        ),
    );
    Ok(
        FindSimilarOptions {
            url,
            num_results: input.num_results,
            include_domains: input.include_domains,
            exclude_domains: input.exclude_domains,
            start_crawl_date: input.start_crawl_date,
            end_crawl_date: input.end_crawl_date,
            start_published_date: input.start_published_date,
            end_published_date: input.end_published_date,
            include_text: input.include_text,
            exclude_text: input.exclude_text,
            exclude_source_domain: input.exclude_source_domain,
            category: input.category,
            contents,
        },
    )
}

/// Text options for a get-contents request: what the contents group
/// resolved, or the legacy `max_chars` budget when the group set none.
pub open spec fn legacy_text(
    resolved: Option<TextOptions>,
    max_chars: Option<u32>,
) -> Option<TextOptions> {
    match resolved {
        Some(t) => Some(t),
        None => match max_chars {
            Some(mc) => Some(text_with_max(spec_default_text(), mc)),
            None => None,
        },
    }
}

/// The get-contents request body a valid input shapes to.
pub open spec fn get_contents_options_of(input: Input) -> GetContentsOptions {
    let resolved = match input.contents {
        Some(c) => into_options_spec(c),
        None => spec_default_contents(),
    };
    GetContentsOptions {
        urls: input.urls->0,
        text: legacy_text(resolved.text, input.max_chars),
        summary: resolved.summary,
        highlights: resolved.highlights,
        livecrawl: resolved.livecrawl,
        livecrawl_timeout: resolved.livecrawl_timeout,
        max_age_hours: if resolved.max_age_hours is None {
            input.max_age_hours
        } else {
            resolved.max_age_hours
        },
        filter_empty_results: if resolved.filter_empty_results is None {
            input.filter_empty_results
        } else {
            resolved.filter_empty_results
        },
        subpages: resolved.subpages,
        subpage_target: resolved.subpage_target,
        extras: if resolved.extras is None {
            input.extras
        } else {
            resolved.extras
        },
    }
}

/// Validates and shapes a get-contents request: a non-empty url list is
/// required; the contents options arrive as top-level fields with the
/// legacy `max_chars` applied only when the group set no text options.
pub fn prepare_get_contents(input: Input) -> (r: Result<GetContentsOptions, &'static str>)
    ensures
        (input.urls is None || input.urls->0@.len() == 0) ==> (r matches Err(e) && e@
            == "'urls' (non-empty array) is required for action 'get_contents'"@),
        (input.urls matches Some(u) && u@.len() > 0) ==> (r matches Ok(o) && o
            == get_contents_options_of(input)),
{
    let urls = match input.urls {
        Some(u) => {
            if u.len() == 0 {
                return Err("'urls' (non-empty array) is required for action 'get_contents'");
            }
            u
        },
        None => {
            return Err("'urls' (non-empty array) is required for action 'get_contents'");
        },
    };
    let resolved = match input.contents {
        Some(c) => c.into_options(),
        None => ContentsOptions::default(),
    };
    let text = match resolved.text {
        Some(t) => Some(t),
        None => match input.max_chars {
            Some(mc) => Some(
                TextOptions {
                    max_characters: Some(mc),
                    include_html_tags: None,
                    verbosity: None,
                    include_sections: None,
                    exclude_sections: None,
                },
            ),
            None => None,
        },
    };
    let extras = match resolved.extras {
        Some(e) => Some(e),
        None => input.extras,
    };
    Ok(
        GetContentsOptions {
            urls,
            text,
            summary: resolved.summary,
            highlights: resolved.highlights,
            livecrawl: resolved.livecrawl,
            livecrawl_timeout: resolved.livecrawl_timeout,
            max_age_hours: if resolved.max_age_hours.is_none() {
                input.max_age_hours
            } else {
                resolved.max_age_hours
            },
            filter_empty_results: if resolved.filter_empty_results.is_none() {
                input.filter_empty_results
            } else {
                resolved.filter_empty_results
            },
            subpages: resolved.subpages,
            subpage_target: resolved.subpage_target,
            extras,
        },
    )
}

} // verus!
