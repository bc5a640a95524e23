//! The page that sends a browser on to the desktop app.

use vstd::prelude::*;

verus! {

/// `text` with every occurrence of `from` replaced by `to`, the occurrences
/// taken from left to right and never overlapping.
pub open spec fn replaced(text: Seq<char>, from: Seq<char>, to: Seq<char>) -> Seq<char>
    recommends
        from.len() > 0,
    decreases text.len(),
{
    if from.len() == 0 || text.len() < from.len() {
        text
    } else if text.subrange(0, from.len() as int) == from {
        to + replaced(text.subrange(from.len() as int, text.len() as int), from, to)
    } else {
        seq![text[0]] + replaced(text.subrange(1, text.len() as int), from, to)
    }
}

/// Calls `str::replace`.
///
/// Trusted: for a pattern that is not empty the result is [`replaced`].
#[verifier::external_body]
fn replace_all(text: &str, from: &str, to: &str) -> (out: String)
    requires
        from@.len() > 0,
    ensures
        out@ == replaced(text@, from@, to@),
{
    text.replace(from, to)
}

/// The page that hands a pair of tokens to the desktop app: `template` with
/// `%access_token%` filled in, then `%refresh_token%`.
pub fn token_page(template: &str, access_token: &str, refresh_token: &str) -> (html: String)
    ensures
        html@ == replaced(
            replaced(template@, "%access_token%"@, access_token@),
            "%refresh_token%"@,
            refresh_token@,
        ),
{
    proof {
        reveal_strlit("%access_token%");
        reveal_strlit("%refresh_token%");
    }
    let html = replace_all(template, "%access_token%", access_token);
    replace_all(html.as_str(), "%refresh_token%", refresh_token)
}

/// Collects what the redirect page shows.
#[derive(Debug, PartialEq, Eq)]
pub struct RedirectBuilder {
    pub title: Option<String>,
    pub description: Option<String>,
    pub image: Option<String>,
    pub url: String,
}

/// `page` with `mark` filled in, or untouched where there is no value.
pub open spec fn filled(page: Seq<char>, mark: Seq<char>, value: Option<String>) -> Seq<char> {
    match value {
        Some(text) => replaced(page, mark, text@),
        None => page,
    }
}

/// The page made from `template`: the URL is always filled in, then the
/// title, the description and the image where they were given.
pub open spec fn page_of(template: Seq<char>, builder: RedirectBuilder) -> Seq<char> {
    filled(
        filled(
            filled(replaced(template, "%REDIRECT_URL%"@, builder.url@), "%TITLE%"@, builder.title),
            "%DESCRIPTION%"@,
            builder.description,
        ),
        "%IMAGE%"@,
        builder.image,
    )
}

/// Fills `mark` in, if there is a value for it.
fn fill(page: String, mark: &str, value: &Option<String>) -> (out: String)
    requires
        mark@.len() > 0,
    ensures
        out@ == filled(page@, mark@, *value),
{
    match value {
        Some(text) => replace_all(page.as_str(), mark, text.as_str()),
        None => page,
    }
}

impl RedirectBuilder {
    /// A page that redirects to `url`, with nothing else filled in.
    pub fn new(url: String) -> (builder: RedirectBuilder)
        ensures
            builder.url == url,
            builder.title is None,
            builder.description is None,
            builder.image is None,
    {
        RedirectBuilder { title: None, description: None, image: None, url }
    }

    pub fn title(self, title: String) -> (builder: RedirectBuilder)
        ensures
            builder == (RedirectBuilder { title: Some(title), ..self }),
    {
        RedirectBuilder { title: Some(title), ..self }
    }

    pub fn description(self, description: String) -> (builder: RedirectBuilder)
        ensures
            builder == (RedirectBuilder { description: Some(description), ..self }),
    {
        RedirectBuilder { description: Some(description), ..self }
    }

    pub fn image(self, image: String) -> (builder: RedirectBuilder)
        ensures
            builder == (RedirectBuilder { image: Some(image), ..self }),
    {
        RedirectBuilder { image: Some(image), ..self }
    }

    /// The page: `template` with its marks `%REDIRECT_URL%`, `%TITLE%`,
    /// `%DESCRIPTION%` and `%IMAGE%` filled in. A mark without a value stays.
    pub fn build(self, template: &str) -> (html: String)
        ensures
            html@ == page_of(template@, self),
    {
        proof {
            reveal_strlit("%REDIRECT_URL%");
            reveal_strlit("%TITLE%");
            reveal_strlit("%DESCRIPTION%");
            reveal_strlit("%IMAGE%");
        }
        let html = replace_all(template, "%REDIRECT_URL%", self.url.as_str());
        let html = fill(html, "%TITLE%", &self.title);
        let html = fill(html, "%DESCRIPTION%", &self.description);
        fill(html, "%IMAGE%", &self.image)
    }
}

} // verus!
