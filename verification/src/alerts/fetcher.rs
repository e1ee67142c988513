//! Reading a watched value out of a web page, and the retry policy of a
//! fetch.
use vstd::prelude::*;
use crate::text::{cat3, decimal, decimal_string, opt_view, owned, trim, trim_str};

verus! {

/// What scraper gives for the first element of `html` that matches the CSS
/// selector `css`: its inner HTML, its text, and its attribute `attr`; no
/// element when nothing matches; the selector's parse error when `css` is
/// not a valid selector.
pub uninterp spec fn html_first_match(html: Seq<char>, css: Seq<char>, attr: Seq<char>) -> Result<
    Option<(Seq<char>, Seq<char>, Option<Seq<char>>)>,
    Seq<char>,
>;

/// The parts of an element that a watched property can name.
pub struct FirstMatch {
    pub inner_html: String,
    pub text: String,
    pub attr: Option<String>,
}

/// Parses `html` with `scraper::Html::parse_document` and `css` with
/// `scraper::Selector::parse`, takes the first element that `Html::select`
/// yields, and returns its `inner_html()`, its `text()` concatenated, and
/// its `attr(attr)`; the selector error rendered with `Debug` when `css`
/// does not parse. The result is only named.
#[verifier::external_body]
fn select_first(html: &str, css: &str, attr: &str) -> (r: Result<Option<FirstMatch>, String>)
    ensures
        match r {
            Ok(Some(m)) => html_first_match(html@, css@, attr@) == Ok::<
                Option<(Seq<char>, Seq<char>, Option<Seq<char>>)>,
                Seq<char>,
            >(Some((m.inner_html@, m.text@, opt_view(m.attr)))),
            Ok(None) => html_first_match(html@, css@, attr@) == Ok::<
                Option<(Seq<char>, Seq<char>, Option<Seq<char>>)>,
                Seq<char>,
            >(None),
            Err(e) => html_first_match(html@, css@, attr@) == Err::<
                Option<(Seq<char>, Seq<char>, Option<Seq<char>>)>,
                Seq<char>,
            >(e@),
        },
{
    let selector = match scraper::Selector::parse(css) {
        Ok(s) => s,
        Err(e) => return Err(format!("{e:?}")),
    };
    let document = scraper::Html::parse_document(html);
    let element = match document.select(&selector).next() {
        Some(element) => element,
        None => return Ok(None),
    };
    let value = match element.attr(attr) {
        Some(v) => Some(v.to_string()),
        None => None,
    };
    Ok(Some(FirstMatch { inner_html: element.inner_html(), text: element.text().collect(), attr: value }))
}

/// The value of `property` read from what the selection `found` gave, for
/// the selector `css`: the selector's error, no element, or the element's
/// inner HTML (`innerHTML`), text (`innerText`, `text`) or attribute of that
/// name (any other property), trimmed.
pub open spec fn match_value_spec(
    found: Result<Option<(Seq<char>, Seq<char>, Option<Seq<char>>)>, Seq<char>>,
    css: Seq<char>,
    property: Seq<char>,
) -> Result<Seq<char>, Seq<char>> {
    match found {
        Err(e) => Err("Invalid CSS selector \""@ + css + "\": "@ + e),
        Ok(None) => Err("No element matches selector \""@ + css + "\""@),
        Ok(Some(el)) => if property == "innerHTML"@ {
            Ok(trim(el.0))
        } else if property == "innerText"@ || property == "text"@ {
            Ok(trim(el.1))
        } else {
            match el.2 {
                Some(v) => Ok(trim(v)),
                None => Err("Attribute \""@ + property + "\" not found on element"@),
            }
        },
    }
}

/// The value of `property` of the first element matching `css` in `html`,
/// trimmed: `innerHTML` is the element's inner HTML, `innerText` and `text`
/// its text, any other name the attribute of that name.
pub open spec fn extract_spec(html: Seq<char>, css: Seq<char>, property: Seq<char>) -> Result<
    Seq<char>,
    Seq<char>,
> {
    match_value_spec(html_first_match(html, css, property), css, property)
}

pub open spec fn result_view(r: Result<String, String>) -> Result<Seq<char>, Seq<char>> {
    match r {
        Ok(s) => Ok(s@),
        Err(e) => Err(e@),
    }
}

/// The view of what a selection gave.
pub open spec fn found_view(found: Result<Option<FirstMatch>, String>) -> Result<
    Option<(Seq<char>, Seq<char>, Option<Seq<char>>)>,
    Seq<char>,
> {
    match found {
        Ok(Some(m)) => Ok(Some((m.inner_html@, m.text@, opt_view(m.attr)))),
        Ok(None) => Ok(None),
        Err(e) => Err(e@),
    }
}

/// Reads the value of `property` out of what selecting `css` gave.
pub fn value_of_match(found: Result<Option<FirstMatch>, String>, css: &str, property: &str) -> (r:
    Result<String, String>)
    ensures
        result_view(r) == match_value_spec(found_view(found), css@, property@),
{
    match found {
        Err(e) => {
            let mut m = cat3("Invalid CSS selector \"", css, "\": ");
            m.append(e.as_str());
            Err(m)
        },
        Ok(None) => Err(cat3("No element matches selector \"", css, "\"")),
        Ok(Some(el)) => {
            let p = owned(property);
            if p == owned("innerHTML") {
                Ok(trim_str(el.inner_html.as_str()))
            } else if p == owned("innerText") || p == owned("text") {
                Ok(trim_str(el.text.as_str()))
            } else {
                match el.attr {
                    Some(v) => Ok(trim_str(v.as_str())),
                    None => Err(cat3("Attribute \"", property, "\" not found on element")),
                }
            }
        },
    }
}

/// Reads the value of `property` from the first element matching `css`.
pub fn extract_value(html: &str, css: &str, property: &str) -> (r: Result<String, String>)
    ensures
        result_view(r) == extract_spec(html@, css@, property@),
{
    let found = select_first(html, css, property);
    value_of_match(found, css, property)
}

/// An HTTP status code in the success class 200..=299
/// (`reqwest::StatusCode::is_success`).
pub open spec fn is_success(status: u16) -> bool {
    200 <= status && status < 300
}

/// The value that one fetch of `url` yields, given the response's status
/// code, the status as displayed, and the page: a status outside 2xx is an
/// error, otherwise the value is read from the page.
pub fn page_value(
    url: &str,
    status: u16,
    status_text: &str,
    html: &str,
    css: &str,
    property: &str,
) -> (r: Result<String, String>)
    ensures
        !is_success(status) ==> (r matches Err(e) && e@ == "HTTP "@ + status_text@ + " for "@ + url@),
        is_success(status) ==> result_view(r) == extract_spec(html@, css@, property@),
{
    if !(200 <= status && status < 300) {
        let mut m = cat3("HTTP ", status_text, " for ");
        m.append(url);
        return Err(m);
    }
    extract_value(html, css, property)
}

/// The number of times a value is fetched before giving up.
pub const MAX_ATTEMPTS: u8 = 5;

/// What to do after fetch attempt number `attempt` (counting from 1).
pub enum FetchStep {
    /// Wait and try again.
    Retry,
    /// Stop with this result.
    Finish(Result<String, String>),
}

/// After attempt `attempt` gave `result`: a value is the result; a failure
/// before the last attempt is retried; the last failure ends the fetch with
/// an error that names the number of attempts and the last failure.
pub fn after_attempt(attempt: u8, result: Result<String, String>) -> (s: FetchStep)
    requires
        1 <= attempt <= MAX_ATTEMPTS,
    ensures
        result matches Ok(v) ==> s == FetchStep::Finish(Ok::<String, String>(v)),
        result is Err && attempt < MAX_ATTEMPTS ==> s is Retry,
        attempt == MAX_ATTEMPTS ==> (result matches Err(e) ==> (s matches FetchStep::Finish(Err(m))
            && m@ == "Fetch failed after "@ + decimal(MAX_ATTEMPTS as nat) + " attempts: "@ + e@)),
{
    match result {
        Ok(v) => FetchStep::Finish(Ok(v)),
        Err(e) => {
            if attempt < MAX_ATTEMPTS {
                FetchStep::Retry
            } else {
                let mut m = owned("Fetch failed after ");
                let n = decimal_string(MAX_ATTEMPTS as usize);
                m.append(n.as_str());
                m.append(" attempts: ");
                m.append(e.as_str());
                FetchStep::Finish(Err(m))
            }
        },
    }
}

} // verus!
