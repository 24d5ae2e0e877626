//! The article fetcher: decoding and classifying one HTTP response from
//! the top-headlines endpoint, and building the request URL.
//!
//! The network call itself is not here: a caller performs the request and
//! hands the status and raw body to `process_response`.

use crate::json::{json_as_array, json_as_str, json_get, json_model, json_of, parse_json, JsonSpec};
use vstd::prelude::*;
use vstd::string::StringExecFns;
use vstd::utf8::{decode_utf8, valid_utf8};

verus! {

/// One article of the headlines response.
#[derive(Clone, Debug, PartialEq, Eq)]
pub struct Article {
    pub title: String,
    pub description: String,
    pub url: String,
}

/// The mathematical content of an `Article`.
pub ghost struct ArticleModel {
    pub title: Seq<char>,
    pub description: Seq<char>,
    pub url: Seq<char>,
}

impl View for Article {
    type V = ArticleModel;

    open spec fn view(&self) -> ArticleModel {
        ArticleModel { title: self.title@, description: self.description@, url: self.url@ }
    }
}

/// The decoded top-headlines response: its list of articles.
#[derive(Clone, Debug, PartialEq, Eq)]
pub struct Articles {
    pub articles: Vec<Article>,
}

impl View for Articles {
    type V = Seq<ArticleModel>;

    open spec fn view(&self) -> Seq<ArticleModel> {
        self.articles@.map_values(|a: Article| a@)
    }
}

/// The failure kinds of the fetcher, kept apart so that a caller can tell
/// a network problem from a schema change.
#[derive(Clone, Copy, Debug, PartialEq, Eq, Structural)]
pub enum NewsApiError {
    /// No success response: a transport failure, or a status outside
    /// 200..=299.
    RequestFailed,
    /// The response body is not valid UTF-8 text.
    FailedResponseToString,
    /// The body is not a JSON document of the expected article shape.
    ArticleParseFailed,
    /// The request URL does not parse as an absolute URL.
    UrlParseFailed,
}

/// The string member of a JSON value under `key`: `Some` exactly when the
/// value is an object holding a string there.
pub open spec fn field_str(j: JsonSpec, key: Seq<char>) -> Option<Seq<char>> {
    if j is Obj && j->Obj_0.contains_key(key) && j->Obj_0[key] is Str {
        Some(j->Obj_0[key]->Str_0)
    } else {
        None
    }
}

/// The article record held by one element of the `articles` array: the
/// element must be an object with string members `title`, `description`
/// and `url`.
pub open spec fn article_of_json(j: JsonSpec) -> Option<ArticleModel> {
    if field_str(j, "title"@) is Some && field_str(j, "description"@) is Some && field_str(
        j,
        "url"@,
    ) is Some {
        Some(
            ArticleModel {
                title: field_str(j, "title"@).unwrap(),
                description: field_str(j, "description"@).unwrap(),
                url: field_str(j, "url"@).unwrap(),
            },
        )
    } else {
        None
    }
}

/// The article list of a response document: the document must be an
/// object whose `articles` member is an array, and every element must be
/// an article record.
pub open spec fn articles_of_json(j: JsonSpec) -> Option<Seq<ArticleModel>> {
    if j is Obj && j->Obj_0.contains_key("articles"@) && j->Obj_0["articles"@] is Arr {
        let items = j->Obj_0["articles"@]->Arr_0;
        if forall|i: int| 0 <= i < items.len() ==> article_of_json(#[trigger] items[i]) is Some {
            Some(Seq::new(items.len(), |i: int| article_of_json(items[i]).unwrap()))
        } else {
            None
        }
    } else {
        None
    }
}

/// The articles encoded by a response text, if it is well-formed JSON of
/// the expected shape.
pub open spec fn decoded_articles(text: Seq<char>) -> Option<Seq<ArticleModel>> {
    match json_of(text) {
        Some(j) => articles_of_json(j),
        None => None,
    }
}

/// Parses a response body into the article list.
///
/// Succeeds exactly on texts that are one well-formed JSON document of
/// the expected article shape, and then returns every article verbatim,
/// in the order of the array.
pub fn parse_articles(text: &str) -> (r: Result<Articles, NewsApiError>)
    ensures
        match r {
            Ok(arts) => decoded_articles(text@) == Some(arts@),
            Err(e) => e == NewsApiError::ArticleParseFailed && decoded_articles(text@) is None,
        },
{
    let doc = match parse_json(text) {
        Some(v) => v,
        None => { return Err(NewsApiError::ArticleParseFailed) },
    };
    let member = match json_get(&doc, "articles") {
        Some(m) => m,
        None => { return Err(NewsApiError::ArticleParseFailed) },
    };
    let items = match json_as_array(member) {
        Some(a) => a,
        None => { return Err(NewsApiError::ArticleParseFailed) },
    };
    let ghost jdoc = json_model(doc);
    let ghost jitems = jdoc->Obj_0["articles"@]->Arr_0;
    proof {
        assert(jitems =~= items@.map_values(|x: serde_json::Value| json_model(x)));
    }
    let mut out: Vec<Article> = Vec::new();
    let mut i: usize = 0;
    while i < items.len()
        invariant
            i <= items.len(),
            json_of(text@) == Some(jdoc),
            jdoc is Obj && jdoc->Obj_0.contains_key("articles"@) && jdoc->Obj_0["articles"@] is Arr,
            jitems == jdoc->Obj_0["articles"@]->Arr_0,
            jitems == items@.map_values(|x: serde_json::Value| json_model(x)),
            out@.len() == i,
            forall|k: int|
                0 <= k < i ==> article_of_json(#[trigger] jitems[k]) == Some(out@[k]@),
        decreases items.len() - i,
    {
        let item = &items[i];
        proof {
            assert(json_model(*item) == jitems[i as int]);
        }
        let t = match json_get(item, "title") {
            Some(x) => x,
            None => {
                proof {
                    assert(article_of_json(jitems[i as int]) is None);
                }
                return Err(NewsApiError::ArticleParseFailed);
            },
        };
        let title = match json_as_str(t) {
            Some(s) => s,
            None => {
                proof {
                    assert(article_of_json(jitems[i as int]) is None);
                }
                return Err(NewsApiError::ArticleParseFailed);
            },
        };
        let d = match json_get(item, "description") {
            Some(x) => x,
            None => {
                proof {
                    assert(article_of_json(jitems[i as int]) is None);
                }
                return Err(NewsApiError::ArticleParseFailed);
            },
        };
        let description = match json_as_str(d) {
            Some(s) => s,
            None => {
                proof {
                    assert(article_of_json(jitems[i as int]) is None);
                }
                return Err(NewsApiError::ArticleParseFailed);
            },
        };
        let u = match json_get(item, "url") {
            Some(x) => x,
            None => {
                proof {
                    assert(article_of_json(jitems[i as int]) is None);
                }
                return Err(NewsApiError::ArticleParseFailed);
            },
        };
        let url = match json_as_str(u) {
            Some(s) => s,
            None => {
                proof {
                    assert(article_of_json(jitems[i as int]) is None);
                }
                return Err(NewsApiError::ArticleParseFailed);
            },
        };
        out.push(
            Article {
                title: title.to_owned(),
                description: description.to_owned(),
                url: url.to_owned(),
            },
        );
        i = i + 1;
    }
    let arts = Articles { articles: out };
    proof {
        assert(Seq::new(jitems.len(), |k: int| article_of_json(jitems[k]).unwrap()) =~= arts@);
    }
    Ok(arts)
}

/// Relies on std's String::from_utf8: succeeds exactly on valid UTF-8,
/// decoding it.
#[verifier::external_body]
fn utf8_to_string(bytes: Vec<u8>) -> (r: Option<String>)
    ensures
        match r {
            Some(s) => valid_utf8(bytes@) && s@ == decode_utf8(bytes@),
            None => !valid_utf8(bytes@),
        },
{
    String::from_utf8(bytes).ok()
}

/// Decodes and classifies one HTTP response from the headlines endpoint.
///
/// A status outside 200..=299 is a protocol failure; a body that is not
/// UTF-8 text is a decode failure; a body that is not JSON of the article
/// shape is a schema failure; otherwise every article of the response is
/// returned verbatim.
pub fn process_response(status: u16, body: Vec<u8>) -> (r: Result<Articles, NewsApiError>)
    ensures
        !(200 <= status < 300) ==> r == Err::<Articles, NewsApiError>(NewsApiError::RequestFailed),
        200 <= status < 300 && !valid_utf8(body@) ==> r == Err::<Articles, NewsApiError>(
            NewsApiError::FailedResponseToString,
        ),
        200 <= status < 300 && valid_utf8(body@) ==> match r {
            Ok(arts) => decoded_articles(decode_utf8(body@)) == Some(arts@),
            Err(e) => e == NewsApiError::ArticleParseFailed && decoded_articles(
                decode_utf8(body@),
            ) is None,
        },
{
    if status < 200 || status >= 300 {
        return Err(NewsApiError::RequestFailed);
    }
    let text = match utf8_to_string(body) {
        Some(s) => s,
        None => { return Err(NewsApiError::FailedResponseToString) },
    };
    parse_articles(text.as_str())
}

/// An endpoint of the news API.
#[derive(Clone, Copy, Debug, PartialEq, Eq, Structural)]
pub enum Endpoint {
    TopHeadlines,
}

/// The path segment of an endpoint.
pub open spec fn endpoint_seq(e: Endpoint) -> Seq<char> {
    match e {
        Endpoint::TopHeadlines => "top-headlines"@,
    }
}

impl Endpoint {
    /// The path segment of this endpoint.
    pub fn to_string(&self) -> (s: String)
        ensures
            s@ == endpoint_seq(*self),
    {
        match self {
            Endpoint::TopHeadlines => "top-headlines".to_owned(),
        }
    }
}

/// A country whose headlines can be requested.
#[derive(Clone, Copy, Debug, PartialEq, Eq, Structural)]
pub enum Country {
    Us,
    Jp,
    De,
    Gr,
}

/// The two-letter lowercase code of a country.
pub open spec fn country_seq(c: Country) -> Seq<char> {
    match c {
        Country::Us => "us"@,
        Country::Jp => "jp"@,
        Country::De => "de"@,
        Country::Gr => "gr"@,
    }
}

impl Country {
    /// The two-letter lowercase code of this country.
    pub fn to_string(&self) -> (s: String)
        ensures
            s@ == country_seq(*self),
    {
        match self {
            Country::Us => "us".to_owned(),
            Country::Jp => "jp".to_owned(),
            Country::De => "de".to_owned(),
            Country::Gr => "gr".to_owned(),
        }
    }
}

/// A request builder for the news API: which endpoint and country to
/// query, with the caller's API key.
pub struct NewsAPI {
    api_key: String,
    endpoint: Endpoint,
    country: Country,
}

/// The request URL text before validation: base, endpoint path, and the
/// country and key as query parameters.
pub open spec fn query_url(e: Endpoint, c: Country, key: Seq<char>) -> Seq<char> {
    "https://newsapi.org/v2/"@ + endpoint_seq(e) + "?country="@ + country_seq(c) + "&apiKey="@
        + key
}

/// What url::Url::parse yields on a text, rendered back to text: `Some`
/// exactly when the text parses as an absolute URL.
pub uninterp spec fn url_normalize(s: Seq<char>) -> Option<Seq<char>>;

/// Relies on url::Url::parse: validates and normalizes an absolute URL;
/// the result depends on the text alone.
#[verifier::external_body]
fn normalize_url(s: &str) -> (r: Option<String>)
    ensures
        match r {
            Some(t) => url_normalize(s@) == Some(t@),
            None => url_normalize(s@) is None,
        },
{
    url::Url::parse(s).ok().map(|u| String::from(u))
}

impl NewsAPI {
    /// The key this builder was made with.
    pub closed spec fn spec_api_key(&self) -> Seq<char> {
        self.api_key@
    }

    /// The endpoint this builder queries.
    pub closed spec fn spec_endpoint(&self) -> Endpoint {
        self.endpoint
    }

    /// The country this builder queries.
    pub closed spec fn spec_country(&self) -> Country {
        self.country
    }

    /// A builder for the top headlines of `country`, with `api_key`.
    pub fn new(api_key: &str, country: Country) -> (n: NewsAPI)
        ensures
            n.spec_api_key() == api_key@,
            n.spec_endpoint() == Endpoint::TopHeadlines,
            n.spec_country() == country,
    {
        NewsAPI { api_key: api_key.to_owned(), endpoint: Endpoint::TopHeadlines, country }
    }

    /// Selects the endpoint to query.
    pub fn endpoint(&mut self, endpoint: Endpoint)
        ensures
            final(self).spec_endpoint() == endpoint,
            final(self).spec_api_key() == old(self).spec_api_key(),
            final(self).spec_country() == old(self).spec_country(),
    {
        self.endpoint = endpoint;
    }

    /// Selects the country to query.
    pub fn country(&mut self, country: Country)
        ensures
            final(self).spec_country() == country,
            final(self).spec_api_key() == old(self).spec_api_key(),
            final(self).spec_endpoint() == old(self).spec_endpoint(),
    {
        self.country = country;
    }

    /// Builds and validates the request URL for this query.
    pub fn prepare_url(&self) -> (r: Result<String, NewsApiError>)
        ensures
            match r {
                Ok(u) => url_normalize(
                    query_url(self.spec_endpoint(), self.spec_country(), self.spec_api_key()),
                ) == Some(u@),
                Err(e) => e == NewsApiError::UrlParseFailed && url_normalize(
                    query_url(self.spec_endpoint(), self.spec_country(), self.spec_api_key()),
                ) is None,
            },
    {
        let mut s = "https://newsapi.org/v2/".to_owned();
        let e = self.endpoint.to_string();
        s.append(e.as_str());
        s.append("?country=");
        let c = self.country.to_string();
        s.append(c.as_str());
        s.append("&apiKey=");
        s.append(self.api_key.as_str());
        proof {
            assert(s@ =~= query_url(self.spec_endpoint(), self.spec_country(), self.spec_api_key()));
        }
        match normalize_url(s.as_str()) {
            Some(u) => Ok(u),
            None => Err(NewsApiError::UrlParseFailed),
        }
    }
}

} // verus!
