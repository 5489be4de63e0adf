//! The client: a transport and a key, and the two calls that it offers.

use vstd::prelude::*;

use crate::article::{
    article_views, articles_from_search, articles_from_top_stories, unified_search_hits,
    unified_top_stories, Article, NYTArticleSearchResponse, NYTTopStoryResponse,
};
use crate::error::NewsError;
use crate::request::{
    article_search_text, parsed_url, request_url, top_stories_text, write_article_search,
    write_top_stories,
};
use crate::section::NYTSectionEnum;

verus! {

/// `reqwest::Client`, the transport. The client carries it and never looks inside.
#[verifier::external_type_specification]
#[verifier::external_body]
pub struct ExClient(reqwest::Client);

/// Whether `c` may stand in the value of a header: anything but a control
/// character, the tab excepted.
pub open spec fn is_header_char(c: char) -> bool {
    (c >= ' ' && c != '\u{7f}') || c == '\t'
}

/// Whether `text` can be the value of a header.
pub open spec fn is_header_text(text: Seq<char>) -> bool {
    forall|i: int| 0 <= i < text.len() ==> is_header_char(#[trigger] text[i])
}

/// Calls `reqwest::Client::builder`, then `user_agent` and `build` on what it
/// gives: a transport that sends `user_agent` with every request. Whether one can
/// be made depends on the machine, so success is never claimed. Not proved: that
/// none is made where `user_agent` cannot be the value of a header. A failure
/// comes with the transport's message.
#[verifier::external_body]
fn build_client(user_agent: &str) -> (built: Result<reqwest::Client, String>)
    ensures
        !is_header_text(user_agent@) ==> built is Err,
{
    match reqwest::Client::builder().user_agent(user_agent).build() {
        Ok(client) => Ok(client),
        Err(error) => Err(error.to_string()),
    }
}

/// A client of the article feeds. It holds the transport over which its requests
/// go and the key that they carry; neither changes once the client is made.
pub struct NYTInterface {
    client: reqwest::Client,
    api_key: String,
}

impl NYTInterface {
    /// The transport over which the client's requests go.
    pub closed spec fn transport(&self) -> reqwest::Client {
        self.client
    }

    /// The key that the client's requests carry.
    pub closed spec fn key(&self) -> Seq<char> {
        self.api_key@
    }

    /// Makes a client that names itself `app_user_agent` to the service and
    /// carries `api_key`. Neither is looked at here. The one failure is that of
    /// the transport, which cannot be set up where the machine does not allow it
    /// or where `app_user_agent` cannot be sent as a header.
    pub fn new(app_user_agent: &str, api_key: &str) -> (made: Result<NYTInterface, NewsError>)
        ensures
            !is_header_text(app_user_agent@) ==> made is Err,
            match made {
                Ok(client) => client.key() == api_key@,
                Err(error) => error is Setup,
            },
    {
        NYTInterface::from_transport(build_client(app_user_agent), api_key)
    }

    /// Makes a client from the outcome of setting up a transport. A transport
    /// gives a client over it that carries `api_key`; a failure gives a setup
    /// failure with the same words, and no client.
    pub fn from_transport(built: Result<reqwest::Client, String>, api_key: &str) -> (made: Result<
        NYTInterface,
        NewsError,
    >)
        ensures
            match built {
                Ok(client) => made matches Ok(interface) && interface.transport() == client
                    && interface.key() == api_key@,
                Err(detail) => made == Err::<NYTInterface, NewsError>(NewsError::Setup(detail)),
            },
    {
        match built {
            Ok(client) => Ok(NYTInterface::with_client(client, api_key)),
            Err(detail) => Err(NewsError::Setup(detail)),
        }
    }

    /// Makes a client over a transport that the caller has set up.
    pub fn with_client(client: reqwest::Client, api_key: &str) -> (made: NYTInterface)
        ensures
            made.transport() == client,
            made.key() == api_key@,
    {
        NYTInterface { client, api_key: String::from_str(api_key) }
    }

    /// Returns the transport, for the one who performs the exchange.
    pub fn client(&self) -> (transport: &reqwest::Client)
        ensures
            *transport == self.transport(),
    {
        &self.client
    }

    /// Returns the key that the client's requests carry.
    pub fn api_key(&self) -> (key: &str)
        ensures
            key@ == self.key(),
    {
        self.api_key.as_str()
    }

    /// The URL of the one request that a top-stories call for `section` makes:
    /// what the request's text denotes, the text being written from the section's
    /// token and the client's key, the key encoded as a query value.
    pub fn top_stories_url(&self, section: NYTSectionEnum) -> (url: Result<String, NewsError>)
        ensures
            match url {
                Ok(address) => parsed_url(top_stories_text(section.token(), self.key())) == Some(
                    address@,
                ),
                Err(error) => parsed_url(top_stories_text(section.token(), self.key())) is None
                    && error is Transport,
            },
    {
        let text = write_top_stories(section, self.api_key.as_str());
        request_url(text.as_str())
    }

    /// The URL of the one request that an article search for `query` makes: what
    /// the request's text denotes, the text being written from the query and the
    /// client's key, each encoded as a query value. The filter is accepted and has
    /// no effect.
    pub fn article_search_url(&self, query: &str, filter: &str) -> (url: Result<String, NewsError>)
        ensures
            match url {
                Ok(address) => parsed_url(article_search_text(query@, filter@, self.key()))
                    == Some(address@),
                Err(error) => parsed_url(article_search_text(query@, filter@, self.key())) is None
                    && error is Transport,
            },
    {
        let text = write_article_search(query, filter, self.api_key.as_str());
        request_url(text.as_str())
    }

    /// Completes a top-stories call from what the exchange gave. An envelope gives
    /// its records as articles, one for one and in order, none where it holds
    /// none; a failure is handed on as it came.
    pub fn get_top_stories(&self, reply: Result<NYTTopStoryResponse, NewsError>) -> (stories:
        Result<Vec<Article>, NewsError>)
        ensures
            match reply {
                Ok(data) => stories matches Ok(articles) && articles@.len()
                    == data.results@.len() && article_views(articles@) == unified_top_stories(
                    data.results@,
                ),
                Err(error) => stories == Err::<Vec<Article>, NewsError>(error),
            },
    {
        match reply {
            Ok(data) => Ok(articles_from_top_stories(data)),
            Err(error) => Err(error),
        }
    }

    /// Completes an article search from what the exchange gave. An envelope gives
    /// its hits as articles, one for one and in order, none where it holds none; a
    /// failure is handed on as it came.
    pub fn get_article_search(&self, reply: Result<NYTArticleSearchResponse, NewsError>) -> (hits:
        Result<Vec<Article>, NewsError>)
        ensures
            match reply {
                Ok(data) => hits matches Ok(articles) && articles@.len()
                    == data.response.docs@.len() && article_views(articles@)
                    == unified_search_hits(data.response.docs@),
                Err(error) => hits == Err::<Vec<Article>, NewsError>(error),
            },
    {
        match reply {
            Ok(data) => Ok(articles_from_search(data)),
            Err(error) => Err(error),
        }
    }
}

} // verus!
