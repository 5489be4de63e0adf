use nytimes::article::{
    Article, NYTArticleSearchObj, NYTArticleSearchResponse, NYTSearchArticle, NYTTopStoryArticle,
    NYTTopStoryResponse,
};
use nytimes::client::NYTInterface;
use nytimes::error::NewsError;
use nytimes::section::NYTSectionEnum;

fn client(key: &str) -> NYTInterface {
    match NYTInterface::new("nytimes/0.1.0", key) {
        Ok(client) => client,
        Err(error) => panic!("no client: {}", error.message()),
    }
}

fn story(title: &str, summary: &str, date: &str) -> NYTTopStoryArticle {
    NYTTopStoryArticle {
        url: format!("https://www.nytimes.com/{}", title),
        title: String::from(title),
        published_date: String::from(date),
        section: String::from("technology"),
        subsection: String::new(),
        summary: String::from(summary),
    }
}

fn hit(snippet: &str, lead: &str, date: &str) -> NYTSearchArticle {
    NYTSearchArticle {
        web_url: format!("https://www.nytimes.com/{}", snippet),
        source: String::from("The New York Times"),
        pub_date: String::from(date),
        snippet: String::from(snippet),
        summary: String::from("an abstract"),
        lead_paragraph: String::from(lead),
    }
}

fn top_stories(results: Vec<NYTTopStoryArticle>) -> NYTTopStoryResponse {
    NYTTopStoryResponse { status: String::from("OK"), copyright: String::from("(c)"), results }
}

fn search(docs: Vec<NYTSearchArticle>) -> NYTArticleSearchResponse {
    NYTArticleSearchResponse {
        status: String::from("OK"),
        copyright: String::from("(c)"),
        response: NYTArticleSearchObj { docs },
    }
}

#[test]
fn new_keeps_the_key() {
    let made = client("abc123");
    assert_eq!(made.api_key(), "abc123");
    assert_eq!(client("").api_key(), "");
}

#[test]
fn new_accepts_an_empty_user_agent() {
    let made = NYTInterface::new("", "k");
    assert!(made.is_ok());
}

#[test]
fn new_fails_on_a_user_agent_that_is_no_header() {
    for agent in ["two\nlines", "bell\u{7}", "del\u{7f}", "\r"] {
        match NYTInterface::new(agent, "k") {
            Ok(_) => panic!("made a client for {:?}", agent),
            Err(error) => {
                assert!(error.is_setup());
                assert!(!error.is_transport());
                assert!(!error.is_decode());
            }
        }
    }
}

#[test]
fn new_accepts_tabs_and_letters_beyond_ascii() {
    assert!(NYTInterface::new("news\treader", "k").is_ok());
    assert!(NYTInterface::new("lecteur/1.0 (caf\u{e9})", "k").is_ok());
}

#[test]
fn with_client_keeps_transport_and_key() {
    let transport = reqwest::Client::new();
    let made = NYTInterface::with_client(transport, "xyz");
    assert_eq!(made.api_key(), "xyz");
    let _transport: &reqwest::Client = made.client();
}

#[test]
fn top_stories_url_for_technology() {
    assert_eq!(
        client("abc123").top_stories_url(NYTSectionEnum::Technology),
        Ok(String::from("https://api.nytimes.com/svc/topstories/v2/technology.json?api-key=abc123"))
    );
}

#[test]
fn top_stories_url_has_the_token_as_path_segment() {
    let made = client("k");
    assert_eq!(
        made.top_stories_url(NYTSectionEnum::BooksReview),
        Ok(String::from("https://api.nytimes.com/svc/topstories/v2/books_review.json?api-key=k"))
    );
    assert_eq!(
        made.top_stories_url(NYTSectionEnum::UnitedStates),
        Ok(String::from("https://api.nytimes.com/svc/topstories/v2/us.json?api-key=k"))
    );
}

#[test]
fn top_stories_url_encodes_the_key() {
    assert_eq!(
        client("a b\"c").top_stories_url(NYTSectionEnum::World),
        Ok(String::from("https://api.nytimes.com/svc/topstories/v2/world.json?api-key=a%20b%22c"))
    );
    assert_eq!(
        client("a&b").top_stories_url(NYTSectionEnum::World),
        Ok(String::from("https://api.nytimes.com/svc/topstories/v2/world.json?api-key=a%26b"))
    );
}

#[test]
fn top_stories_url_keeps_the_ends_of_the_key() {
    assert_eq!(
        client("abc\n").top_stories_url(NYTSectionEnum::World),
        Ok(String::from("https://api.nytimes.com/svc/topstories/v2/world.json?api-key=abc%0A"))
    );
    assert_eq!(
        client(" abc ").top_stories_url(NYTSectionEnum::World),
        Ok(String::from("https://api.nytimes.com/svc/topstories/v2/world.json?api-key=%20abc%20"))
    );
}

#[test]
fn article_search_url_for_a_plain_query() {
    assert_eq!(
        client("abc123").article_search_url("tsla", ""),
        Ok(String::from(
            "https://api.nytimes.com/svc/search/v2/articlesearch.json?query=tsla&sort=newest&api-key=abc123"
        ))
    );
}

#[test]
fn article_search_url_encodes_the_query() {
    assert_eq!(
        client("k").article_search_url("electric cars", ""),
        Ok(String::from(
            "https://api.nytimes.com/svc/search/v2/articlesearch.json?query=electric%20cars&sort=newest&api-key=k"
        ))
    );
}

#[test]
fn article_search_url_escapes_what_would_split_the_query() {
    assert_eq!(
        client("K").article_search_url("a&b=c", ""),
        Ok(String::from(
            "https://api.nytimes.com/svc/search/v2/articlesearch.json?query=a%26b%3Dc&sort=newest&api-key=K"
        ))
    );
}

#[test]
fn article_search_url_keeps_sort_and_key_after_a_hash() {
    assert_eq!(
        client("K").article_search_url("c# jobs", ""),
        Ok(String::from(
            "https://api.nytimes.com/svc/search/v2/articlesearch.json?query=c%23%20jobs&sort=newest&api-key=K"
        ))
    );
}

#[test]
fn filter_has_no_effect_on_the_request() {
    let made = client("k");
    let plain = made.article_search_url("tsla", "");
    assert!(plain.is_ok());
    for filter in ["news_desk:(\"Business\")", "pub_year:2023", " ", "&fq=x"] {
        assert_eq!(made.article_search_url("tsla", filter), plain);
    }
}

#[test]
fn top_stories_come_back_in_order() {
    let reply = Ok(top_stories(vec![
        story("first", "abstract one", "2023-04-01"),
        story("second", "abstract two", "2023-04-02"),
        story("third", "abstract three", "2023-04-03"),
    ]));
    let stories = client("k").get_top_stories(reply);
    assert_eq!(
        stories,
        Ok(vec![
            Article {
                url: String::from("https://www.nytimes.com/first"),
                title: String::from("first"),
                text: String::from("abstract one"),
                published_at: String::from("2023-04-01"),
            },
            Article {
                url: String::from("https://www.nytimes.com/second"),
                title: String::from("second"),
                text: String::from("abstract two"),
                published_at: String::from("2023-04-02"),
            },
            Article {
                url: String::from("https://www.nytimes.com/third"),
                title: String::from("third"),
                text: String::from("abstract three"),
                published_at: String::from("2023-04-03"),
            },
        ])
    );
}

#[test]
fn search_hits_come_back_in_order() {
    let reply = Ok(search(vec![
        hit("snippet-b", "lead b", "2023-05-02T00:00:00+0000"),
        hit("snippet-a", "lead a", "2023-05-01T00:00:00+0000"),
    ]));
    let hits = client("k").get_article_search(reply);
    assert_eq!(
        hits,
        Ok(vec![
            Article {
                url: String::from("https://www.nytimes.com/snippet-b"),
                title: String::from("snippet-b"),
                text: String::from("lead b"),
                published_at: String::from("2023-05-02T00:00:00+0000"),
            },
            Article {
                url: String::from("https://www.nytimes.com/snippet-a"),
                title: String::from("snippet-a"),
                text: String::from("lead a"),
                published_at: String::from("2023-05-01T00:00:00+0000"),
            },
        ])
    );
}

#[test]
fn envelope_without_results_gives_an_empty_sequence() {
    let made = client("k");
    assert_eq!(made.get_top_stories(Ok(top_stories(Vec::new()))), Ok(Vec::new()));
    assert_eq!(made.get_article_search(Ok(search(Vec::new()))), Ok(Vec::new()));
}

#[test]
fn decode_failure_is_handed_on() {
    let made = client("k");
    let failure = NewsError::from_exchange(true, String::from("missing field `url` at line 1 column 87"));
    assert_eq!(
        made.get_top_stories(Err(failure.clone())),
        Err(NewsError::Decode(String::from("missing field `url` at line 1 column 87")))
    );
    assert_eq!(made.get_article_search(Err(failure.clone())), Err(failure));
}

#[test]
fn transport_failure_is_handed_on() {
    let made = client("k");
    let failure = NewsError::from_exchange(false, String::from("connection refused"));
    let stories = made.get_top_stories(Err(failure.clone()));
    assert_eq!(stories, Err(NewsError::Transport(String::from("connection refused"))));
    assert_ne!(stories, Err(NewsError::Decode(String::from("connection refused"))));
    match made.get_article_search(Err(failure)) {
        Err(error) => {
            assert!(error.is_transport());
            assert!(!error.is_decode());
            assert_eq!(error.message(), "connection refused");
        }
        Ok(hits) => panic!("{} hits from a failed exchange", hits.len()),
    }
}

#[test]
fn setup_outcome_becomes_client_or_setup_failure() {
    match NYTInterface::from_transport(Ok(reqwest::Client::new()), "abc") {
        Ok(made) => assert_eq!(made.api_key(), "abc"),
        Err(error) => panic!("no client: {}", error.message()),
    }
    match NYTInterface::from_transport(Err(String::from("builder error")), "abc") {
        Ok(_) => panic!("a client without a transport"),
        Err(error) => assert_eq!(error, NewsError::Setup(String::from("builder error"))),
    }
}
