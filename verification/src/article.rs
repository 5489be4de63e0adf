//! The unified article, the two shapes in which the feeds deliver their
//! records, and the mapping from each shape to the unified one.

use vstd::prelude::*;

verus! {

/// An article as every feed's records are handed to the caller.
#[derive(Debug, Clone, PartialEq, Eq)]
pub struct Article {
    pub url: String,
    pub title: String,
    /// A short excerpt, not the article's body.
    pub text: String,
    /// The date as the feed wrote it.
    pub published_at: String,
}

/// What an [`Article`] holds.
pub struct ArticleView {
    pub url: Seq<char>,
    pub title: Seq<char>,
    pub text: Seq<char>,
    pub published_at: Seq<char>,
}

impl View for Article {
    type V = ArticleView;

    open spec fn view(&self) -> ArticleView {
        ArticleView {
            url: self.url@,
            title: self.title@,
            text: self.text@,
            published_at: self.published_at@,
        }
    }
}

/// One record of the top-stories feed.
#[derive(Debug, Clone, PartialEq, Eq)]
pub struct NYTTopStoryArticle {
    pub url: String,
    pub title: String,
    pub published_date: String,
    pub section: String,
    pub subsection: String,
    /// The feed's `abstract`.
    pub summary: String,
}

/// What a [`NYTTopStoryArticle`] holds.
pub struct TopStoryView {
    pub url: Seq<char>,
    pub title: Seq<char>,
    pub published_date: Seq<char>,
    pub section: Seq<char>,
    pub subsection: Seq<char>,
    pub summary: Seq<char>,
}

impl TopStoryView {
    /// The unified article of a top story: its excerpt is the summary, its date
    /// the publication date.
    pub open spec fn unified(self) -> ArticleView {
        ArticleView {
            url: self.url,
            title: self.title,
            text: self.summary,
            published_at: self.published_date,
        }
    }
}

impl View for NYTTopStoryArticle {
    type V = TopStoryView;

    open spec fn view(&self) -> TopStoryView {
        TopStoryView {
            url: self.url@,
            title: self.title@,
            published_date: self.published_date@,
            section: self.section@,
            subsection: self.subsection@,
            summary: self.summary@,
        }
    }
}

/// The envelope of the top-stories feed.
#[derive(Debug, Clone, PartialEq, Eq)]
pub struct NYTTopStoryResponse {
    pub status: String,
    pub copyright: String,
    pub results: Vec<NYTTopStoryArticle>,
}

/// One hit of the article search.
#[derive(Debug, Clone, PartialEq, Eq)]
pub struct NYTSearchArticle {
    pub web_url: String,
    pub source: String,
    pub pub_date: String,
    pub snippet: String,
    /// The feed's `abstract`.
    pub summary: String,
    pub lead_paragraph: String,
}

/// What a [`NYTSearchArticle`] holds.
pub struct SearchHitView {
    pub web_url: Seq<char>,
    pub source: Seq<char>,
    pub pub_date: Seq<char>,
    pub snippet: Seq<char>,
    pub summary: Seq<char>,
    pub lead_paragraph: Seq<char>,
}

impl SearchHitView {
    /// The unified article of a search hit. A hit has no title of its own: the
    /// snippet stands for it, and the excerpt is the lead paragraph, not the
    /// summary.
    pub open spec fn unified(self) -> ArticleView {
        ArticleView {
            url: self.web_url,
            title: self.snippet,
            text: self.lead_paragraph,
            published_at: self.pub_date,
        }
    }
}

impl View for NYTSearchArticle {
    type V = SearchHitView;

    open spec fn view(&self) -> SearchHitView {
        SearchHitView {
            web_url: self.web_url@,
            source: self.source@,
            pub_date: self.pub_date@,
            snippet: self.snippet@,
            summary: self.summary@,
            lead_paragraph: self.lead_paragraph@,
        }
    }
}

/// The object that holds the hits inside the search envelope.
#[derive(Debug, Clone, PartialEq, Eq)]
pub struct NYTArticleSearchObj {
    pub docs: Vec<NYTSearchArticle>,
}

/// The envelope of the article search.
#[derive(Debug, Clone, PartialEq, Eq)]
pub struct NYTArticleSearchResponse {
    pub status: String,
    pub copyright: String,
    pub response: NYTArticleSearchObj,
}

/// What a sequence of articles holds, one view for each article, in order.
pub open spec fn article_views(articles: Seq<Article>) -> Seq<ArticleView> {
    Seq::new(articles.len(), |i: int| articles[i]@)
}

/// The unified articles of a sequence of top stories: one for each record, in
/// the order of the records.
pub open spec fn unified_top_stories(records: Seq<NYTTopStoryArticle>) -> Seq<ArticleView> {
    Seq::new(records.len(), |i: int| records[i]@.unified())
}

/// The unified articles of a sequence of search hits: one for each hit, in the
/// order of the hits.
pub open spec fn unified_search_hits(hits: Seq<NYTSearchArticle>) -> Seq<ArticleView> {
    Seq::new(hits.len(), |i: int| hits[i]@.unified())
}

impl Article {
    /// Makes the unified article of one top story.
    pub fn from_top_story(record: NYTTopStoryArticle) -> (article: Article)
        ensures
            article@ == record@.unified(),
    {
        Article {
            url: record.url,
            title: record.title,
            text: record.summary,
            published_at: record.published_date,
        }
    }

    /// Makes the unified article of one search hit.
    pub fn from_search_hit(hit: NYTSearchArticle) -> (article: Article)
        ensures
            article@ == hit@.unified(),
    {
        Article {
            url: hit.web_url,
            title: hit.snippet,
            text: hit.lead_paragraph,
            published_at: hit.pub_date,
        }
    }
}

/// Maps the records of a top-stories envelope to unified articles. Every record
/// gives one article, at the place where the record stood; an envelope without
/// records gives no articles.
pub fn articles_from_top_stories(data: NYTTopStoryResponse) -> (articles: Vec<Article>)
    ensures
        articles@.len() == data.results@.len(),
        article_views(articles@) == unified_top_stories(data.results@),
{
    let ghost records = data.results@;
    let mut articles: Vec<Article> = Vec::new();
    for record in iter: data.results.into_iter()
        invariant
            iter.seq() == records,
            articles@.len() == iter.index(),
            forall|i: int| 0 <= i < articles@.len() ==> articles@[i]@ == records[i]@.unified(),
    {
        articles.push(Article::from_top_story(record));
    }
    assert(article_views(articles@) =~= unified_top_stories(records));
    articles
}

/// Maps the hits of a search envelope to unified articles. Every hit gives one
/// article, at the place where the hit stood; an envelope without hits gives no
/// articles.
pub fn articles_from_search(data: NYTArticleSearchResponse) -> (articles: Vec<Article>)
    ensures
        articles@.len() == data.response.docs@.len(),
        article_views(articles@) == unified_search_hits(data.response.docs@),
{
    let ghost hits = data.response.docs@;
    let mut articles: Vec<Article> = Vec::new();
    for hit in iter: data.response.docs.into_iter()
        invariant
            iter.seq() == hits,
            articles@.len() == iter.index(),
            forall|i: int| 0 <= i < articles@.len() ==> articles@[i]@ == hits[i]@.unified(),
    {
        articles.push(Article::from_search_hit(hit));
    }
    assert(article_views(articles@) =~= unified_search_hits(hits));
    articles
}

} // verus!
