//! Value objects of the articles context: persisted articles, new-article
//! input, the failure taxonomy, and the presenter output.

use vstd::prelude::*;
use crate::common::ids::{UniqueId, valid_uuid_text, uuid_text_hi, uuid_text_lo};
use crate::common::json::{JsonValue, JsonValueV};

verus! {

use vstd::string::{StrSliceExecFns, StringExecFns};

/// A list of articles.
pub type ArticlesList = Vec<Article>;

/// A persisted article: identifier, author identifier, title, content and
/// creation timestamp.
#[derive(Debug, Clone)]
pub struct Article {
    pub id: UniqueId,
    pub author_id: UniqueId,
    pub title: String,
    pub content: String,
    pub created_at: String,
}

impl Article {
    /// Assembles an article from its parts.
    pub fn new(
        id: UniqueId,
        author_id: UniqueId,
        title: String,
        content: String,
        created_at: String,
    ) -> (r: Self)
        ensures
            r.id == id,
            r.author_id == author_id,
            r.title == title,
            r.content == content,
            r.created_at == created_at,
    {
        Article { id, author_id, title, content, created_at }
    }

    /// The unique identifier of the article.
    pub fn id(&self) -> (r: &UniqueId)
        ensures
            r == self.id,
    {
        &self.id
    }

    /// The unique identifier of the author.
    pub fn author_id(&self) -> (r: &UniqueId)
        ensures
            r == self.author_id,
    {
        &self.author_id
    }

    /// The title of the article.
    pub fn title(&self) -> (r: &str)
        ensures
            r@ == self.title@,
    {
        self.title.as_str()
    }

    /// The content of the article.
    pub fn content(&self) -> (r: &str)
        ensures
            r@ == self.content@,
    {
        self.content.as_str()
    }

    /// The creation timestamp of the article.
    pub fn created_at(&self) -> (r: &str)
        ensures
            r@ == self.created_at@,
    {
        self.created_at.as_str()
    }

    /// A copy of the article, equal to it field for field.
    pub fn duplicate(&self) -> (r: Self)
        ensures
            r == *self,
    {
        Article {
            id: self.id,
            author_id: self.author_id,
            title: self.title.clone(),
            content: self.content.clone(),
            created_at: self.created_at.clone(),
        }
    }
}

/// Why an article operation failed: the entity was absent, something
/// unexpected happened, the storage failed, or rendering failed.
#[derive(Debug, Clone, PartialEq)]
pub enum ArticleError {
    NotFound(String),
    Unexpected(String),
    Persistence(String),
    Presenter(String),
}

/// The mathematical shape of an `ArticleError`: the same variants, with
/// the message as a character sequence.
pub enum ArticleErrorV {
    NotFound(Seq<char>),
    Unexpected(Seq<char>),
    Persistence(Seq<char>),
    Presenter(Seq<char>),
}

impl View for ArticleError {
    type V = ArticleErrorV;

    open spec fn view(&self) -> ArticleErrorV {
        match self {
            ArticleError::NotFound(m) => ArticleErrorV::NotFound(m@),
            ArticleError::Unexpected(m) => ArticleErrorV::Unexpected(m@),
            ArticleError::Persistence(m) => ArticleErrorV::Persistence(m@),
            ArticleError::Presenter(m) => ArticleErrorV::Presenter(m@),
        }
    }
}

/// Input for creating an article: author identifier, title and content.
/// The length rules are enforced at the request boundary, not here.
#[derive(Debug, Clone)]
pub struct NewArticle {
    pub author_id: UniqueId,
    pub title: String,
    pub content: String,
}

impl NewArticle {
    /// Assembles new-article input from its parts.
    pub fn new(author_id: UniqueId, title: String, content: String) -> (r: Self)
        ensures
            r.author_id == author_id,
            r.title == title,
            r.content == content,
    {
        NewArticle { author_id, title, content }
    }

    /// The unique identifier of the author.
    pub fn author_id(&self) -> (r: &UniqueId)
        ensures
            r == self.author_id,
    {
        &self.author_id
    }

    /// The title of the article to create.
    pub fn title(&self) -> (r: &str)
        ensures
            r@ == self.title@,
    {
        self.title.as_str()
    }

    /// The content of the article to create.
    pub fn content(&self) -> (r: &str)
        ensures
            r@ == self.content@,
    {
        self.content.as_str()
    }
}

/// The output of a presenter: an HTML document, or a JSON document.
#[derive(Debug, PartialEq)]
pub enum RenderOutput {
    Json(JsonValue),
    Html(String),
}

/// The mathematical shape of a `RenderOutput`.
pub enum RenderOutputV {
    Json(JsonValueV),
    Html(Seq<char>),
}

impl View for RenderOutput {
    type V = RenderOutputV;

    open spec fn view(&self) -> RenderOutputV {
        match self {
            RenderOutput::Json(v) => RenderOutputV::Json(v@),
            RenderOutput::Html(s) => RenderOutputV::Html(s@),
        }
    }
}

/// The fewest characters a title may have.
pub const MIN_TITLE_LEN: usize = 10;

/// The fewest characters a content may have.
pub const MIN_CONTENT_LEN: usize = 100;

/// Whether an inbound new-article request is acceptable: the author
/// identifier is a well-formed unique identifier, the title has at least
/// `MIN_TITLE_LEN` characters, and the content at least `MIN_CONTENT_LEN`.
pub open spec fn new_article_request_ok(
    author_id: Seq<char>,
    title: Seq<char>,
    content: Seq<char>,
) -> bool {
    &&& valid_uuid_text(author_id)
    &&& title.len() >= MIN_TITLE_LEN
    &&& content.len() >= MIN_CONTENT_LEN
}

/// An inbound request to create an article, as handed over by the HTTP
/// edge: plain strings, not yet validated.
#[derive(Debug, Clone)]
pub struct NewArticleRequest {
    pub author_id: String,
    pub title: String,
    pub content: String,
}

impl NewArticleRequest {
    /// Assembles a request from its parts.
    pub fn new(author_id: String, title: String, content: String) -> (r: Self)
        ensures
            r.author_id == author_id,
            r.title == title,
            r.content == content,
    {
        NewArticleRequest { author_id, title, content }
    }

    /// Validates the request: succeeds exactly when the author identifier
    /// parses as a unique identifier, the title has at least ten
    /// characters and the content at least one hundred; rejected requests
    /// get a message naming the first rule broken.
    pub fn validate(&self) -> (r: Result<NewArticle, String>)
        ensures
            match r {
                Ok(na) => {
                    &&& new_article_request_ok(self.author_id@, self.title@, self.content@)
                    &&& na.author_id.hi == uuid_text_hi(self.author_id@)
                    &&& na.author_id.lo == uuid_text_lo(self.author_id@)
                    &&& na.title == self.title
                    &&& na.content == self.content
                },
                Err(e) => {
                    &&& !new_article_request_ok(self.author_id@, self.title@, self.content@)
                    &&& e@ == if !valid_uuid_text(self.author_id@) {
                        "author_id is not a valid unique identifier"@
                    } else if self.title@.len() < MIN_TITLE_LEN {
                        "title is shorter than 10 characters"@
                    } else {
                        "content is shorter than 100 characters"@
                    }
                },
            },
    {
        let author_id = match UniqueId::parse(self.author_id.as_str()) {
            Some(id) => id,
            None => {
                return Err(String::from_str("author_id is not a valid unique identifier"));
            },
        };
        if self.title.as_str().unicode_len() < MIN_TITLE_LEN {
            return Err(String::from_str("title is shorter than 10 characters"));
        }
        if self.content.as_str().unicode_len() < MIN_CONTENT_LEN {
            return Err(String::from_str("content is shorter than 100 characters"));
        }
        Ok(NewArticle {
            author_id,
            title: self.title.clone(),
            content: self.content.clone(),
        })
    }
}

} // verus!
