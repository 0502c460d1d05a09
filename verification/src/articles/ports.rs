//! Ports of the articles context. The driven ports are the capabilities
//! a use-case calls outward through; any component offering the matching
//! operation, under the stated contract, qualifies, which is what lets
//! an in-memory repository stand in for a relational one in tests. The
//! driving ports are the one-operation interfaces the use-cases expose
//! inward to their callers.

use vstd::prelude::*;
use crate::articles::entities::{Article, ArticleError, ArticleErrorV, NewArticle, RenderOutput, RenderOutputV};
use crate::common::ids::UniqueId;

verus! {

/// Whether an executable article result carries exactly the value that a
/// mathematical one describes.
pub open spec fn article_res_matches(
    r: Result<Article, ArticleError>,
    s: Result<Article, ArticleErrorV>,
) -> bool {
    match (r, s) {
        (Ok(a), Ok(b)) => a == b,
        (Err(e), Err(f)) => e@ == f,
        _ => false,
    }
}

/// Whether an executable identifier result carries exactly the value that
/// a mathematical one describes.
pub open spec fn id_res_matches(
    r: Result<UniqueId, ArticleError>,
    s: Result<UniqueId, ArticleErrorV>,
) -> bool {
    match (r, s) {
        (Ok(a), Ok(b)) => a == b,
        (Err(e), Err(f)) => e@ == f,
        _ => false,
    }
}

/// Whether an executable render result carries exactly the value that a
/// mathematical one describes.
pub open spec fn render_res_matches(
    r: Result<RenderOutput, ArticleError>,
    s: Result<RenderOutputV, ArticleErrorV>,
) -> bool {
    match (r, s) {
        (Ok(o), Ok(v)) => o@ == v,
        (Err(e), Err(f)) => e@ == f,
        _ => false,
    }
}

/// A component able to fetch an article by its unique identifier.
pub trait GetArticleRepository: Sized {
    /// The well-formedness the repository maintains between calls.
    spec fn inv(&self) -> bool;

    /// What fetching a given identifier returns, as a function of the
    /// repository state: the stored article, or why there is none.
    spec fn get_spec(&self, article_id: UniqueId) -> Result<Article, ArticleErrorV>;

    /// Retrieves an article by its unique identifier.
    fn get_article_by_id(&self, article_id: &UniqueId) -> (r: Result<Article, ArticleError>)
        requires
            self.inv(),
        ensures
            article_res_matches(r, self.get_spec(*article_id)),
    ;
}

/// A component able to persist a new article. Storing assigns a fresh
/// identifier and a creation timestamp; immediately fetching that
/// identifier yields an article whose author, title and content are the
/// stored input and whose timestamp is the assigned one, and no other
/// identifier changes its answer.
pub trait StoreArticleRepository: GetArticleRepository {
    /// Which identifier storing would assign in the current state, or
    /// why storing would fail.
    spec fn store_result_spec(&self, new_article: NewArticle) -> Result<UniqueId, ArticleErrorV>;

    /// Which creation timestamp storing would assign in the current
    /// state: the repository is the keeper of the clock, so the stored
    /// row, not the caller, carries the authoritative value.
    spec fn assigned_timestamp_spec(&self, new_article: NewArticle) -> Seq<char>;

    /// Stores a new article.
    fn store_article(&mut self, new_article: &NewArticle) -> (r: Result<UniqueId, ArticleError>)
        requires
            old(self).inv(),
        ensures
            final(self).inv(),
            id_res_matches(r, old(self).store_result_spec(*new_article)),
            r matches Err(_) ==> *final(self) == *old(self),
            r matches Ok(id) ==> {
                &&& final(self).get_spec(id) matches Ok(a)
                    && a.id == id
                    && a.author_id == new_article.author_id
                    && a.title == new_article.title
                    && a.content == new_article.content
                    && a.created_at@ == old(self).assigned_timestamp_spec(*new_article)
                &&& forall|other: UniqueId| other != id
                    ==> final(self).get_spec(other) == old(self).get_spec(other)
            },
    ;
}

/// The driving port for fetching one article: a service that renders the
/// article carrying the identifier.
pub trait GetArticleService: Sized {
    /// The well-formedness the service needs of its collaborators.
    spec fn inv(&self) -> bool;

    /// What executing the service returns for an identifier.
    spec fn execute_spec(&self, article_id: UniqueId) -> Result<RenderOutputV, ArticleErrorV>;

    /// Renders the article carrying the identifier.
    fn execute(&self, article_id: &UniqueId) -> (r: Result<RenderOutput, ArticleError>)
        requires
            self.inv(),
        ensures
            render_res_matches(r, self.execute_spec(*article_id)),
    ;
}

/// The driving port for creating one article: a service that persists
/// the input and renders what was stored.
pub trait StoreArticleService: Sized {
    /// The well-formedness the service needs of its collaborators.
    spec fn inv(&self) -> bool;

    /// Everything executing the service guarantees, over the state
    /// before, the input, the state after and the result.
    spec fn execute_ensures(
        &self,
        new_article: NewArticle,
        post: Self,
        r: Result<RenderOutput, ArticleError>,
    ) -> bool;

    /// Persists the input and renders the stored article.
    fn execute(&mut self, new_article: &NewArticle) -> (r: Result<RenderOutput, ArticleError>)
        requires
            old(self).inv(),
        ensures
            final(self).inv(),
            old(self).execute_ensures(*new_article, *final(self), r),
    ;
}

/// A component able to render an article into an output representation.
pub trait GetArticlePresenter: Sized {
    /// What presenting an article returns, as a function of the
    /// presenter and the article alone.
    spec fn present_spec(&self, article: Article) -> Result<RenderOutputV, ArticleErrorV>;

    /// Renders an article.
    fn present_article(&self, article: Article) -> (r: Result<RenderOutput, ArticleError>)
        ensures
            render_res_matches(r, self.present_spec(article)),
    ;
}

} // verus!
