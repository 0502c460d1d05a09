//! Use-cases of the articles context: each orchestrates one repository
//! call and one presenter call to satisfy one driving port.

use vstd::prelude::*;
use crate::articles::entities::{Article, ArticleError, ArticleErrorV, NewArticle, RenderOutput, RenderOutputV};
use crate::articles::ports::{
    render_res_matches, GetArticlePresenter, GetArticleRepository, GetArticleService,
    StoreArticleRepository, StoreArticleService,
};
use crate::common::ids::UniqueId;

verus! {

/// What fetching and rendering an article amounts to: the repository's
/// answer for the identifier, passed through the presenter on success and
/// propagated verbatim on failure.
pub open spec fn get_article_execute_spec<R: GetArticleRepository, P: GetArticlePresenter>(
    repository: R,
    presenter: P,
    article_id: UniqueId,
) -> Result<RenderOutputV, ArticleErrorV> {
    match repository.get_spec(article_id) {
        Ok(a) => presenter.present_spec(a),
        Err(e) => Err(e),
    }
}

/// Fetches one article and hands it to a presenter.
pub struct GetArticleUseCase<R, P> {
    pub repository: R,
    pub presenter: P,
}

impl<R: GetArticleRepository, P: GetArticlePresenter> GetArticleUseCase<R, P> {
    /// Builds the use-case from the two driven adapters it needs.
    pub fn new(repository: R, presenter: P) -> (s: Self)
        ensures
            s.repository == repository,
            s.presenter == presenter,
    {
        GetArticleUseCase { repository, presenter }
    }
}

impl<R: GetArticleRepository, P: GetArticlePresenter> GetArticleService for GetArticleUseCase<R, P> {
    /// The repository must be well-formed.
    open spec fn inv(&self) -> bool {
        self.repository.inv()
    }

    /// The repository's answer, rendered on success and propagated
    /// verbatim on failure.
    open spec fn execute_spec(&self, article_id: UniqueId) -> Result<RenderOutputV, ArticleErrorV> {
        get_article_execute_spec(self.repository, self.presenter, article_id)
    }

    /// Fetches the article with the given identifier and returns its
    /// rendered representation; on a missing article the presenter's
    /// output takes no part in the result.
    fn execute(&self, article_id: &UniqueId) -> (r: Result<RenderOutput, ArticleError>) {
        let article = match self.repository.get_article_by_id(article_id) {
            Ok(article) => article,
            Err(e) => {
                return Err(e);
            },
        };
        self.presenter.present_article(article)
    }
}

/// A missing article fails the lookup with the repository's error and the
/// presenter is never consulted: whatever presenter is plugged in, the
/// outcome is the same propagated failure.
pub proof fn get_article_error_skips_presenter<
    R: GetArticleRepository,
    P1: GetArticlePresenter,
    P2: GetArticlePresenter,
>(repository: R, first: P1, second: P2, article_id: UniqueId, e: ArticleErrorV)
    requires
        repository.get_spec(article_id) == Err::<Article, ArticleErrorV>(e),
    ensures
        get_article_execute_spec(repository, first, article_id) == Err::<RenderOutputV, ArticleErrorV>(e),
        get_article_execute_spec(repository, first, article_id)
            == get_article_execute_spec(repository, second, article_id),
{
}

/// An article a repository reports under an identifier is rendered as it
/// stands: fetching through the get use-case yields exactly the
/// presenter's answer for it. Together with the store port's guarantee
/// that the article read back under a freshly assigned identifier
/// carries the stored author, title and content, storing and then
/// fetching renders an article that matches the input.
pub proof fn store_then_get_matches_input<R: GetArticleRepository, P: GetArticlePresenter>(
    repository: R,
    presenter: P,
    article_id: UniqueId,
    a: Article,
)
    requires
        repository.get_spec(article_id) == Ok::<Article, ArticleErrorV>(a),
    ensures
        get_article_execute_spec(repository, presenter, article_id) == presenter.present_spec(a),
{
}

/// Persists one new article, reads the stored row back, and hands it to
/// a presenter.
pub struct StoreArticleUseCase<R, P> {
    pub repository: R,
    pub presenter: P,
}

impl<R: StoreArticleRepository + GetArticleRepository, P: GetArticlePresenter> StoreArticleUseCase<R, P> {
    /// Builds the use-case from the two driven adapters it needs.
    pub fn new(repository: R, presenter: P) -> (s: Self)
        ensures
            s.repository == repository,
            s.presenter == presenter,
    {
        StoreArticleUseCase { repository, presenter }
    }
}

impl<R: StoreArticleRepository + GetArticleRepository, P: GetArticlePresenter> StoreArticleService
    for StoreArticleUseCase<R, P> {
    /// The repository must be well-formed.
    open spec fn inv(&self) -> bool {
        self.repository.inv()
    }

    /// Everything one run guarantees: the presenter stays as it was; a
    /// failing store surfaces its error with the repository unchanged; a
    /// successful store leaves, under the assigned identifier, an
    /// article carrying the input's author, title and content and the
    /// repository's assigned creation timestamp, renders exactly that
    /// article, and touches no other identifier.
    open spec fn execute_ensures(
        &self,
        new_article: NewArticle,
        post: Self,
        r: Result<RenderOutput, ArticleError>,
    ) -> bool {
        &&& post.presenter == self.presenter
        &&& match self.repository.store_result_spec(new_article) {
            Err(e) => r matches Err(err) && err@ == e && post.repository == self.repository,
            Ok(id) => {
                &&& post.repository.get_spec(id) matches Ok(a)
                    && a.id == id
                    && a.author_id == new_article.author_id
                    && a.title == new_article.title
                    && a.content == new_article.content
                    && a.created_at@ == self.repository.assigned_timestamp_spec(new_article)
                    && render_res_matches(r, self.presenter.present_spec(a))
                &&& forall|other: UniqueId| other != id
                    ==> post.repository.get_spec(other) == self.repository.get_spec(other)
            },
        }
    }

    /// Stores the new article, immediately re-fetches the canonical
    /// persisted row under the assigned identifier, and returns its
    /// rendered representation; a failure of either repository call
    /// surfaces unchanged.
    fn execute(&mut self, new_article: &NewArticle) -> (r: Result<RenderOutput, ArticleError>) {
        let article_id = match self.repository.store_article(new_article) {
            Ok(article_id) => article_id,
            Err(e) => {
                return Err(e);
            },
        };
        let article = match self.repository.get_article_by_id(&article_id) {
            Ok(article) => article,
            Err(e) => {
                return Err(e);
            },
        };
        self.presenter.present_article(article)
    }
}

} // verus!
