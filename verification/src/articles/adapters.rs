//! Driven adapters of the articles context: the flattened view-model, the
//! JSON presenter, and an in-memory repository that satisfies the same
//! port contracts a relational one is trusted with.

use vstd::prelude::*;
use crate::articles::entities::{Article, ArticleError, ArticleErrorV, NewArticle, RenderOutput, RenderOutputV};
use crate::articles::ports::{GetArticlePresenter, GetArticleRepository, StoreArticleRepository};
use crate::common::ids::{uuid_seq, UniqueId};
use crate::common::json::{JsonValue, JsonValueV};

verus! {

use vstd::string::StringExecFns;

/// The flattened, string-valued projection of an article that presenters
/// render: identifiers in hyphenated form, everything else carried over.
#[derive(Debug, Clone)]
pub struct GetArticleViewModel {
    pub id: String,
    pub title: String,
    pub content: String,
    pub author_id: String,
    pub created_at: String,
}

impl GetArticleViewModel {
    /// Flattens an article: both identifiers take their 36-character
    /// hyphenated form; title, content and the creation timestamp carry
    /// over unchanged, so the presenter receives the authoritative
    /// stored state.
    pub fn from(article: Article) -> (r: Self)
        ensures
            r.id@ == uuid_seq(article.id.hi, article.id.lo),
            r.title == article.title,
            r.content == article.content,
            r.author_id@ == uuid_seq(article.author_id.hi, article.author_id.lo),
            r.created_at == article.created_at,
    {
        GetArticleViewModel {
            id: article.id.to_uuid_string(),
            title: article.title,
            content: article.content,
            author_id: article.author_id.to_uuid_string(),
            created_at: article.created_at,
        }
    }
}

/// The JSON members an article flattens to, in order: "id", "title",
/// "content", "authorId" and "createdAt".
pub open spec fn article_json_members(article: Article) -> Seq<(Seq<char>, Seq<char>)> {
    seq![
        ("id"@, uuid_seq(article.id.hi, article.id.lo)),
        ("title"@, article.title@),
        ("content"@, article.content@),
        ("authorId"@, uuid_seq(article.author_id.hi, article.author_id.lo)),
        ("createdAt"@, article.created_at@),
    ]
}

/// A presenter that renders an article as a flat JSON object.
#[derive(Debug, Clone)]
pub struct JsonGetArticlePresenter {}

impl JsonGetArticlePresenter {
    /// Builds the presenter; it carries no state.
    pub fn new() -> (r: Self)
        ensures
            r == (JsonGetArticlePresenter {}),
    {
        JsonGetArticlePresenter {}
    }
}

impl GetArticlePresenter for JsonGetArticlePresenter {
    /// Rendering never fails and yields the JSON object of the flattened
    /// article.
    open spec fn present_spec(&self, article: Article) -> Result<RenderOutputV, ArticleErrorV> {
        Ok(RenderOutputV::Json(JsonValueV::Object(article_json_members(article))))
    }

    fn present_article(&self, article: Article) -> (r: Result<RenderOutput, ArticleError>) {
        let vm = GetArticleViewModel::from(article);
        let members: Vec<(String, String)> = vec![
            (String::from_str("id"), vm.id),
            (String::from_str("title"), vm.title),
            (String::from_str("content"), vm.content),
            (String::from_str("authorId"), vm.author_id),
            (String::from_str("createdAt"), vm.created_at),
        ];
        proof {
            assert(members.deep_view() =~= article_json_members(article));
        }
        Ok(RenderOutput::Json(JsonValue::Object(members)))
    }
}

/// How the in-memory repository derives the identifier of the `n`-th
/// stored article: a counter in the low half, nothing in the high half.
pub open spec fn seq_id(n: int) -> UniqueId {
    UniqueId { hi: 0, lo: n as u64 }
}

/// The most recently stored article carrying the identifier, if any.
pub open spec fn find_article(s: Seq<Article>, article_id: UniqueId) -> Option<Article>
    decreases s.len(),
{
    if s.len() == 0 {
        None
    } else if s.last().id == article_id {
        Some(s.last())
    } else {
        find_article(s.drop_last(), article_id)
    }
}

/// An article repository held in memory: the stored articles in insertion
/// order, each keyed by the position it was stored at, and the clock
/// value it stamps stored rows with. It stands in for the relational
/// repository wherever a test needs one.
#[derive(Debug, Clone)]
pub struct InMemoryArticleRepository {
    pub articles: Vec<Article>,
    pub now: String,
}

impl InMemoryArticleRepository {
    /// A repository holding nothing, stamping stored rows with the given
    /// clock value.
    pub fn new(now: String) -> (r: Self)
        ensures
            r.articles@ == Seq::<Article>::empty(),
            r.now == now,
            r.inv(),
    {
        let r = InMemoryArticleRepository { articles: Vec::new(), now };
        proof {
            assert(r.articles@ =~= Seq::<Article>::empty());
        }
        r
    }

    /// How many articles are stored.
    pub fn len(&self) -> (r: usize)
        ensures
            r == self.articles@.len(),
    {
        self.articles.len()
    }
}

/// Skipping a matchless suffix leaves the lookup unchanged.
proof fn lemma_find_article_skip(s: Seq<Article>, article_id: UniqueId, i: int)
    requires
        0 <= i <= s.len(),
        forall|j: int| i <= j < s.len() ==> (#[trigger] s[j]).id != article_id,
    ensures
        find_article(s, article_id) == find_article(s.subrange(0, i), article_id),
    decreases s.len() - i,
{
    if i == s.len() {
        assert(s.subrange(0, i) =~= s);
    } else {
        assert(s.drop_last() =~= s.subrange(0, s.len() - 1));
        lemma_find_article_skip(s.subrange(0, s.len() - 1), article_id, i);
        assert(s.subrange(0, s.len() - 1).subrange(0, i) =~= s.subrange(0, i));
    }
}

/// Appending an article answers lookups for its identifier with it and
/// leaves every other lookup unchanged.
proof fn lemma_find_article_push(s: Seq<Article>, a: Article, article_id: UniqueId)
    ensures
        a.id == article_id ==> find_article(s.push(a), article_id) == Some(a),
        a.id != article_id ==> find_article(s.push(a), article_id) == find_article(s, article_id),
{
    assert(s.push(a).drop_last() =~= s);
    assert(s.push(a).last() == a);
}

impl GetArticleRepository for InMemoryArticleRepository {
    /// Stored identifiers follow the storing order: the article at
    /// position `i` carries identifier `i + 1` in the low half.
    open spec fn inv(&self) -> bool {
        forall|i: int| 0 <= i < self.articles@.len()
            ==> (#[trigger] self.articles@[i]).id == seq_id(i + 1)
    }

    /// The stored article under the identifier, or `NotFound`.
    open spec fn get_spec(&self, article_id: UniqueId) -> Result<Article, ArticleErrorV> {
        match find_article(self.articles@, article_id) {
            Some(a) => Ok(a),
            None => Err(ArticleErrorV::NotFound("Not found article"@)),
        }
    }

    fn get_article_by_id(&self, article_id: &UniqueId) -> (r: Result<Article, ArticleError>) {
        let mut i: usize = self.articles.len();
        while i > 0
            invariant
                i <= self.articles@.len(),
                forall|j: int| i <= j < self.articles@.len()
                    ==> (#[trigger] self.articles@[j]).id != *article_id,
            decreases i,
        {
            i = i - 1;
            let candidate = &self.articles[i];
            if candidate.id.hi == article_id.hi && candidate.id.lo == article_id.lo {
                proof {
                    lemma_find_article_skip(self.articles@, *article_id, i + 1);
                    assert(self.articles@.subrange(0, i + 1).last() == self.articles@[i as int]);
                    assert(self.articles@.subrange(0, i + 1) =~=
                        self.articles@.subrange(0, i as int).push(self.articles@[i as int]));
                    lemma_find_article_push(
                        self.articles@.subrange(0, i as int),
                        self.articles@[i as int],
                        *article_id,
                    );
                }
                return Ok(candidate.duplicate());
            }
        }
        proof {
            lemma_find_article_skip(self.articles@, *article_id, 0);
            assert(self.articles@.subrange(0, 0) =~= Seq::<Article>::empty());
        }
        Err(ArticleError::NotFound(String::from_str("Not found article")))
    }
}

/// An identifier the in-memory repository assigns is never the nil
/// identifier: the low half counts from one.
pub proof fn in_memory_assigned_ids_are_not_nil(
    repository: InMemoryArticleRepository,
    new_article: NewArticle,
)
    ensures
        repository.store_result_spec(new_article) matches Ok(id) ==> !id.is_nil(),
{
}

impl StoreArticleRepository for InMemoryArticleRepository {
    /// Storing assigns the next position's identifier; it fails only
    /// once the position counter can no longer grow.
    open spec fn store_result_spec(&self, new_article: NewArticle) -> Result<UniqueId, ArticleErrorV> {
        if self.articles@.len() < u64::MAX {
            Ok(seq_id(self.articles@.len() + 1 as int))
        } else {
            Err(ArticleErrorV::Persistence("article storage is full"@))
        }
    }

    /// The in-memory clock stands still: every store stamps the value
    /// the repository was built with.
    open spec fn assigned_timestamp_spec(&self, new_article: NewArticle) -> Seq<char> {
        self.now@
    }

    fn store_article(&mut self, new_article: &NewArticle) -> (r: Result<UniqueId, ArticleError>) {
        if self.articles.len() as u64 == u64::MAX {
            return Err(ArticleError::Persistence(String::from_str("article storage is full")));
        }
        let article_id = UniqueId::new(0, self.articles.len() as u64 + 1);
        let article = Article::new(
            article_id,
            *new_article.author_id(),
            new_article.title.clone(),
            new_article.content.clone(),
            self.now.clone(),
        );
        let ghost stored = article;
        let ghost pre = self.articles@;
        self.articles.push(article);
        proof {
            lemma_find_article_push(pre, stored, article_id);
            assert forall|other: UniqueId| other != article_id implies
                self.get_spec(other) == old(self).get_spec(other) by {
                lemma_find_article_push(pre, stored, other);
            }
        }
        Ok(article_id)
    }
}

} // verus!
