use back_office::articles::adapters::{InMemoryArticleRepository, JsonGetArticlePresenter};
use back_office::articles::entities::{ArticleError, NewArticle, NewArticleRequest, RenderOutput};
use back_office::articles::ports::{GetArticleRepository, GetArticleService, StoreArticleRepository, StoreArticleService};
use back_office::articles::use_cases::{GetArticleUseCase, StoreArticleUseCase};
use back_office::authentication::adapters::DefaultLoginProvider;
use back_office::authentication::entities::LoginProviderOutput;
use back_office::authentication::ports::LoginProvider;
use back_office::common::ids::UniqueId;
use back_office::common::json::JsonValue;

fn sample_new_article() -> NewArticle {
    NewArticle::new(
        UniqueId::parse("936da01f-9abd-4d9d-80c7-02af85c822a8").unwrap(),
        "How to train your dragon".to_string(),
        "a".repeat(110),
    )
}

#[test]
fn returns_an_existing_article_rendered_as_json() {
    let mut repository = InMemoryArticleRepository::new("2021-08-01T12:00:00Z".to_string());
    let article_id = repository.store_article(&sample_new_article()).unwrap();

    let get_article_service = GetArticleUseCase::new(repository, JsonGetArticlePresenter::new());
    let result = get_article_service.execute(&article_id);

    let expected = RenderOutput::Json(JsonValue::Object(vec![
        ("id".to_string(), article_id.to_uuid_string()),
        ("title".to_string(), "How to train your dragon".to_string()),
        ("content".to_string(), "a".repeat(110)),
        (
            "authorId".to_string(),
            "936da01f-9abd-4d9d-80c7-02af85c822a8".to_string(),
        ),
        ("createdAt".to_string(), "2021-08-01T12:00:00Z".to_string()),
    ]));
    assert_eq!(result.unwrap(), expected);
}

#[test]
fn missing_article_fails_with_not_found_and_skips_the_presenter() {
    let repository = InMemoryArticleRepository::new("2021-08-01T12:00:00Z".to_string());
    let absent = UniqueId::parse("936da01f-9abd-4d9d-80c7-02af85c822a8").unwrap();

    let get_article_service = GetArticleUseCase::new(repository, JsonGetArticlePresenter::new());
    let result = get_article_service.execute(&absent);

    assert_eq!(
        result.unwrap_err(),
        ArticleError::NotFound("Not found article".to_string())
    );
}

#[test]
fn stored_article_reads_back_with_the_same_fields() {
    let mut repository = InMemoryArticleRepository::new("2021-08-01T12:00:00Z".to_string());
    let new_article = sample_new_article();

    let article_id = repository.store_article(&new_article).unwrap();
    let stored = repository.get_article_by_id(&article_id).unwrap();

    assert_eq!(stored.id(), &article_id);
    assert_eq!(stored.author_id(), new_article.author_id());
    assert_eq!(stored.title(), new_article.title());
    assert_eq!(stored.content(), new_article.content());
    assert_eq!(stored.created_at(), "2021-08-01T12:00:00Z");
}

#[test]
fn creates_an_article_and_presents_the_stored_row() {
    let repository = InMemoryArticleRepository::new("2021-08-01T12:00:00Z".to_string());
    let mut store_service = StoreArticleUseCase::new(repository, JsonGetArticlePresenter::new());

    let request = NewArticleRequest::new(
        "936da01f-9abd-4d9d-80c7-02af85c822a8".to_string(),
        "How to train your dragon".to_string(),
        "b".repeat(110),
    );
    let new_article = request.validate().unwrap();
    let result = store_service.execute(&new_article).unwrap();

    let members = match result {
        RenderOutput::Json(JsonValue::Object(members)) => members,
        _ => panic!("Expected a JSON object"),
    };
    let nil = "00000000-0000-0000-0000-000000000000";
    assert_eq!(members[0].0, "id");
    assert_ne!(members[0].1, nil);
    assert!(UniqueId::parse(&members[0].1).is_some());
    assert_eq!(
        members[1],
        ("title".to_string(), "How to train your dragon".to_string())
    );
    assert_eq!(members[2], ("content".to_string(), "b".repeat(110)));
    assert_eq!(
        members[3],
        (
            "authorId".to_string(),
            "936da01f-9abd-4d9d-80c7-02af85c822a8".to_string(),
        )
    );
    assert_eq!(
        members[4],
        ("createdAt".to_string(), "2021-08-01T12:00:00Z".to_string())
    );
}

#[test]
fn invalid_author_id_is_rejected_before_any_repository_call() {
    let repository = InMemoryArticleRepository::new("2021-08-01T12:00:00Z".to_string());

    let request = NewArticleRequest::new(
        "invalid_author_uuid".to_string(),
        "How to train your dragon".to_string(),
        "c".repeat(110),
    );
    assert!(request.validate().is_err());

    assert_eq!(repository.len(), 0);
}

#[test]
fn default_login_provider_offers_email_and_password() {
    let provider = DefaultLoginProvider::default();

    let LoginProviderOutput::Default(form) = provider.get_login().unwrap();

    assert_eq!(form.id(), "login-form");
    assert_eq!(form.action(), "/auth/login");
    assert!(!form.fields().is_empty());
    assert_eq!(form.fields().len(), 2);
    assert_eq!(form.fields()[0].id(), "email");
    assert_eq!(form.fields()[1].id(), "password");
    assert!(form.fields()[0].required());
    assert!(form.fields()[1].required());
    assert_eq!(form.submit().title(), "Login");
}
