use back_office::articles::entities::{Article, NewArticle, NewArticleRequest, RenderOutput};
use back_office::common::ids::UniqueId;
use back_office::common::json::JsonValue;

#[test]
fn creates_an_article_and_returns_the_correct_properties() {
    let id = UniqueId::parse("67e55044-10b1-426f-9247-bb680e5fe0c8").unwrap();
    let author_id = UniqueId::parse("936da01f-9abd-4d9d-80c7-02af85c822a8").unwrap();
    let title = "Hello world".to_string();
    let content = "This is the content of the article.".to_string();
    let created_at = "2021-08-01T12:00:00Z".to_string();
    let article = Article::new(
        id,
        author_id,
        title.clone(),
        content.clone(),
        created_at.clone(),
    );

    assert_eq!(article.id(), &id);
    assert_eq!(article.author_id(), &author_id);
    assert_eq!(article.title(), title);
    assert_eq!(article.content(), content);
    assert_eq!(article.created_at(), created_at);
}

#[test]
fn creates_a_new_article_and_returns_the_correct_properties() {
    let author_id = UniqueId::parse("936da01f-9abd-4d9d-80c7-02af85c822a8").unwrap();
    let title = "Hello world".to_string();
    let content = "This is the content of the article.".to_string();
    let new_article = NewArticle::new(author_id, title.clone(), content.clone());

    assert_eq!(new_article.author_id(), &author_id);
    assert_eq!(new_article.title(), title);
    assert_eq!(new_article.content(), content);
}

#[test]
fn creates_a_json_variant() {
    let json = JsonValue::Object(vec![("title".to_string(), "Example Article".to_string())]);
    let expected = JsonValue::Object(vec![("title".to_string(), "Example Article".to_string())]);
    let output = RenderOutput::Json(json);

    match output {
        RenderOutput::Json(value) => assert_eq!(value, expected),
        _ => panic!("Expected a Json variant"),
    }
}

#[test]
fn creates_an_html_variant() {
    let html = "<h1>Example Article</h1>".to_string();
    let output = RenderOutput::Html(html.clone());

    match output {
        RenderOutput::Html(value) => assert_eq!(value, html),
        _ => panic!("Expected an Html variant"),
    }
}

#[test]
fn request_with_short_title_is_rejected() {
    let request = NewArticleRequest::new(
        "936da01f-9abd-4d9d-80c7-02af85c822a8".to_string(),
        "Too short".to_string(),
        "x".repeat(110),
    );

    let outcome = request.validate();
    assert_eq!(outcome.unwrap_err(), "title is shorter than 10 characters");
}

#[test]
fn request_with_short_content_is_rejected() {
    let request = NewArticleRequest::new(
        "936da01f-9abd-4d9d-80c7-02af85c822a8".to_string(),
        "How to train your dragon".to_string(),
        "Very carefully.".to_string(),
    );

    let outcome = request.validate();
    assert_eq!(outcome.unwrap_err(), "content is shorter than 100 characters");
}

#[test]
fn request_with_invalid_author_id_is_rejected() {
    let request = NewArticleRequest::new(
        "invalid_author_uuid".to_string(),
        "How to train your dragon".to_string(),
        "x".repeat(110),
    );

    let outcome = request.validate();
    assert_eq!(
        outcome.unwrap_err(),
        "author_id is not a valid unique identifier"
    );
}

#[test]
fn valid_request_passes_validation() {
    let request = NewArticleRequest::new(
        "936da01f-9abd-4d9d-80c7-02af85c822a8".to_string(),
        "How to train your dragon".to_string(),
        "x".repeat(110),
    );

    let new_article = request.validate().unwrap();
    assert_eq!(new_article.title(), "How to train your dragon");
    assert_eq!(new_article.content(), "x".repeat(110));
    assert_eq!(
        new_article.author_id(),
        &UniqueId::parse("936da01f-9abd-4d9d-80c7-02af85c822a8").unwrap()
    );
}
