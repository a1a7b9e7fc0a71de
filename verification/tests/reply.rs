use blog_backend::article::{Article, CreateArticle, ListArticle, Timestamp, UpdateArticle};
use blog_backend::reply::{
    create_article, delete_article, get_article, get_articles, list_articles, row_found,
    rows_affected, update_article, Body, Notice, Reply, Status,
};
use blog_backend::store::{ArticleStore, StoreError};

fn text(seconds: u64) -> String {
    format!("clock shows {}", seconds)
}

fn at(seconds: u64) -> Timestamp {
    Timestamp::new(seconds, text(seconds))
}

fn sample(id: i64) -> Article {
    Article {
        id,
        title: Some("Hello".to_string()),
        content: Some("World".to_string()),
        is_draft: false,
        thumbnail: None,
        created_at: Some(text(1)),
        updated_at: Some(text(2)),
        created_seconds: 1,
        updated_seconds: 2,
    }
}

#[test]
fn status_codes() {
    assert_eq!(Status::Success.code(), 200);
    assert_eq!(Status::Created.code(), 201);
    assert_eq!(Status::BadRequest.code(), 400);
    assert_eq!(Status::NotFound.code(), 404);
    assert_eq!(Status::ServerError.code(), 500);
}

#[test]
fn notice_texts() {
    assert_eq!(Notice::ArticleUpdated.text(), "Article updated successfully");
    assert_eq!(Notice::ArticleDeleted.text(), "Article deleted successfully");
    assert_eq!(Notice::ArticleNotFound.text(), "Article not found");
    assert_eq!(Notice::CreateFailed.text(), "Failed to create article");
    assert_eq!(Notice::GetAllFailed.text(), "Failed to get articles");
    assert_eq!(Notice::ListFailed.text(), "Failed to list articles");
    assert_eq!(Notice::GetFailed.text(), "Failed to get article");
    assert_eq!(Notice::UpdateFailed.text(), "Failed to update article");
    assert_eq!(Notice::DeleteFailed.text(), "Failed to delete article");
    assert_eq!(Notice::FieldMalformed.text(), "Error processing field");
    assert_eq!(Notice::FilenameMissing.text(), "Filename not found in Content-Disposition");
    assert_eq!(Notice::NoFile.text(), "No file uploaded");
    assert_eq!(Notice::DirectoryFailed.text(), "Error creating uploads directory");
    assert_eq!(Notice::FileFailed.text(), "Error creating file");
    assert_eq!(Notice::ChunkFailed.text(), "Error reading chunk");
    assert_eq!(Notice::WriteFailed.text(), "Error writing to file");
}

#[test]
fn notice_statuses() {
    assert_eq!(Notice::ArticleUpdated.status(), Status::Success);
    assert_eq!(Notice::ArticleDeleted.status(), Status::Success);
    assert_eq!(Notice::ArticleNotFound.status(), Status::NotFound);
    assert_eq!(Notice::FieldMalformed.status(), Status::BadRequest);
    assert_eq!(Notice::FilenameMissing.status(), Status::BadRequest);
    assert_eq!(Notice::NoFile.status(), Status::BadRequest);
    for notice in [
        Notice::CreateFailed,
        Notice::GetAllFailed,
        Notice::ListFailed,
        Notice::GetFailed,
        Notice::UpdateFailed,
        Notice::DeleteFailed,
        Notice::DirectoryFailed,
        Notice::FileFailed,
        Notice::ChunkFailed,
        Notice::WriteFailed,
    ] {
        assert_eq!(notice.status(), Status::ServerError);
    }
    assert_eq!(
        Reply::notice(Notice::NoFile),
        Reply { status: Status::BadRequest, body: Body::Notice(Notice::NoFile) }
    );
}

#[test]
fn rows_affected_tells_a_missing_article() {
    assert_eq!(rows_affected(0), Err(StoreError::NotFound));
    assert_eq!(rows_affected(1), Ok(()));
    assert_eq!(rows_affected(2), Ok(()));
    assert_eq!(rows_affected(u64::MAX), Ok(()));
}

#[test]
fn row_found_tells_a_missing_article() {
    assert_eq!(row_found(None), Err(StoreError::NotFound));
    assert_eq!(row_found(Some(sample(4))), Ok(sample(4)));
}

#[test]
fn create_answers_created_with_the_id() {
    assert_eq!(create_article(Ok(1)), Reply { status: Status::Created, body: Body::Id(1) });
    assert_eq!(create_article(Ok(77)), Reply { status: Status::Created, body: Body::Id(77) });
}

#[test]
fn create_answers_server_error_on_failure() {
    let expected = Reply { status: Status::ServerError, body: Body::Notice(Notice::CreateFailed) };
    assert_eq!(create_article(Err(StoreError::StorageFailure)), expected);
    assert_eq!(create_article(Err(StoreError::NotFound)), expected);
}

#[test]
fn listings_answer_with_what_was_read() {
    assert_eq!(
        get_articles(Ok(vec![sample(2), sample(1)])),
        Reply { status: Status::Success, body: Body::Articles(vec![sample(2), sample(1)]) }
    );
    assert_eq!(
        get_articles(Ok(Vec::new())),
        Reply { status: Status::Success, body: Body::Articles(Vec::new()) }
    );
    let summaries = vec![sample(2).summarize(), sample(1).summarize()];
    assert_eq!(
        list_articles(Ok(vec![sample(2).summarize(), sample(1).summarize()])),
        Reply { status: Status::Success, body: Body::Summaries(summaries) }
    );
    assert_eq!(
        list_articles(Ok(Vec::new())),
        Reply { status: Status::Success, body: Body::Summaries(Vec::<ListArticle>::new()) }
    );
}

#[test]
fn listings_answer_server_error_on_failure() {
    assert_eq!(
        get_articles(Err(StoreError::StorageFailure)),
        Reply { status: Status::ServerError, body: Body::Notice(Notice::GetAllFailed) }
    );
    assert_eq!(
        list_articles(Err(StoreError::StorageFailure)),
        Reply { status: Status::ServerError, body: Body::Notice(Notice::ListFailed) }
    );
}

#[test]
fn get_answers_the_article_or_not_found() {
    assert_eq!(
        get_article(Ok(sample(3))),
        Reply { status: Status::Success, body: Body::Article(sample(3)) }
    );
    assert_eq!(
        get_article(Err(StoreError::NotFound)),
        Reply { status: Status::NotFound, body: Body::Notice(Notice::ArticleNotFound) }
    );
    assert_eq!(
        get_article(Err(StoreError::StorageFailure)),
        Reply { status: Status::ServerError, body: Body::Notice(Notice::GetFailed) }
    );
}

#[test]
fn update_answers() {
    assert_eq!(
        update_article(Ok(())),
        Reply { status: Status::Success, body: Body::Notice(Notice::ArticleUpdated) }
    );
    assert_eq!(
        update_article(Err(StoreError::NotFound)),
        Reply { status: Status::NotFound, body: Body::Notice(Notice::ArticleNotFound) }
    );
    assert_eq!(
        update_article(Err(StoreError::StorageFailure)),
        Reply { status: Status::ServerError, body: Body::Notice(Notice::UpdateFailed) }
    );
    assert_eq!(update_article(rows_affected(0)).status, Status::NotFound);
    assert_eq!(update_article(rows_affected(1)).status, Status::Success);
}

#[test]
fn delete_answers() {
    assert_eq!(
        delete_article(Ok(())),
        Reply { status: Status::Success, body: Body::Notice(Notice::ArticleDeleted) }
    );
    assert_eq!(
        delete_article(Err(StoreError::NotFound)),
        Reply { status: Status::NotFound, body: Body::Notice(Notice::ArticleNotFound) }
    );
    assert_eq!(
        delete_article(Err(StoreError::StorageFailure)),
        Reply { status: Status::ServerError, body: Body::Notice(Notice::DeleteFailed) }
    );
    assert_eq!(delete_article(rows_affected(0)).status, Status::NotFound);
}

#[test]
fn answers_of_a_store_from_create_to_delete() {
    let mut store = ArticleStore::new();
    let item = CreateArticle {
        title: "Hello".to_string(),
        content: "World".to_string(),
        is_draft: false,
        thumbnail: None,
    };
    let created = create_article(store.create(item, at(1)));
    assert_eq!(created.status.code(), 201);
    assert_eq!(created.body, Body::Id(1));

    let patch = UpdateArticle { title: None, content: None, is_draft: Some(true), thumbnail: None };
    assert_eq!(update_article(store.update(1, patch, at(2))).status.code(), 200);
    assert_eq!(update_article(store.update(9, UpdateArticle::empty(), at(2))).status.code(), 404);
    assert_eq!(update_article(store.update(1, UpdateArticle::empty(), at(0))).status.code(), 500);

    let fetched = get_article(store.get(1));
    assert_eq!(fetched.status, Status::Success);
    match fetched.body {
        Body::Article(article) => {
            assert!(article.is_draft);
            assert_eq!(article.title, Some("Hello".to_string()));
        }
        other => panic!("unexpected body {:?}", other),
    }

    assert_eq!(get_articles(Ok(store.list_full())).status, Status::Success);
    assert_eq!(list_articles(Ok(store.list_summaries())).status, Status::Success);
    assert_eq!(delete_article(store.delete(999)).status.code(), 404);
    assert_eq!(delete_article(store.delete(1)).status.code(), 200);
    assert_eq!(delete_article(store.delete(1)).status.code(), 404);
    assert_eq!(get_article(store.get(1)).status.code(), 404);
    assert_eq!(get_articles(Ok(store.list_full())).body, Body::Articles(Vec::new()));
}
