//! What each operation answers: a status and a body, decided from the
//! outcome of the storage call.

use crate::article::{Article, ListArticle};
use crate::store::StoreError;
use vstd::prelude::*;

verus! {

/// The kinds of answer.
#[derive(Debug, Clone, Copy, PartialEq, Eq)]
pub enum Status {
    Success,
    Created,
    BadRequest,
    NotFound,
    ServerError,
}

impl Status {
    /// The HTTP status code of this kind of answer.
    pub open spec fn spec_code(self) -> u16 {
        match self {
            Status::Success => 200,
            Status::Created => 201,
            Status::BadRequest => 400,
            Status::NotFound => 404,
            Status::ServerError => 500,
        }
    }

    /// The HTTP status code of this kind of answer.
    pub fn code(&self) -> (code: u16)
        ensures
            code == self.spec_code(),
    {
        match self {
            Status::Success => 200,
            Status::Created => 201,
            Status::BadRequest => 400,
            Status::NotFound => 404,
            Status::ServerError => 500,
        }
    }
}

/// The fixed messages.
#[derive(Debug, Clone, Copy, PartialEq, Eq)]
pub enum Notice {
    ArticleUpdated,
    ArticleDeleted,
    ArticleNotFound,
    CreateFailed,
    GetAllFailed,
    ListFailed,
    GetFailed,
    UpdateFailed,
    DeleteFailed,
    FieldMalformed,
    FilenameMissing,
    NoFile,
    DirectoryFailed,
    FileFailed,
    ChunkFailed,
    WriteFailed,
}

impl Notice {
    /// The kind of answer that carries this message: a confirmation is `Success`;
    /// a missing article is `NotFound`; a malformed or incomplete upload
    /// request is `BadRequest`; a failure of the store or of the file system
    /// is `ServerError`.
    pub open spec fn spec_status(self) -> Status {
        match self {
            Notice::ArticleUpdated | Notice::ArticleDeleted => Status::Success,
            Notice::ArticleNotFound => Status::NotFound,
            Notice::FieldMalformed | Notice::FilenameMissing | Notice::NoFile => Status::BadRequest,
            _ => Status::ServerError,
        }
    }

    /// The text of this message.
    pub open spec fn spec_text(self) -> Seq<char> {
        match self {
            Notice::ArticleUpdated => "Article updated successfully"@,
            Notice::ArticleDeleted => "Article deleted successfully"@,
            Notice::ArticleNotFound => "Article not found"@,
            Notice::CreateFailed => "Failed to create article"@,
            Notice::GetAllFailed => "Failed to get articles"@,
            Notice::ListFailed => "Failed to list articles"@,
            Notice::GetFailed => "Failed to get article"@,
            Notice::UpdateFailed => "Failed to update article"@,
            Notice::DeleteFailed => "Failed to delete article"@,
            Notice::FieldMalformed => "Error processing field"@,
            Notice::FilenameMissing => "Filename not found in Content-Disposition"@,
            Notice::NoFile => "No file uploaded"@,
            Notice::DirectoryFailed => "Error creating uploads directory"@,
            Notice::FileFailed => "Error creating file"@,
            Notice::ChunkFailed => "Error reading chunk"@,
            Notice::WriteFailed => "Error writing to file"@,
        }
    }

    /// The kind of answer that carries this message.
    pub fn status(&self) -> (status: Status)
        ensures
            status == self.spec_status(),
    {
        match self {
            Notice::ArticleUpdated | Notice::ArticleDeleted => Status::Success,
            Notice::ArticleNotFound => Status::NotFound,
            Notice::FieldMalformed | Notice::FilenameMissing | Notice::NoFile => Status::BadRequest,
            _ => Status::ServerError,
        }
    }

    /// The text of this message.
    pub fn text(&self) -> (text: String)
        ensures
            text@ == self.spec_text(),
    {
        let text = match self {
            Notice::ArticleUpdated => "Article updated successfully",
            Notice::ArticleDeleted => "Article deleted successfully",
            Notice::ArticleNotFound => "Article not found",
            Notice::CreateFailed => "Failed to create article",
            Notice::GetAllFailed => "Failed to get articles",
            Notice::ListFailed => "Failed to list articles",
            Notice::GetFailed => "Failed to get article",
            Notice::UpdateFailed => "Failed to update article",
            Notice::DeleteFailed => "Failed to delete article",
            Notice::FieldMalformed => "Error processing field",
            Notice::FilenameMissing => "Filename not found in Content-Disposition",
            Notice::NoFile => "No file uploaded",
            Notice::DirectoryFailed => "Error creating uploads directory",
            Notice::FileFailed => "Error creating file",
            Notice::ChunkFailed => "Error reading chunk",
            Notice::WriteFailed => "Error writing to file",
        };
        text.to_owned()
    }
}

/// What an answer carries.
#[derive(Debug, PartialEq, Eq)]
pub enum Body {
    /// The id of a new article.
    Id(i64),
    /// One article.
    Article(Article),
    /// Articles with their content.
    Articles(Vec<Article>),
    /// Articles without their content.
    Summaries(Vec<ListArticle>),
    /// Where an uploaded file can be fetched.
    Location(String),
    /// A fixed message.
    Notice(Notice),
}

/// An answer.
#[derive(Debug, PartialEq, Eq)]
pub struct Reply {
    pub status: Status,
    pub body: Body,
}

impl Reply {
    /// The answer that carries `notice`, under the status that goes with it.
    pub open spec fn of_notice(notice: Notice) -> Reply {
        Reply { status: notice.spec_status(), body: Body::Notice(notice) }
    }

    /// The answer that carries `notice`, under the status that goes with it.
    pub fn notice(notice: Notice) -> (reply: Reply)
        ensures
            reply == Reply::of_notice(notice),
    {
        Reply { status: notice.status(), body: Body::Notice(notice) }
    }
}

/// The outcome of a statement that changes one article by its id, from the
/// number of rows that it changed: none means that no article has the id.
pub fn rows_affected(rows: u64) -> (outcome: Result<(), StoreError>)
    ensures
        outcome == if rows == 0 {
            Err::<(), StoreError>(StoreError::NotFound)
        } else {
            Ok(())
        },
{
    if rows == 0 {
        Err(StoreError::NotFound)
    } else {
        Ok(())
    }
}

/// The outcome of fetching one article by its id, from the row that was
/// read, if any: none means that no article has the id.
pub fn row_found(row: Option<Article>) -> (outcome: Result<Article, StoreError>)
    ensures
        outcome == match row {
            Some(article) => Ok::<Article, StoreError>(article),
            None => Err(StoreError::NotFound),
        },
{
    match row {
        Some(article) => Ok(article),
        None => Err(StoreError::NotFound),
    }
}

/// Answers a create: `Created` with the new id, or `ServerError`.
pub fn create_article(outcome: Result<i64, StoreError>) -> (reply: Reply)
    ensures
        reply == match outcome {
            Ok(id) => (Reply { status: Status::Created, body: Body::Id(id) }),
            Err(_) => Reply::of_notice(Notice::CreateFailed),
        },
{
    match outcome {
        Ok(id) => Reply { status: Status::Created, body: Body::Id(id) },
        Err(_) => Reply::notice(Notice::CreateFailed),
    }
}

/// Answers a listing with content: `Success` with the articles in the order
/// given, which may be none, or `ServerError`.
pub fn get_articles(outcome: Result<Vec<Article>, StoreError>) -> (reply: Reply)
    ensures
        reply == match outcome {
            Ok(articles) => (Reply { status: Status::Success, body: Body::Articles(articles) }),
            Err(_) => Reply::of_notice(Notice::GetAllFailed),
        },
{
    match outcome {
        Ok(articles) => Reply { status: Status::Success, body: Body::Articles(articles) },
        Err(_) => Reply::notice(Notice::GetAllFailed),
    }
}

/// Answers a listing without content: `Success` with the projections in the
/// order given, which may be none, or `ServerError`.
pub fn list_articles(outcome: Result<Vec<ListArticle>, StoreError>) -> (reply: Reply)
    ensures
        reply == match outcome {
            Ok(summaries) => (Reply { status: Status::Success, body: Body::Summaries(summaries) }),
            Err(_) => Reply::of_notice(Notice::ListFailed),
        },
{
    match outcome {
        Ok(summaries) => Reply { status: Status::Success, body: Body::Summaries(summaries) },
        Err(_) => Reply::notice(Notice::ListFailed),
    }
}

/// Answers a fetch by id: `Success` with the article, `NotFound` where no article
/// has the id, `ServerError` where the store failed.
pub fn get_article(outcome: Result<Article, StoreError>) -> (reply: Reply)
    ensures
        reply == match outcome {
            Ok(article) => (Reply { status: Status::Success, body: Body::Article(article) }),
            Err(StoreError::NotFound) => Reply::of_notice(Notice::ArticleNotFound),
            Err(StoreError::StorageFailure) => Reply::of_notice(Notice::GetFailed),
        },
{
    match outcome {
        Ok(article) => Reply { status: Status::Success, body: Body::Article(article) },
        Err(StoreError::NotFound) => Reply::notice(Notice::ArticleNotFound),
        Err(StoreError::StorageFailure) => Reply::notice(Notice::GetFailed),
    }
}

/// Answers an update: `Success` with a confirmation, `NotFound` where no article
/// has the id, `ServerError` where the store failed.
pub fn update_article(outcome: Result<(), StoreError>) -> (reply: Reply)
    ensures
        reply == Reply::of_notice(
            match outcome {
                Ok(_) => Notice::ArticleUpdated,
                Err(StoreError::NotFound) => Notice::ArticleNotFound,
                Err(StoreError::StorageFailure) => Notice::UpdateFailed,
            },
        ),
{
    match outcome {
        Ok(_) => Reply::notice(Notice::ArticleUpdated),
        Err(StoreError::NotFound) => Reply::notice(Notice::ArticleNotFound),
        Err(StoreError::StorageFailure) => Reply::notice(Notice::UpdateFailed),
    }
}

/// Answers a delete: `Success` with a confirmation, `NotFound` where no article
/// has the id, `ServerError` where the store failed.
pub fn delete_article(outcome: Result<(), StoreError>) -> (reply: Reply)
    ensures
        reply == Reply::of_notice(
            match outcome {
                Ok(_) => Notice::ArticleDeleted,
                Err(StoreError::NotFound) => Notice::ArticleNotFound,
                Err(StoreError::StorageFailure) => Notice::DeleteFailed,
            },
        ),
{
    match outcome {
        Ok(_) => Reply::notice(Notice::ArticleDeleted),
        Err(StoreError::NotFound) => Reply::notice(Notice::ArticleNotFound),
        Err(StoreError::StorageFailure) => Reply::notice(Notice::DeleteFailed),
    }
}

} // verus!
