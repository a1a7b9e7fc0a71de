//! Articles, their list projection, and the two requests that change them.

use vstd::prelude::*;

verus! {

/// A reading of the clock: the time as text, as the store shows it, and the
/// same time in seconds, by which times are ordered. The text is carried as
/// it is and never read.
#[derive(Debug, PartialEq, Eq)]
pub struct Timestamp {
    pub seconds: u64,
    pub text: String,
}

/// A stored article. `id` is given by the store and never changes; the
/// creation time is set once; the update time is refreshed by every update.
/// Each time stands twice: as text, which may be absent in a record that
/// was stored by other means, and in seconds.
#[derive(Debug, PartialEq, Eq)]
pub struct Article {
    pub id: i64,
    pub title: Option<String>,
    pub content: Option<String>,
    pub is_draft: bool,
    pub thumbnail: Option<String>,
    pub created_at: Option<String>,
    pub updated_at: Option<String>,
    pub created_seconds: u64,
    pub updated_seconds: u64,
}

/// An article without its content, for list views.
#[derive(Debug, PartialEq, Eq)]
pub struct ListArticle {
    pub id: i64,
    pub title: Option<String>,
    pub is_draft: bool,
    pub thumbnail: Option<String>,
    pub created_at: Option<String>,
    pub updated_at: Option<String>,
    pub created_seconds: u64,
    pub updated_seconds: u64,
}

/// The request that creates an article. An empty title or content is valid.
#[derive(Debug, PartialEq, Eq)]
pub struct CreateArticle {
    pub title: String,
    pub content: String,
    pub is_draft: bool,
    pub thumbnail: Option<String>,
}

/// The request that updates an article. `None` leaves a field as it is;
/// `Some` replaces it, also by an empty string.
#[derive(Debug, PartialEq, Eq)]
pub struct UpdateArticle {
    pub title: Option<String>,
    pub content: Option<String>,
    pub is_draft: Option<bool>,
    pub thumbnail: Option<String>,
}

/// The supplied value if there is one, else the stored one.
pub open spec fn supplied_or<T>(supplied: Option<T>, stored: T) -> T {
    match supplied {
        Some(value) => value,
        None => stored,
    }
}

/// The supplied text if there is one, else the stored text, which may be
/// absent itself.
pub open spec fn coalesce<T>(supplied: Option<T>, stored: Option<T>) -> Option<T> {
    match supplied {
        Some(_) => supplied,
        None => stored,
    }
}

fn copy_text(text: &Option<String>) -> (copy: Option<String>)
    ensures
        copy == *text,
{
    match text {
        Some(s) => Some(s.clone()),
        None => None,
    }
}

impl Timestamp {
    /// A reading of the clock.
    pub fn new(seconds: u64, text: String) -> (now: Timestamp)
        ensures
            now == (Timestamp { seconds, text }),
    {
        Timestamp { seconds, text }
    }
}

impl CreateArticle {
    /// The article that this request creates under `id` at time `now`:
    /// created and updated at that one time.
    pub open spec fn record(self, id: i64, now: Timestamp) -> Article {
        Article {
            id,
            title: Some(self.title),
            content: Some(self.content),
            is_draft: self.is_draft,
            thumbnail: self.thumbnail,
            created_at: Some(now.text),
            updated_at: Some(now.text),
            created_seconds: now.seconds,
            updated_seconds: now.seconds,
        }
    }
}

impl UpdateArticle {
    /// The article that `stored` becomes by this request at time `now`.
    /// Fields that the request does not supply stay; `id` and the creation
    /// time always stay; the update time becomes `now`, whatever it was and
    /// whatever the request supplies.
    pub open spec fn merged(self, stored: Article, now: Timestamp) -> Article {
        Article {
            id: stored.id,
            title: coalesce(self.title, stored.title),
            content: coalesce(self.content, stored.content),
            is_draft: supplied_or(self.is_draft, stored.is_draft),
            thumbnail: coalesce(self.thumbnail, stored.thumbnail),
            created_at: stored.created_at,
            updated_at: Some(now.text),
            created_seconds: stored.created_seconds,
            updated_seconds: now.seconds,
        }
    }

    /// A request that supplies nothing.
    pub fn empty() -> (patch: UpdateArticle)
        ensures
            patch == (UpdateArticle { title: None, content: None, is_draft: None, thumbnail: None }),
    {
        UpdateArticle { title: None, content: None, is_draft: None, thumbnail: None }
    }
}

impl Article {
    /// A record is valid when it was not updated before it was created.
    pub open spec fn valid(self) -> bool {
        self.created_seconds <= self.updated_seconds
    }

    /// The list projection: every field but `content`.
    pub open spec fn summary(self) -> ListArticle {
        ListArticle {
            id: self.id,
            title: self.title,
            is_draft: self.is_draft,
            thumbnail: self.thumbnail,
            created_at: self.created_at,
            updated_at: self.updated_at,
            created_seconds: self.created_seconds,
            updated_seconds: self.updated_seconds,
        }
    }

    /// Makes the article that `item` asks for.
    pub fn new(id: i64, item: CreateArticle, now: Timestamp) -> (article: Article)
        ensures
            article == item.record(id, now),
            article.valid(),
    {
        let text = now.text.clone();
        Article {
            id,
            title: Some(item.title),
            content: Some(item.content),
            is_draft: item.is_draft,
            thumbnail: item.thumbnail,
            created_at: Some(text),
            updated_at: Some(now.text),
            created_seconds: now.seconds,
            updated_seconds: now.seconds,
        }
    }

    /// Merges `patch` into this article in one step. The article stays
    /// valid where `now` is not before its creation.
    pub fn apply(&mut self, patch: UpdateArticle, now: Timestamp)
        ensures
            *final(self) == patch.merged(*old(self), now),
            old(self).created_seconds <= now.seconds ==> final(self).valid(),
    {
        if let Some(title) = patch.title {
            self.title = Some(title);
        }
        if let Some(content) = patch.content {
            self.content = Some(content);
        }
        if let Some(is_draft) = patch.is_draft {
            self.is_draft = is_draft;
        }
        if let Some(thumbnail) = patch.thumbnail {
            self.thumbnail = Some(thumbnail);
        }
        self.updated_at = Some(now.text);
        self.updated_seconds = now.seconds;
    }

    /// Projects the article for a list view.
    pub fn summarize(&self) -> (summary: ListArticle)
        ensures
            summary == self.summary(),
    {
        ListArticle {
            id: self.id,
            title: copy_text(&self.title),
            is_draft: self.is_draft,
            thumbnail: copy_text(&self.thumbnail),
            created_at: copy_text(&self.created_at),
            updated_at: copy_text(&self.updated_at),
            created_seconds: self.created_seconds,
            updated_seconds: self.updated_seconds,
        }
    }
}

impl Clone for Article {
    fn clone(&self) -> (copy: Self)
        ensures
            copy == *self,
    {
        Article {
            id: self.id,
            title: copy_text(&self.title),
            content: copy_text(&self.content),
            is_draft: self.is_draft,
            thumbnail: copy_text(&self.thumbnail),
            created_at: copy_text(&self.created_at),
            updated_at: copy_text(&self.updated_at),
            created_seconds: self.created_seconds,
            updated_seconds: self.updated_seconds,
        }
    }
}

} // verus!
