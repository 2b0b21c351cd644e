//! Articles: who may edit one, what a new one looks like, and how a
//! partial update merges into what is stored.

use vstd::prelude::*;
use crate::error::{ApiError, Outcome};
use crate::ids::{is_simple_id, simple_text};
use crate::models::article::{Article, CreateArticleSchema};
use crate::models::user::Claims;
use crate::policy::{authorize, decision, is_elevated, Capability, Resource};
use crate::slug::{is_slug, is_slug_char, lowercase_of, slug_of, slugify};

verus! {

/// The status of an article that was created without one.
pub const DEFAULT_STATUS: &'static str = "draft";

/// What stands before the random part of a slug made for a title that has none.
pub const FALLBACK_SLUG_PREFIX: &'static str = "article-";

/// A partial update of an article: an absent field keeps what is stored.
/// There is no version check: of two concurrent editors the last one wins,
/// field by field.
#[derive(Debug, Clone)]
pub struct UpdateArticleSchema {
    pub title: Option<String>,
    pub content: Option<String>,
    pub excerpt: Option<String>,
    pub category_id: Option<i32>,
    pub main_image_url: Option<String>,
    pub video_embed_url: Option<String>,
    pub status: Option<String>,
    pub is_featured: Option<bool>,
    pub is_breaking: Option<bool>,
    pub published_at: Option<i64>,
}

/// The filters of an article listing; an absent one filters nothing.
#[derive(Debug, Clone)]
pub struct FilterOptions {
    pub category_id: Option<i32>,
    pub search: Option<String>,
    pub is_featured: Option<bool>,
    pub is_breaking: Option<bool>,
    pub has_video: Option<bool>,
}

/// What the store said when asked for the article an edit targets.
#[derive(Clone, Copy, Debug, PartialEq, Eq, Structural)]
pub enum Lookup {
    /// The lookup itself failed.
    Failed,
    /// The article exists, with this owner if it has one.
    Found(Option<i64>),
    /// There is no such article.
    Missing,
}

/// The row that creating an article asks the store to insert.
#[derive(Debug, Clone)]
pub struct ArticleDraft {
    pub title: String,
    pub slug: String,
    pub content: String,
    pub excerpt: Option<String>,
    pub main_image_url: Option<String>,
    pub video_embed_url: Option<String>,
    pub author_id: Option<i64>,
    pub category_id: Option<i32>,
    pub status: String,
    pub is_featured: bool,
    pub is_breaking: bool,
    pub published_at: Option<i64>,
}

/// What a lookup tells the access policy about the resource.
pub open spec fn resource_of(existing: Lookup) -> Resource {
    match existing {
        Lookup::Found(Some(owner)) => Resource::OwnedBy(owner),
        Lookup::Found(None) => Resource::Unowned,
        _ => Resource::Missing,
    }
}

/// Whether the bearer of `claims` may edit the article that was looked up.
/// A failed lookup is `Internal` and is not taken for a missing article;
/// a missing article is `NotFound` before ownership is even compared;
/// then the edit policy decides.
pub open spec fn edit_decision(claims: &Claims, existing: Lookup) -> Result<(), ApiError> {
    match existing {
        Lookup::Failed => Err(ApiError::Internal),
        _ => decision(Some(claims), Capability::EditContent, resource_of(existing)),
    }
}

/// Decides an edit request before anything is written.
pub fn update_article_handler(claims: &Claims, existing: Lookup) -> (r: Result<(), ApiError>)
    ensures
        r == edit_decision(claims, existing),
{
    let resource = match existing {
        Lookup::Failed => {
            return Err(ApiError::Internal);
        },
        Lookup::Found(Some(owner)) => Resource::OwnedBy(owner),
        Lookup::Found(None) => Resource::Unowned,
        Lookup::Missing => Resource::Missing,
    };
    match authorize(Some(claims), Capability::EditContent, resource) {
        Ok(_) => Ok(()),
        Err(e) => Err(e),
    }
}

/// On an article that exists, an edit is allowed exactly to its owner and
/// to elevated accounts; everyone else is `Forbidden`. An article without
/// an owner is for elevated accounts only.
pub proof fn lemma_edit_boundary(claims: &Claims, owner: Option<i64>)
    ensures
        edit_decision(claims, Lookup::Found(owner)) == if is_elevated(claims) || owner == Some(
            claims.user_id,
        ) {
            Ok::<(), ApiError>(())
        } else {
            Err::<(), ApiError>(ApiError::Forbidden)
        },
{
}

/// The article after a partial update at the instant `now`: each field
/// that the update holds replaces the stored one, every other field
/// stays. Identity, slug, owner, view counter and creation time are never
/// touched.
pub open spec fn merged(stored: Article, patch: UpdateArticleSchema, now: i64) -> Article {
    Article {
        id: stored.id,
        title: if patch.title is Some { patch.title->0 } else { stored.title },
        slug: stored.slug,
        content: if patch.content is Some { patch.content->0 } else { stored.content },
        excerpt: if patch.excerpt is Some { patch.excerpt } else { stored.excerpt },
        main_image_url: if patch.main_image_url is Some {
            patch.main_image_url
        } else {
            stored.main_image_url
        },
        video_embed_url: if patch.video_embed_url is Some {
            patch.video_embed_url
        } else {
            stored.video_embed_url
        },
        author_id: stored.author_id,
        category_id: if patch.category_id is Some { patch.category_id } else { stored.category_id },
        status: if patch.status is Some { patch.status->0 } else { stored.status },
        is_featured: if patch.is_featured is Some { patch.is_featured->0 } else { stored.is_featured },
        is_breaking: if patch.is_breaking is Some { patch.is_breaking->0 } else { stored.is_breaking },
        views_count: stored.views_count,
        published_at: if patch.published_at is Some {
            patch.published_at
        } else {
            stored.published_at
        },
        created_at: stored.created_at,
        updated_at: Some(now),
    }
}

/// Merges a partial update into the stored article.
pub fn apply_update(stored: Article, patch: UpdateArticleSchema, now: i64) -> (r: Article)
    ensures
        r == merged(stored, patch, now),
{
    Article {
        id: stored.id,
        title: match patch.title {
            Some(v) => v,
            None => stored.title,
        },
        slug: stored.slug,
        content: match patch.content {
            Some(v) => v,
            None => stored.content,
        },
        excerpt: match patch.excerpt {
            Some(v) => Some(v),
            None => stored.excerpt,
        },
        main_image_url: match patch.main_image_url {
            Some(v) => Some(v),
            None => stored.main_image_url,
        },
        video_embed_url: match patch.video_embed_url {
            Some(v) => Some(v),
            None => stored.video_embed_url,
        },
        author_id: stored.author_id,
        category_id: match patch.category_id {
            Some(v) => Some(v),
            None => stored.category_id,
        },
        status: match patch.status {
            Some(v) => v,
            None => stored.status,
        },
        is_featured: match patch.is_featured {
            Some(v) => v,
            None => stored.is_featured,
        },
        is_breaking: match patch.is_breaking {
            Some(v) => v,
            None => stored.is_breaking,
        },
        views_count: stored.views_count,
        published_at: match patch.published_at {
            Some(v) => Some(v),
            None => stored.published_at,
        },
        created_at: stored.created_at,
        updated_at: Some(now),
    }
}

/// What the store's answer to the update means: `Success`, or `Internal`.
pub fn update_outcome(updated: bool) -> (r: Outcome)
    ensures
        r == if updated {
            Outcome::Success
        } else {
            Outcome::Failed(ApiError::Internal)
        },
{
    if updated {
        Outcome::Success
    } else {
        Outcome::Failed(ApiError::Internal)
    }
}

/// The slug of a new article: the slug of its title, or, where that is
/// empty, the fallback prefix followed by `fallback_id`.
pub open spec fn article_slug_of(lowered_title: Seq<char>, fallback_id: Seq<char>) -> Seq<char> {
    if slug_of(lowered_title).len() == 0 {
        FALLBACK_SLUG_PREFIX@ + fallback_id
    } else {
        slug_of(lowered_title)
    }
}

/// The fallback prefix followed by an identifier in simple form has the
/// shape of a slug.
pub proof fn lemma_fallback_is_slug(id: Seq<char>)
    requires
        is_simple_id(id),
    ensures
        is_slug(FALLBACK_SLUG_PREFIX@ + id),
        (FALLBACK_SLUG_PREFIX@ + id).len() == 40,
{
    reveal_strlit("article-");
    let prefix = FALLBACK_SLUG_PREFIX@;
    let whole = prefix + id;
    assert(prefix.len() == 8);
    assert forall|i: int| 0 <= i < whole.len() implies is_slug_char(#[trigger] whole[i])
        || whole[i] == '-' by {
        if i >= 8 {
            assert(whole[i] == id[i - 8]);
        }
    }
    assert forall|i: int| 0 <= i < whole.len() - 1 implies !(#[trigger] whole[i] == '-' && whole[i
        + 1] == '-') by {
        if i >= 7 {
            assert(whole[i + 1] == id[i - 7]);
        }
    }
    assert(whole.first() == prefix[0]);
    assert(whole.last() == id[31]);
}

/// The slug for a title whose own slug is `slug`, with `fallback_id` at hand.
pub fn slug_or_fallback(slug: String, fallback_id: &str) -> (r: String)
    ensures
        r@ == if slug@.len() == 0 {
            FALLBACK_SLUG_PREFIX@ + fallback_id@
        } else {
            slug@
        },
{
    if slug.as_str().is_empty() {
        String::from_str(FALLBACK_SLUG_PREFIX).concat(fallback_id)
    } else {
        slug
    }
}

/// The row of a new article under a given slug and status: owned by
/// `author`, neither featured nor breaking unless the request says so.
pub open spec fn drafted(
    author: i64,
    body: CreateArticleSchema,
    slug: String,
    status: String,
) -> ArticleDraft {
    ArticleDraft {
        title: body.title,
        slug,
        content: body.content,
        excerpt: body.excerpt,
        main_image_url: body.main_image_url,
        video_embed_url: body.video_embed_url,
        author_id: Some(author),
        category_id: body.category_id,
        status,
        is_featured: body.is_featured == Some(true),
        is_breaking: body.is_breaking == Some(true),
        published_at: body.published_at,
    }
}

/// Builds the row of a new article under a given slug: a draft unless the
/// request names a status.
pub fn draft_article(author: i64, body: CreateArticleSchema, slug: String) -> (r: ArticleDraft)
    ensures
        r == drafted(author, body, slug, r.status),
        r.status@ == (if body.status is Some { body.status->0@ } else { DEFAULT_STATUS@ }),
{
    ArticleDraft {
        title: body.title,
        slug,
        content: body.content,
        excerpt: body.excerpt,
        main_image_url: body.main_image_url,
        video_embed_url: body.video_embed_url,
        author_id: Some(author),
        category_id: body.category_id,
        status: match body.status {
            Some(v) => v,
            None => String::from_str(DEFAULT_STATUS),
        },
        is_featured: match body.is_featured {
            Some(v) => v,
            None => false,
        },
        is_breaking: match body.is_breaking {
            Some(v) => v,
            None => false,
        },
        published_at: body.published_at,
    }
}

/// Prepares the row of a new article for the bearer of `claims`, who
/// becomes its owner. The slug is the one of the title; a title without
/// letters or digits gets the fallback prefix and a random id instead.
pub fn create_article_handler(claims: &Claims, body: CreateArticleSchema) -> (r: ArticleDraft)
    ensures
        r == drafted(claims.user_id, body, r.slug, r.status),
        r.author_id == Some(claims.user_id),
        r.status@ == (if body.status is Some { body.status->0@ } else { DEFAULT_STATUS@ }),
        slug_of(lowercase_of(body.title@)).len() > 0 ==> r.slug@ == slug_of(
            lowercase_of(body.title@),
        ),
        slug_of(lowercase_of(body.title@)).len() == 0 ==> exists|id: Seq<char>|
            is_simple_id(id) && r.slug@ == #[trigger] article_slug_of(lowercase_of(body.title@), id),
        r.slug@.len() > 0,
        is_slug(r.slug@),
{
    let own = slugify(body.title.as_str());
    let slug = if own.as_str().is_empty() {
        let id = simple_text(&uuid::Uuid::new_v4());
        let made = slug_or_fallback(own, id.as_str());
        proof {
            assert(made@ == article_slug_of(lowercase_of(body.title@), id@));
            lemma_fallback_is_slug(id@);
        }
        made
    } else {
        own
    };
    draft_article(claims.user_id, body, slug)
}

/// What the store's answer to the insert means: `Created`, or `BadRequest`.
pub fn create_outcome(inserted: bool) -> (r: Outcome)
    ensures
        r == if inserted {
            Outcome::Created
        } else {
            Outcome::Failed(ApiError::BadRequest)
        },
{
    if inserted {
        Outcome::Created
    } else {
        Outcome::Failed(ApiError::BadRequest)
    }
}

/// What deleting reports, given how many rows went, or `None` where the
/// store failed: `Internal` on failure, `NotFound` where nothing went.
pub fn delete_article_handler(rows_affected: Option<u64>) -> (r: Outcome)
    ensures
        r == match rows_affected {
            None => Outcome::Failed(ApiError::Internal),
            Some(n) => if n == 0 {
                Outcome::Failed(ApiError::NotFound)
            } else {
                Outcome::Success
            },
        },
{
    match rows_affected {
        None => Outcome::Failed(ApiError::Internal),
        Some(0) => Outcome::Failed(ApiError::NotFound),
        Some(_) => Outcome::Success,
    }
}

/// What reading one article, or counting a view of it, reports, given
/// whether the row was found, or `None` where the store failed.
pub fn fetch_outcome(found: Option<bool>) -> (r: Outcome)
    ensures
        r == match found {
            None => Outcome::Failed(ApiError::Internal),
            Some(false) => Outcome::Failed(ApiError::NotFound),
            Some(true) => Outcome::Success,
        },
{
    match found {
        None => Outcome::Failed(ApiError::Internal),
        Some(false) => Outcome::Failed(ApiError::NotFound),
        Some(true) => Outcome::Success,
    }
}

/// What a listing reports: `Success`, or `Internal` where the store failed.
pub fn list_outcome(listed: bool) -> (r: Outcome)
    ensures
        r == if listed {
            Outcome::Success
        } else {
            Outcome::Failed(ApiError::Internal)
        },
{
    if listed {
        Outcome::Success
    } else {
        Outcome::Failed(ApiError::Internal)
    }
}

/// The filters of a listing request: those given, or none at all.
pub fn filters_or_none(opts: Option<FilterOptions>) -> (r: FilterOptions)
    ensures
        r == match opts {
            Some(given) => given,
            None => (FilterOptions {
                category_id: None,
                search: None,
                is_featured: None,
                is_breaking: None,
                has_video: None,
            }),
        },
{
    match opts {
        Some(given) => given,
        None => FilterOptions {
            category_id: None,
            search: None,
            is_featured: None,
            is_breaking: None,
            has_video: None,
        },
    }
}

} // verus!
