//! Articles and the request that creates one. Instants are held as
//! microseconds since the Unix epoch.

use vstd::prelude::*;

verus! {

/// An article row.
#[derive(Debug, Clone)]
pub struct Article {
    pub id: i64,
    pub title: String,
    pub slug: String,
    pub content: String,
    pub excerpt: Option<String>,
    pub main_image_url: Option<String>,
    pub video_embed_url: Option<String>,
    pub author_id: Option<i64>,
    pub category_id: Option<i32>,
    pub status: String,
    pub is_featured: bool,
    pub is_breaking: bool,
    pub views_count: i64,
    pub published_at: Option<i64>,
    pub created_at: Option<i64>,
    pub updated_at: Option<i64>,
}

/// The body of a request that creates an article.
#[derive(Debug, Clone)]
pub struct CreateArticleSchema {
    pub title: String,
    pub content: String,
    pub excerpt: Option<String>,
    pub category_id: Option<i32>,
    pub main_image_url: Option<String>,
    pub video_embed_url: Option<String>,
    pub status: Option<String>,
    pub is_featured: Option<bool>,
    pub is_breaking: Option<bool>,
    pub published_at: Option<i64>,
}

} // verus!
