use newsdesk::error::{ApiError, Outcome};
use newsdesk::handlers::article::{
    apply_update, create_article_handler, create_outcome, delete_article_handler, draft_article, fetch_outcome,
    filters_or_none, list_outcome, slug_or_fallback, update_outcome, FilterOptions, UpdateArticleSchema,
};
use newsdesk::handlers::site_config::{get_site_config_handler, site_config_outcome, update_site_config_handler};
use newsdesk::handlers::upload::{
    is_allowed_image, is_image_field, plan_upload, upload_failure, upload_image_handler, UploadError, MAX_IMAGE_BYTES,
};
use newsdesk::models::article::{Article, CreateArticleSchema};
use newsdesk::models::site_config::{SiteConfig, UpdateSiteConfigSchema};
use newsdesk::models::user::Claims;

fn bob() -> Claims {
    Claims { sub: "b@x.com".to_string(), exp: 2_000_000_000, iat: 1_000, user_id: 2, role: "editor".to_string() }
}

fn body(title: &str) -> CreateArticleSchema {
    CreateArticleSchema {
        title: title.to_string(),
        content: "text".to_string(),
        excerpt: None,
        category_id: Some(3),
        main_image_url: None,
        video_embed_url: None,
        status: None,
        is_featured: None,
        is_breaking: Some(true),
        published_at: Some(17),
    }
}

fn article() -> Article {
    Article {
        id: 42,
        title: "Old".to_string(),
        slug: "old".to_string(),
        content: "old text".to_string(),
        excerpt: Some("old excerpt".to_string()),
        main_image_url: None,
        video_embed_url: None,
        author_id: Some(2),
        category_id: Some(1),
        status: "draft".to_string(),
        is_featured: false,
        is_breaking: true,
        views_count: 9,
        published_at: None,
        created_at: Some(5),
        updated_at: Some(6),
    }
}

fn empty_patch() -> UpdateArticleSchema {
    UpdateArticleSchema {
        title: None,
        content: None,
        excerpt: None,
        category_id: None,
        main_image_url: None,
        video_embed_url: None,
        status: None,
        is_featured: None,
        is_breaking: None,
        published_at: None,
    }
}

#[test]
fn new_article_is_owned_by_its_creator() {
    let draft = create_article_handler(&bob(), body("Robo en Centro"));
    assert_eq!(draft.author_id, Some(2));
    assert_eq!(draft.slug, "robo-en-centro");
    assert_eq!(draft.status, "draft");
    assert!(!draft.is_featured);
    assert!(draft.is_breaking);
    assert_eq!(draft.category_id, Some(3));
    assert_eq!(draft.published_at, Some(17));
    assert_eq!(draft.title, "Robo en Centro");
}

#[test]
fn new_article_without_sluggable_title_gets_a_random_slug() {
    let a = create_article_handler(&bob(), body("¡¡¡!!!"));
    let b = create_article_handler(&bob(), body("¡¡¡!!!"));
    assert!(a.slug.starts_with("article-"));
    assert_eq!(a.slug.len(), "article-".len() + 32);
    assert!(a.slug["article-".len()..].chars().all(|c| c.is_ascii_hexdigit()));
    assert_ne!(a.slug, b.slug);
}

#[test]
fn slug_fallback() {
    assert_eq!(slug_or_fallback(String::new(), "abc"), "article-abc");
    assert_eq!(slug_or_fallback("kept".to_string(), "abc"), "kept");
}

#[test]
fn draft_keeps_a_given_status() {
    let mut b = body("T");
    b.status = Some("published".to_string());
    b.is_featured = Some(true);
    b.is_breaking = Some(false);
    let draft = draft_article(9, b, "t".to_string());
    assert_eq!(draft.status, "published");
    assert!(draft.is_featured);
    assert!(!draft.is_breaking);
    assert_eq!(draft.author_id, Some(9));
    assert_eq!(draft.slug, "t");
}

#[test]
fn update_merges_only_present_fields() {
    let same = apply_update(article(), empty_patch(), 100);
    assert_eq!(same.title, "Old");
    assert_eq!(same.excerpt.as_deref(), Some("old excerpt"));
    assert_eq!(same.updated_at, Some(100));
    assert_eq!(same.created_at, Some(5));
    let patch = UpdateArticleSchema {
        title: Some("New".to_string()),
        is_breaking: Some(false),
        category_id: Some(8),
        published_at: Some(77),
        ..empty_patch()
    };
    let got = apply_update(article(), patch, 200);
    assert_eq!(got.title, "New");
    assert_eq!(got.content, "old text");
    assert!(!got.is_breaking);
    assert!(!got.is_featured);
    assert_eq!(got.category_id, Some(8));
    assert_eq!(got.published_at, Some(77));
    assert_eq!(got.author_id, Some(2));
    assert_eq!(got.id, 42);
    assert_eq!(got.slug, "old");
    assert_eq!(got.views_count, 9);
    assert_eq!(got.status, "draft");
    assert_eq!(got.updated_at, Some(200));
}

#[test]
fn article_outcomes() {
    assert_eq!(update_outcome(true).status_code(), 200);
    assert_eq!(update_outcome(false).status_code(), 500);
    assert_eq!(create_outcome(true).status_code(), 201);
    assert_eq!(create_outcome(false).status_code(), 400);
    assert_eq!(delete_article_handler(None), Outcome::Failed(ApiError::Internal));
    assert_eq!(delete_article_handler(Some(0)), Outcome::Failed(ApiError::NotFound));
    assert_eq!(delete_article_handler(Some(1)), Outcome::Success);
    assert_eq!(fetch_outcome(None).status_code(), 500);
    assert_eq!(fetch_outcome(Some(false)).status_code(), 404);
    assert_eq!(fetch_outcome(Some(true)).status_code(), 200);
    assert_eq!(list_outcome(true).status_code(), 200);
    assert_eq!(list_outcome(false).status_code(), 500);
}

#[test]
fn absent_filters_filter_nothing() {
    let none = filters_or_none(None);
    assert!(none.category_id.is_none() && none.search.is_none() && none.is_featured.is_none());
    assert!(none.is_breaking.is_none() && none.has_video.is_none());
    let given = filters_or_none(Some(FilterOptions {
        category_id: Some(4),
        search: Some("x".to_string()),
        is_featured: None,
        is_breaking: Some(true),
        has_video: Some(false),
    }));
    assert_eq!(given.category_id, Some(4));
    assert_eq!(given.search.as_deref(), Some("x"));
    assert_eq!(given.has_video, Some(false));
}

#[test]
fn site_config_defaults_and_merge() {
    let shown = get_site_config_handler(None);
    assert_eq!((shown.id, shown.is_live_active), (1, true));
    assert!(shown.live_stream_url.is_none() && shown.breaking_news_banner.is_none());
    let stored = SiteConfig {
        id: 1,
        live_stream_url: Some("http://live".to_string()),
        is_live_active: false,
        breaking_news_banner: None,
    };
    let kept = get_site_config_handler(Some(stored.clone()));
    assert_eq!(kept.live_stream_url.as_deref(), Some("http://live"));
    let patch =
        UpdateSiteConfigSchema { live_stream_url: None, is_live_active: None, breaking_news_banner: Some("hey".to_string()) };
    let got = update_site_config_handler(Some(stored), patch.clone());
    assert_eq!(got.live_stream_url.as_deref(), Some("http://live"));
    assert!(!got.is_live_active);
    assert_eq!(got.breaking_news_banner.as_deref(), Some("hey"));
    let fresh = update_site_config_handler(None, patch);
    assert_eq!((fresh.id, fresh.is_live_active), (1, true));
    assert_eq!(fresh.breaking_news_banner.as_deref(), Some("hey"));
    assert_eq!(site_config_outcome(true).status_code(), 200);
    assert_eq!(site_config_outcome(false).status_code(), 500);
}

#[test]
fn upload_limits() {
    assert_eq!(MAX_IMAGE_BYTES, 5 * 1024 * 1024);
    assert!(upload_image_handler(Some("a.png"), Some("image/png"), MAX_IMAGE_BYTES).is_ok());
    assert_eq!(
        upload_image_handler(Some("a.png"), Some("image/png"), MAX_IMAGE_BYTES + 1).err(),
        Some(UploadError::TooLarge)
    );
    assert_eq!(upload_image_handler(Some("a.png"), Some("text/plain"), MAX_IMAGE_BYTES + 1).err(), Some(UploadError::TooLarge));
}

#[test]
fn upload_media_types() {
    for ok in ["image/jpeg", "image/png", "image/webp", "image/gif", "image/png; charset=utf-8"] {
        assert!(upload_image_handler(Some("a.bin"), Some(ok), 10).is_ok());
    }
    for bad in ["text/plain", "image/svg+xml", "application/png", "video/gif"] {
        assert_eq!(upload_image_handler(Some("a.png"), Some(bad), 10).err(), Some(UploadError::UnsupportedType));
    }
    assert!(upload_image_handler(Some("a.png"), None, 10).is_ok());
    assert!(upload_image_handler(Some("a.png"), Some("not a media type"), 10).is_ok());
    assert!(is_allowed_image("image", "gif"));
    assert!(!is_allowed_image("image", "bmp"));
    assert!(!is_allowed_image("png", "image"));
    assert!(is_image_field("image"));
    assert!(!is_image_field("file"));
}

#[test]
fn upload_names() {
    let img = upload_image_handler(Some("holiday.photo.PNG"), Some("image/png"), 10).unwrap();
    assert!(img.file_name.ends_with(".PNG"));
    assert_eq!(img.file_name.len(), 36 + 4);
    assert_eq!(img.path, format!("uploads/{}", img.file_name));
    assert_eq!(img.url, format!("/uploads/{}", img.file_name));
    assert_eq!(img.original_name, "holiday.photo.PNG");
    let bare = upload_image_handler(Some("noext"), None, 10).unwrap();
    assert!(bare.file_name.ends_with(".jpg"));
    let unnamed = upload_image_handler(None, None, 10).unwrap();
    assert!(unnamed.file_name.ends_with(".jpg"));
    assert_eq!(unnamed.original_name, "unknown.jpg");
    assert_ne!(unnamed.file_name, bare.file_name);
}

#[test]
fn upload_plan_is_exact() {
    let parts = Some(("image".to_string(), "webp".to_string()));
    let img = plan_upload("cat.webp", "webp", &parts, 1, "id-1").unwrap();
    assert_eq!(img.file_name, "id-1.webp");
    assert_eq!(img.path, "uploads/id-1.webp");
    assert_eq!(img.url, "/uploads/id-1.webp");
    assert_eq!(img.original_name, "cat.webp");
    let bad = Some(("text".to_string(), "html".to_string()));
    assert_eq!(plan_upload("cat.webp", "webp", &bad, 1, "id-1").err(), Some(UploadError::UnsupportedType));
    assert_eq!(upload_failure(UploadError::TooLarge), (ApiError::BadRequest, "La imagen excede el tamaño máximo de 5MB"));
    assert_eq!(
        upload_failure(UploadError::UnsupportedType),
        (ApiError::BadRequest, "Solo se permiten imágenes (jpg, png, webp, gif)")
    );
}
