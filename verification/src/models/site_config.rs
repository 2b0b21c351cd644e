//! The singleton site configuration and its partial update.

use vstd::prelude::*;

verus! {

/// The one configuration row of the site.
#[derive(Debug, Clone)]
pub struct SiteConfig {
    pub id: i32,
    pub live_stream_url: Option<String>,
    pub is_live_active: bool,
    pub breaking_news_banner: Option<String>,
}

/// A partial update of the configuration: an absent field keeps what is stored.
#[derive(Debug, Clone)]
pub struct UpdateSiteConfigSchema {
    pub live_stream_url: Option<String>,
    pub is_live_active: Option<bool>,
    pub breaking_news_banner: Option<String>,
}

} // verus!
