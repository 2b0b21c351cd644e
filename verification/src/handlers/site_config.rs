//! The singleton site configuration: its defaults and its partial update.

use vstd::prelude::*;
use crate::error::{ApiError, Outcome};
use crate::models::site_config::{SiteConfig, UpdateSiteConfigSchema};

verus! {

/// The id of the one configuration row.
pub const SITE_CONFIG_ID: i32 = 1;

/// The configuration of a site that has stored none: no stream, live
/// display on, no banner.
pub open spec fn default_config() -> SiteConfig {
    SiteConfig {
        id: SITE_CONFIG_ID,
        live_stream_url: None,
        is_live_active: true,
        breaking_news_banner: None,
    }
}

/// The configuration after a partial update of what is stored, or of the
/// defaults where nothing is: each field that the update holds replaces
/// the stored one, every other field stays.
pub open spec fn updated_config(stored: Option<SiteConfig>, patch: UpdateSiteConfigSchema) -> SiteConfig {
    let base = if stored is Some { stored->0 } else { default_config() };
    SiteConfig {
        id: SITE_CONFIG_ID,
        live_stream_url: if patch.live_stream_url is Some {
            patch.live_stream_url
        } else {
            base.live_stream_url
        },
        is_live_active: if patch.is_live_active is Some {
            patch.is_live_active->0
        } else {
            base.is_live_active
        },
        breaking_news_banner: if patch.breaking_news_banner is Some {
            patch.breaking_news_banner
        } else {
            base.breaking_news_banner
        },
    }
}

/// The configuration to show: the stored one, or the defaults.
pub fn get_site_config_handler(stored: Option<SiteConfig>) -> (r: SiteConfig)
    ensures
        r == if stored is Some { stored->0 } else { default_config() },
{
    match stored {
        Some(config) => config,
        None => SiteConfig {
            id: SITE_CONFIG_ID,
            live_stream_url: None,
            is_live_active: true,
            breaking_news_banner: None,
        },
    }
}

/// The configuration to store for an update request.
pub fn update_site_config_handler(stored: Option<SiteConfig>, patch: UpdateSiteConfigSchema) -> (r:
    SiteConfig)
    ensures
        r == updated_config(stored, patch),
{
    let base = get_site_config_handler(stored);
    SiteConfig {
        id: SITE_CONFIG_ID,
        live_stream_url: match patch.live_stream_url {
            Some(v) => Some(v),
            None => base.live_stream_url,
        },
        is_live_active: match patch.is_live_active {
            Some(v) => v,
            None => base.is_live_active,
        },
        breaking_news_banner: match patch.breaking_news_banner {
            Some(v) => Some(v),
            None => base.breaking_news_banner,
        },
    }
}

/// What reading or writing the configuration reports: `Success`, or
/// `Internal` where the store failed.
pub fn site_config_outcome(stored: bool) -> (r: Outcome)
    ensures
        r == if stored {
            Outcome::Success
        } else {
            Outcome::Failed(ApiError::Internal)
        },
{
    if stored {
        Outcome::Success
    } else {
        Outcome::Failed(ApiError::Internal)
    }
}

/// An update that holds no field changes nothing that is stored, and an
/// update applied twice is the update applied once.
pub proof fn lemma_update_config_idempotent(stored: SiteConfig, patch: UpdateSiteConfigSchema)
    requires
        stored.id == SITE_CONFIG_ID,
    ensures
        patch.live_stream_url is None && patch.is_live_active is None
            && patch.breaking_news_banner is None ==> updated_config(Some(stored), patch)
            == stored,
        updated_config(Some(updated_config(Some(stored), patch)), patch) == updated_config(
            Some(stored),
            patch,
        ),
{
}

} // verus!
