//! Records exchanged with the Steam store, GGNetwork and the Steam Web API,
//! and the download queue's items.

use vstd::prelude::*;
use crate::text::{parse_u32, parse_uint};

verus! {

broadcast use vstd::string::group_string_axioms;

/// A Steam app (a game).
#[derive(Debug, Clone)]
pub struct SteamApp {
    pub app_id: u32,
    pub name: String,
}

impl SteamApp {
    /// A field-by-field copy.
    pub fn copy(&self) -> (r: SteamApp)
        ensures
            r == *self,
    {
        SteamApp { app_id: self.app_id, name: self.name.clone() }
    }
}

/// A DLC of a game.
#[derive(Debug, Clone)]
pub struct DlcApp {
    pub app_id: u32,
    pub name: String,
}

/// One achievement as the emulator's `achievements.json` lists it.
#[derive(Debug, Clone)]
pub struct Achievement {
    pub name: String,
    pub display_name: String,
    pub description: String,
    pub hidden: String,
    pub icon: String,
    pub icongray: String,
}

/// The store search response (`store.steampowered.com/api/storesearch`).
#[derive(Debug)]
pub struct StoreSearchResponse {
    pub items: Vec<StoreSearchItem>,
}

/// One hit of a store search; `item_type` is the JSON field `type`.
#[derive(Debug)]
pub struct StoreSearchItem {
    pub item_type: String,
    pub id: u32,
    pub name: String,
}

/// The app details envelope (`store.steampowered.com/api/appdetails`).
#[derive(Debug)]
pub struct AppDetailsEnvelope {
    pub success: bool,
    pub data: Option<AppDetailsData>,
}

/// The app details themselves.
#[derive(Debug)]
pub struct AppDetailsData {
    pub name: Option<String>,
    pub dlc: Vec<u32>,
}

/// GGNetwork's answer for one workshop item.
#[derive(Debug, Clone)]
pub struct GgItemResponse {
    pub result: u32,
    pub id: String,
    pub game: String,
    pub name: String,
    pub size: Option<String>,
    pub download: Option<String>,
}

impl GgItemResponse {
    /// GGNetwork has the item cached (`result == 1`).
    pub fn is_available(&self) -> (r: bool)
        ensures
            r == (self.result == 1),
    {
        self.result == 1
    }

    /// The game's app id, when the `game` field is a `u32`.
    pub fn game_app_id(&self) -> (r: Option<u32>)
        ensures
            r matches Some(n) ==> parse_uint(self.game@, u32::MAX as nat) == Some(n as nat),
            r is None ==> parse_uint(self.game@, u32::MAX as nat) is None,
    {
        parse_u32(self.game.as_str())
    }
}

/// What `GetPublishedFileDetails` says of an item.
#[derive(Debug, Clone)]
pub struct PublishedFileMeta {
    pub title: String,
    pub app_id: u32,
}

/// One row of `GetPublishedFileDetails`.
#[derive(Debug, Clone)]
pub struct PublishedFileDetailsItem {
    pub publishedfileid: String,
    pub result: u32,
    pub title: String,
    pub consumer_app_id: u32,
    pub creator_app_id: u32,
}

/// Where a queued download stands.
#[derive(Debug, Clone)]
pub enum QueueStatus {
    Queued,
    Downloading,
    Done,
    Failed(String),
}

/// One workshop item in the download queue.
#[derive(Debug, Clone)]
pub struct QueueItem {
    pub workshop_id: u64,
    pub mod_name: String,
    pub game_app_id: u32,
    pub game_name: String,
    pub status: QueueStatus,
    /// Filled in after a successful GGNetwork lookup.
    pub gg_item: Option<GgItemResponse>,
    /// `None` while resolving; `Some(false)` when GGNetwork has no copy.
    pub gg_available: Option<bool>,
    /// Where the finished download went.
    pub download_path: Option<String>,
}

} // verus!
