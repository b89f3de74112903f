//! What the online page asks its runtime to do: the requests, loads,
//! notifications and other effects that the state transitions return.

use vstd::prelude::*;
use crate::wallhaven::{ColorOption, Sorting, TimeRange};

verus! {

/// Kind of a notification bubble.
#[derive(Debug, Clone, Copy, PartialEq, Eq, Structural)]
pub enum NotificationType {
    Info,
    Success,
    Error,
}

/// Text of a notification: a translation key, a translation key followed by
/// `: ` and a detail, or a text shown as it is.
pub enum NotificationText {
    Key(&'static str),
    KeyWithDetail(&'static str, String),
    Raw(String),
}

pub struct Notification {
    pub text: NotificationText,
    pub kind: NotificationType,
}

/// Parameters of a Wallhaven search request.
pub struct SearchParams<C> {
    pub categories: u32,
    pub sorting: Sorting,
    pub purities: u32,
    pub color: ColorOption,
    pub query: String,
    pub time_range: TimeRange,
    /// The `atleast` resolution, in the minimum-resolution mode.
    pub atleast: Option<String>,
    /// Comma-separated exact resolutions, in the exact mode.
    pub resolutions: Option<String>,
    /// Comma-separated ratios and group options.
    pub ratios: Option<String>,
    pub page: usize,
    pub api_key: Option<String>,
    pub proxy: Option<String>,
    pub proxy_enabled: bool,
    /// Whether the request may fall back to the proxy of the environment.
    pub use_env_fallback: bool,
    /// The request context that cancels the request.
    pub context: C,
}

/// What a failed thumbnail load is reported as.
#[derive(Debug, Clone, Copy, PartialEq, Eq, Structural)]
pub enum ThumbFailure {
    /// As a loaded thumbnail with an empty image.
    EmptyImage,
    /// As a failed thumbnail.
    Failed,
}

/// A thumbnail load of the list entry `index`, cache first.
pub struct ThumbLoad<T> {
    pub index: usize,
    pub url: String,
    pub file_size: u64,
    pub cache_path: String,
    pub proxy: Option<String>,
    pub token: T,
    pub failure: ThumbFailure,
}

/// A streamed load of the full image shown in the preview.
pub struct ModalImageLoad<T> {
    pub url: String,
    pub file_size: u64,
    pub cache_path: String,
    pub proxy: Option<String>,
    pub token: T,
}

/// A favorite as the favorites store keeps it.
pub struct FavoriteRecord {
    pub wallhaven_id: String,
    pub kind: &'static str,
    pub title: String,
    pub url: String,
    pub path: String,
    pub thumb_url: String,
    pub file_type: String,
    pub file_size: i64,
    pub width: i64,
    pub height: i64,
    pub purity: String,
    pub resolution: String,
    pub ratio: String,
    pub category: String,
    pub group_id: Option<i64>,
    pub created_at: i64,
}

/// An effect for the runtime to carry out.
pub enum OnlineTask<T, C> {
    /// Write the configuration to disk.
    SaveConfig,
    /// Signal cancellation through a cancel token.
    CancelToken(T),
    /// Cancel the requests made under a request context.
    CancelContext(C),
    /// Search from the first page; the outcome comes back to
    /// `load_online_wallpapers_success` or `load_online_wallpapers_failed`.
    LoadWallpapers(SearchParams<C>),
    /// Load the page `page`; the outcome comes back to
    /// `load_online_page_success` or `load_online_page_failed`.
    LoadPage(SearchParams<C>),
    /// Load a thumbnail; the outcome comes back to `online_thumb_loaded`
    /// or, as `failure` says, `online_thumb_load_failed`.
    LoadThumb(ThumbLoad<T>),
    /// Stream the preview image; the outcome comes back to
    /// `modal_image_downloaded` or `modal_image_download_failed`.
    LoadModalImage(ModalImageLoad<T>),
    /// Load the preview image in one request; the outcome (an empty image on
    /// failure) comes back to `online_modal_image_loaded`.
    LoadPreviewImage { url: String, proxy: Option<String> },
    /// Scroll the wallpaper list to its top.
    ScrollToTop,
    /// Cancel the waiting downloads and clean up their partial files.
    CancelPendingDownloads,
    /// Put a text on the clipboard and report success or failure with the keys.
    CopyToClipboard { text: String, success_key: &'static str, failure_key: &'static str },
    /// Show a notification.
    Notify(Notification),
    /// Copy a cached file into the wallpaper library under `file_name`; show
    /// `success` when done, or the failure key with the error.
    CopyFromCache {
        from: String,
        file_name: String,
        success: Notification,
        failure_key: &'static str,
    },
    /// Set the library file `file_name` as wallpaper.
    ApplyWallpaper { file_name: String },
    /// Copy a cached file into the library as `file_name`, then set it as wallpaper.
    ApplyWallpaperAfterCopy { from: String, file_name: String },
    /// Queue a download.
    StartDownload { url: String, id: String, file_type: String },
    /// The local library changed: its list must be reloaded.
    InvalidateLocalList,
    /// Remove a favorite; the outcome comes back to `online_favorite_toggled`.
    RemoveFavorite { id: String },
    /// Store a favorite; the outcome comes back to `online_favorite_toggled`.
    UpsertFavorite(FavoriteRecord),
    /// The favorites changed: their page must be reloaded.
    InvalidateFavorites,
}

} // verus!
