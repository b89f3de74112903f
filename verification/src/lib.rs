//! Verified state and decision logic of the online wallpaper page of a
//! desktop wallpaper manager: the Wallhaven filter model, the persisted
//! filter configuration, search parameters, the paged wallpaper list, the
//! preview modal and the download/set-wallpaper decisions.

pub mod settings;
pub mod text;
pub mod mask;
pub mod filters;
pub mod tasks;
pub mod state;
pub mod paging;
pub mod modal;
pub mod thumbs;
pub mod files;
pub mod favorites;
pub mod view_model;
pub mod laws;
pub mod wallhaven;
