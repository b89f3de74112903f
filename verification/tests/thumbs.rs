use wallwarp_online::filters::WallhavenConfig;
use wallwarp_online::paging::NetworkSettings;
use wallwarp_online::state::{OnlineState, OnlineWallpaper, WallpaperLoadStatus};
use wallwarp_online::tasks::{OnlineTask, ThumbFailure};

type State = OnlineState<Vec<u8>, u32, u32>;
type Task = OnlineTask<u32, u32>;

fn config() -> WallhavenConfig {
    WallhavenConfig {
        category: String::new(),
        purity: String::new(),
        sorting: String::new(),
        color: String::new(),
        top_range: String::new(),
        resolution_mode: String::new(),
        atleast_resolution: String::new(),
        resolutions: String::new(),
        ratios: String::new(),
        api_key: String::new(),
    }
}

fn net() -> NetworkSettings {
    NetworkSettings {
        proxy: String::new(),
        proxy_enabled: false,
        resolved_proxy: Some("http://sys-proxy:3128".to_string()),
        cache_path: "/var/cache/wallwarp".to_string(),
    }
}

fn wp(id: &str) -> OnlineWallpaper<Vec<u8>> {
    OnlineWallpaper {
        id: id.to_string(),
        url: format!("https://wallhaven.cc/w/{id}"),
        path: format!("https://w.wallhaven.cc/full/ab/wallhaven-{id}.jpg"),
        thumb_large: format!("https://th.wallhaven.cc/lg/ab/{id}.jpg"),
        file_type: "image/jpeg".to_string(),
        file_size: 2048,
        width: 1920,
        height: 1200,
        purity: "sketchy".to_string(),
        resolution: "1920x1200".to_string(),
        ratio: "1.6".to_string(),
        category: "people".to_string(),
        favorites: 0,
        image_handle: None,
    }
}

fn loaded(ids: &[&str]) -> State {
    let mut s: State = OnlineState::new(0);
    let data = ids.iter().map(|i| wp(i)).collect();
    let tasks = s.load_online_wallpapers_success(data, false, 9, 1, &config(), &net());
    // Without a configured proxy the first loads go direct.
    for t in &tasks {
        assert!(matches!(t, Task::LoadThumb(l) if l.proxy.is_none()));
    }
    s
}

#[test]
fn thumbnail_arrival_marks_the_entry_loaded() {
    let mut s = loaded(&["a", "b"]);
    s.online_thumb_loaded(1, vec![7]);
    assert_eq!(s.wallpapers[1], WallpaperLoadStatus::Loaded);
    assert_eq!(s.wallpapers_data[1].image_handle, Some(vec![7]));
    assert_eq!(s.wallpapers[0], WallpaperLoadStatus::Loading);
    s.online_thumb_loaded(9, vec![8]);
    assert_eq!(s.wallpapers.len(), 2);
}

#[test]
fn thumbnail_failure_marks_the_entry_failed() {
    let mut s = loaded(&["a", "b"]);
    s.online_thumb_load_failed(0);
    assert_eq!(s.wallpapers[0], WallpaperLoadStatus::Failed);
    assert_eq!(s.wallpapers[1], WallpaperLoadStatus::Loading);
    s.online_thumb_load_failed(2);
    assert_eq!(s.wallpapers.len(), 2);
}

#[test]
fn missing_cached_thumbnails_are_reloaded() {
    let mut s = loaded(&["a", "b", "c"]);
    s.online_thumb_loaded(0, vec![1]);
    s.online_thumb_loaded(1, vec![2]);
    s.online_thumb_load_failed(2);
    let before = s.thumb_load_cancel_tokens.len();
    let tasks = s.online_check_thumbs(false, &vec![false, true, true], &net());
    assert_eq!(tasks.len(), 1);
    match &tasks[0] {
        Task::LoadThumb(l) => {
            assert_eq!(l.index, 1);
            assert_eq!(l.url, "https://th.wallhaven.cc/lg/ab/b.jpg");
            assert_eq!(l.file_size, 2048);
            assert_eq!(l.cache_path, "/var/cache/wallwarp");
            assert_eq!(l.proxy, Some("http://sys-proxy:3128".to_string()));
            assert_eq!(l.failure, ThumbFailure::Failed);
        }
        _ => panic!("expected a thumbnail load"),
    }
    assert_eq!(s.wallpapers[0], WallpaperLoadStatus::Loaded);
    assert_eq!(s.wallpapers[1], WallpaperLoadStatus::Loading);
    assert_eq!(s.wallpapers[2], WallpaperLoadStatus::Failed);
    assert!(s.wallpapers_data[1].image_handle.is_none());
    assert_eq!(s.wallpapers_data[0].image_handle, Some(vec![1]));
    assert_eq!(s.thumb_load_cancel_tokens.len(), before + 1);
}

#[test]
fn stale_thumbnails_are_all_reloaded() {
    let mut s = loaded(&["a", "b", "c"]);
    s.online_thumb_loaded(0, vec![1]);
    s.online_thumb_loaded(2, vec![3]);
    s.thumbs_stale = true;
    let tasks = s.online_check_thumbs(false, &Vec::new(), &net());
    assert!(!s.thumbs_stale);
    assert_eq!(tasks.len(), 2);
    assert!(matches!(&tasks[0], Task::LoadThumb(l) if l.index == 0));
    assert!(matches!(&tasks[1], Task::LoadThumb(l) if l.index == 2));
    assert_eq!(s.wallpapers[0], WallpaperLoadStatus::Loading);
    assert_eq!(s.wallpapers[1], WallpaperLoadStatus::Loading);
    assert_eq!(s.wallpapers[2], WallpaperLoadStatus::Loading);
}

#[test]
fn preview_with_a_missing_image_is_closed() {
    let mut s = loaded(&["a"]);
    s.show_online_modal(0, &net());
    s.modal_download_cancel_token = Some(3);
    s.modal_image_handle = Some(vec![1]);
    let tasks = s.online_check_thumbs(true, &vec![false], &net());
    assert_eq!(tasks.len(), 1);
    assert!(matches!(tasks[0], Task::CancelToken(3)));
    assert!(!s.modal_visible);
    assert!(s.modal_image_handle.is_none());
    assert!(s.modal_download_cancel_token.is_none());
}

#[test]
fn preview_still_loading_stays_open() {
    let mut s = loaded(&["a"]);
    s.show_online_modal(0, &net());
    let tasks = s.online_check_thumbs(true, &vec![false], &net());
    assert!(tasks.is_empty());
    assert!(s.modal_visible);
    assert!(s.modal_download_cancel_token.is_some());
}
