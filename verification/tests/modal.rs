use wallwarp_online::filters::WallhavenConfig;
use wallwarp_online::paging::NetworkSettings;
use wallwarp_online::state::{OnlineState, OnlineWallpaper};
use wallwarp_online::tasks::OnlineTask;

type State = OnlineState<Vec<u8>, u32, u32>;
type Task = OnlineTask<u32, u32>;

fn config() -> WallhavenConfig {
    WallhavenConfig {
        category: String::new(),
        purity: String::new(),
        sorting: String::new(),
        color: String::new(),
        top_range: String::new(),
        resolution_mode: String::new(),
        atleast_resolution: String::new(),
        resolutions: String::new(),
        ratios: String::new(),
        api_key: String::new(),
    }
}

fn net(enabled: bool) -> NetworkSettings {
    NetworkSettings {
        proxy: "socks5://127.0.0.1:1080".to_string(),
        proxy_enabled: enabled,
        resolved_proxy: None,
        cache_path: "/cache".to_string(),
    }
}

fn wp(id: &str, size: u64) -> OnlineWallpaper<Vec<u8>> {
    OnlineWallpaper {
        id: id.to_string(),
        url: format!("https://wallhaven.cc/w/{id}"),
        path: format!("https://w.wallhaven.cc/full/ab/wallhaven-{id}.png"),
        thumb_large: format!("https://th.wallhaven.cc/lg/ab/{id}.jpg"),
        file_type: "image/png".to_string(),
        file_size: size,
        width: 2560,
        height: 1440,
        purity: "sfw".to_string(),
        resolution: "2560x1440".to_string(),
        ratio: "1.78".to_string(),
        category: "anime".to_string(),
        favorites: 10,
        image_handle: None,
    }
}

fn loaded(ids: &[&str]) -> State {
    let mut s: State = OnlineState::new(0);
    let data = ids.iter().enumerate().map(|(k, i)| wp(i, 100 + k as u64)).collect();
    s.load_online_wallpapers_success(data, false, 9, 1, &config(), &net(true));
    s
}

#[test]
fn opening_the_preview_streams_the_full_image() {
    let mut s = loaded(&["a", "b", "c"]);
    s.modal_download_progress = Some((1, 2));
    s.modal_downloaded_bytes = 1;
    s.modal_total_bytes = 2;
    let tasks = s.show_online_modal(1, &net(true));
    assert!(s.modal_visible);
    assert_eq!(s.current_image_index, 1);
    assert!(s.modal_image_handle.is_none());
    assert_eq!(s.modal_download_progress, None);
    assert_eq!(s.modal_downloaded_bytes, 0);
    assert_eq!(s.modal_total_bytes, 0);
    assert_eq!(tasks.len(), 1);
    match &tasks[0] {
        Task::LoadModalImage(l) => {
            assert_eq!(l.url, "https://w.wallhaven.cc/full/ab/wallhaven-b.png");
            assert_eq!(l.file_size, 101);
            assert_eq!(l.cache_path, "/cache");
            assert_eq!(l.proxy, Some("socks5://127.0.0.1:1080".to_string()));
        }
        _ => panic!("expected a preview load"),
    }
    assert!(s.modal_download_cancel_token.is_some());
}

#[test]
fn preview_download_skips_a_disabled_proxy() {
    let mut s = loaded(&["a"]);
    let tasks = s.show_online_modal(0, &net(false));
    assert!(matches!(&tasks[0], Task::LoadModalImage(l) if l.proxy.is_none()));
}

#[test]
fn preview_of_a_missing_entry_loads_nothing() {
    let mut s = loaded(&["a"]);
    let tasks = s.show_online_modal(5, &net(true));
    assert!(tasks.is_empty());
    assert!(s.modal_visible);
    assert_eq!(s.current_image_index, 5);
}

#[test]
fn next_image_stops_the_running_download() {
    let mut s = loaded(&["a", "b", "c"]);
    s.show_online_modal(0, &net(true));
    s.modal_download_cancel_token = Some(77);
    let tasks = s.next_online_image(&net(false));
    assert_eq!(s.current_image_index, 1);
    assert_eq!(tasks.len(), 2);
    assert!(matches!(tasks[0], Task::CancelToken(77)));
    match &tasks[1] {
        Task::LoadModalImage(l) => {
            assert_eq!(l.url, "https://w.wallhaven.cc/full/ab/wallhaven-b.png");
            // The configured proxy is used whether or not it is enabled.
            assert_eq!(l.proxy, Some("socks5://127.0.0.1:1080".to_string()));
        }
        _ => panic!("expected a preview load"),
    }
    assert!(s.modal_download_cancel_token.is_some());
}

#[test]
fn next_image_wraps_to_the_first_entry() {
    let mut s = loaded(&["a", "b"]);
    s.show_online_modal(1, &net(true));
    s.modal_download_cancel_token = Some(12);
    let tasks = s.next_online_image(&net(true));
    assert_eq!(s.current_image_index, 0);
    assert_eq!(tasks.len(), 2);
    assert!(matches!(tasks[0], Task::CancelToken(12)));
    assert!(matches!(&tasks[1], Task::LoadModalImage(l)
        if l.url == "https://w.wallhaven.cc/full/ab/wallhaven-a.png"));
}

#[test]
fn browsing_an_empty_list_does_nothing() {
    let mut s: State = OnlineState::new(0);
    assert!(s.next_online_image(&net(true)).is_empty());
    assert!(s.previous_online_image(&net(true)).is_empty());
    assert_eq!(s.current_image_index, 0);
}

#[test]
fn previous_image_loads_in_one_request() {
    let mut s = loaded(&["a", "b"]);
    s.show_online_modal(1, &net(true));
    s.modal_image_handle = Some(vec![1, 2, 3]);
    let tasks = s.previous_online_image(&net(true));
    assert_eq!(s.current_image_index, 0);
    assert!(s.modal_image_handle.is_none());
    assert_eq!(tasks.len(), 1);
    assert!(matches!(&tasks[0], Task::LoadPreviewImage { url, proxy }
        if url == "https://w.wallhaven.cc/full/ab/wallhaven-a.png"
            && proxy.as_deref() == Some("socks5://127.0.0.1:1080")));
    // From the first entry it goes round to the last.
    let tasks = s.previous_online_image(&net(true));
    assert_eq!(s.current_image_index, 1);
    assert_eq!(tasks.len(), 1);
    assert!(matches!(&tasks[0], Task::LoadPreviewImage { url, .. }
        if url == "https://w.wallhaven.cc/full/ab/wallhaven-b.png"));
}

#[test]
fn closing_the_preview_cancels_its_download() {
    let mut s = loaded(&["a"]);
    s.show_online_modal(0, &net(true));
    s.modal_download_cancel_token = Some(5);
    s.modal_image_handle = Some(vec![0]);
    let tasks = s.close_online_modal();
    assert!(!s.modal_visible);
    assert!(s.modal_image_handle.is_none());
    assert!(s.modal_download_cancel_token.is_none());
    assert_eq!(tasks.len(), 1);
    assert!(matches!(tasks[0], Task::CancelToken(5)));
    assert!(s.close_online_modal().is_empty());
}

#[test]
fn finished_download_shows_while_open() {
    let mut s = loaded(&["a"]);
    s.show_online_modal(0, &net(true));
    s.modal_image_progress(50, 100);
    s.modal_image_downloaded(vec![9]);
    assert_eq!(s.modal_image_handle, Some(vec![9]));
    assert!(s.modal_download_cancel_token.is_none());
    assert_eq!(s.modal_download_progress, Some((50, 100)));
    s.close_online_modal();
    s.modal_image_downloaded(vec![8]);
    assert!(s.modal_image_handle.is_none());
}

#[test]
fn stale_cancellation_is_ignored() {
    let mut s = loaded(&["a"]);
    s.show_online_modal(0, &net(true));
    s.modal_image_progress(10, 100);
    s.modal_image_download_failed(true);
    assert!(s.modal_download_cancel_token.is_some());
    assert_eq!(s.modal_download_progress, Some((10, 100)));
    s.modal_image_download_failed(false);
    assert!(s.modal_download_cancel_token.is_none());
    assert_eq!(s.modal_download_progress, None);
    assert_eq!(s.modal_downloaded_bytes, 0);
}

#[test]
fn progress_needs_an_open_preview_and_a_total() {
    let mut s = loaded(&["a"]);
    s.modal_image_progress(10, 100);
    assert_eq!(s.modal_downloaded_bytes, 0);
    s.show_online_modal(0, &net(true));
    s.modal_image_progress(10, 0);
    assert_eq!(s.modal_downloaded_bytes, 10);
    assert_eq!(s.modal_download_progress, None);
    s.modal_image_progress(30, 60);
    assert_eq!(s.modal_downloaded_bytes, 30);
    assert_eq!(s.modal_total_bytes, 60);
    assert_eq!(s.modal_download_progress, Some((30, 60)));
}

#[test]
fn loaded_preview_image_is_kept() {
    let mut s = loaded(&["a"]);
    s.online_modal_image_loaded(vec![4, 5]);
    assert_eq!(s.modal_image_handle, Some(vec![4, 5]));
}
