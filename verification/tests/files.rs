use wallwarp_online::filters::WallhavenConfig;
use wallwarp_online::files::{
    DownloadStatus, DownloadTaskInfo, OnlineFileHit, file_extension, generate_file_name,
    has_active_download_for, online_file_name, resolve_online_file,
};
use wallwarp_online::paging::NetworkSettings;
use wallwarp_online::state::{OnlineState, OnlineWallpaper};
use wallwarp_online::tasks::{NotificationText, NotificationType, OnlineTask};

type State = OnlineState<Vec<u8>, u32, u32>;
type Task = OnlineTask<u32, u32>;

fn config() -> WallhavenConfig {
    WallhavenConfig {
        category: String::new(),
        purity: String::new(),
        sorting: String::new(),
        color: String::new(),
        top_range: String::new(),
        resolution_mode: String::new(),
        atleast_resolution: String::new(),
        resolutions: String::new(),
        ratios: String::new(),
        api_key: String::new(),
    }
}

fn net() -> NetworkSettings {
    NetworkSettings {
        proxy: String::new(),
        proxy_enabled: false,
        resolved_proxy: None,
        cache_path: "/cache".to_string(),
    }
}

fn wp(id: &str) -> OnlineWallpaper<Vec<u8>> {
    OnlineWallpaper {
        id: id.to_string(),
        url: format!("https://wallhaven.cc/w/{id}"),
        path: format!("https://w.wallhaven.cc/full/ab/wallhaven-{id}.png"),
        thumb_large: format!("https://th.wallhaven.cc/lg/ab/{id}.jpg"),
        file_type: "image/png".to_string(),
        file_size: 4096,
        width: 3840,
        height: 2160,
        purity: "sfw".to_string(),
        resolution: "3840x2160".to_string(),
        ratio: "1.78".to_string(),
        category: "general".to_string(),
        favorites: 1,
        image_handle: None,
    }
}

fn loaded(ids: &[&str]) -> State {
    let mut s: State = OnlineState::new(0);
    let data = ids.iter().map(|i| wp(i)).collect();
    s.load_online_wallpapers_success(data, false, 2, 1, &config(), &net());
    s
}

fn task_info(url: &str, status: DownloadStatus) -> DownloadTaskInfo {
    DownloadTaskInfo { url: url.to_string(), status }
}

fn key_with_detail(t: &Task) -> Option<(&'static str, String, NotificationType)> {
    match t {
        Task::Notify(n) => match &n.text {
            NotificationText::KeyWithDetail(k, d) => Some((*k, d.clone(), n.kind)),
            _ => None,
        },
        _ => None,
    }
}

fn key_only(t: &Task) -> Option<(&'static str, NotificationType)> {
    match t {
        Task::Notify(n) => match &n.text {
            NotificationText::Key(k) => Some((*k, n.kind)),
            _ => None,
        },
        _ => None,
    }
}

#[test]
fn file_names_come_from_id_and_mime_type() {
    assert_eq!(file_extension("image/jpeg"), "jpeg");
    assert_eq!(file_extension("image/png"), "png");
    assert_eq!(file_extension("png"), "png");
    assert_eq!(file_extension("a/b/c"), "c");
    assert_eq!(file_extension("image/"), "");
    assert_eq!(generate_file_name("x8ye1o", "jpg"), "wallhaven-x8ye1o.jpg");
    assert_eq!(online_file_name(&wp("m3d1k9")), "wallhaven-m3d1k9.png");
}

#[test]
fn library_file_of_the_right_size_wins() {
    assert!(matches!(
        resolve_online_file(10, Some(10), Some(("/cache/x".to_string(), 10))),
        Some(OnlineFileHit::InData)
    ));
    assert!(matches!(
        resolve_online_file(10, Some(9), Some(("/cache/x".to_string(), 10))),
        Some(OnlineFileHit::InCache(p)) if p == "/cache/x"
    ));
    assert!(resolve_online_file(10, Some(9), Some(("/cache/x".to_string(), 5))).is_none());
    assert!(resolve_online_file(10, None, None).is_none());
    assert!(matches!(
        resolve_online_file(0, None, Some(("/cache/y".to_string(), 0))),
        Some(OnlineFileHit::InCache(_))
    ));
}

#[test]
fn active_downloads_are_found_by_url() {
    let queue = vec![
        task_info("https://a", DownloadStatus::Completed),
        task_info("https://b", DownloadStatus::Failed("disk full".to_string())),
        task_info("https://c", DownloadStatus::Paused),
        task_info("https://d", DownloadStatus::Cancelled),
        task_info("https://e", DownloadStatus::Pending),
        task_info("https://f", DownloadStatus::Downloading),
    ];
    assert!(!has_active_download_for(&queue, "https://a"));
    assert!(!has_active_download_for(&queue, "https://b"));
    assert!(has_active_download_for(&queue, "https://c"));
    assert!(!has_active_download_for(&queue, "https://d"));
    assert!(has_active_download_for(&queue, "https://e"));
    assert!(has_active_download_for(&queue, "https://f"));
    assert!(!has_active_download_for(&queue, "https://g"));
    assert!(!has_active_download_for(&Vec::new(), "https://a"));
}

#[test]
fn image_link_goes_to_the_clipboard() {
    let s = loaded(&["a"]);
    let tasks = s.copy_online_image_link(0);
    assert_eq!(tasks.len(), 1);
    assert!(matches!(&tasks[0], Task::CopyToClipboard { text, success_key, failure_key }
        if text == "https://w.wallhaven.cc/full/ab/wallhaven-a.png"
            && *success_key == "download-tasks.copy-link-success"
            && *failure_key == "download-tasks.copy-link-failed"));
    assert!(s.copy_online_image_link(1).is_empty());
}

#[test]
fn download_of_a_file_in_the_library_is_reported() {
    let s = loaded(&["a"]);
    let tasks = s.download_online_wallpaper(0, Some(OnlineFileHit::InData), &Vec::new());
    assert_eq!(tasks.len(), 1);
    assert_eq!(
        key_with_detail(&tasks[0]),
        Some(("download-tasks.file-already-exists", "wallhaven-a.png".to_string(), NotificationType::Info))
    );
}

#[test]
fn download_copies_a_cached_file() {
    let s = loaded(&["a"]);
    let tasks = s.download_online_wallpaper(0, Some(OnlineFileHit::InCache("/cache/a".to_string())), &Vec::new());
    assert_eq!(tasks.len(), 2);
    assert!(matches!(tasks[0], Task::InvalidateLocalList));
    match &tasks[1] {
        Task::CopyFromCache { from, file_name, success, failure_key } => {
            assert_eq!(from, "/cache/a");
            assert_eq!(file_name, "wallhaven-a.png");
            assert_eq!(*failure_key, "download-tasks.copy-failed");
            assert_eq!(success.kind, NotificationType::Success);
            assert!(matches!(&success.text, NotificationText::KeyWithDetail(k, d)
                if *k == "download-tasks.copied-from-cache" && d == "wallhaven-a.png"));
        }
        _ => panic!("expected a copy"),
    }
}

#[test]
fn download_is_queued_once() {
    let s = loaded(&["a"]);
    let tasks = s.download_online_wallpaper(0, None, &Vec::new());
    assert_eq!(tasks.len(), 2);
    assert!(matches!(&tasks[0], Task::StartDownload { url, id, file_type }
        if url == "https://w.wallhaven.cc/full/ab/wallhaven-a.png" && id == "a" && file_type == "image/png"));
    assert_eq!(key_only(&tasks[1]), Some(("download-tasks.added-to-download-queue", NotificationType::Info)));
    let queue = vec![task_info("https://w.wallhaven.cc/full/ab/wallhaven-a.png", DownloadStatus::Downloading)];
    let tasks = s.download_online_wallpaper(0, None, &queue);
    assert_eq!(tasks.len(), 1);
    assert_eq!(key_only(&tasks[0]), Some(("download-tasks.task-already-in-queue", NotificationType::Info)));
    assert!(s.download_online_wallpaper(3, None, &queue).is_empty());
}

#[test]
fn saving_from_the_preview_needs_a_file() {
    let s = loaded(&["a"]);
    let tasks = s.download_from_cache(0, None);
    assert_eq!(key_only(&tasks[0]), Some(("download-tasks.cache-file-not-found", NotificationType::Error)));
    let tasks = s.download_from_cache(0, Some(OnlineFileHit::InData));
    assert_eq!(
        key_with_detail(&tasks[0]),
        Some(("download-tasks.file-already-exists", "wallhaven-a.png".to_string(), NotificationType::Info))
    );
    let tasks = s.download_from_cache(0, Some(OnlineFileHit::InCache("/c/a".to_string())));
    assert_eq!(tasks.len(), 2);
    assert!(matches!(tasks[0], Task::InvalidateLocalList));
    assert!(matches!(&tasks[1], Task::CopyFromCache { from, .. } if from == "/c/a"));
    assert!(s.download_from_cache(1, None).is_empty());
}

#[test]
fn wallpaper_from_the_preview() {
    let s = loaded(&["a"]);
    let tasks = s.set_wallpaper_from_cache(0, Some(OnlineFileHit::InData));
    assert!(matches!(&tasks[0], Task::ApplyWallpaper { file_name } if file_name == "wallhaven-a.png"));
    let tasks = s.set_wallpaper_from_cache(0, Some(OnlineFileHit::InCache("/c/a".to_string())));
    assert!(matches!(&tasks[0], Task::ApplyWallpaperAfterCopy { from, file_name }
        if from == "/c/a" && file_name == "wallhaven-a.png"));
    let tasks = s.set_wallpaper_from_cache(0, None);
    assert_eq!(key_only(&tasks[0]), Some(("download-tasks.cache-file-not-found", NotificationType::Error)));
}

#[test]
fn wallpaper_waits_for_its_download() {
    let mut s = loaded(&["a"]);
    let tasks = s.set_online_wallpaper(0, None, &Vec::new());
    assert_eq!(s.pending_set_wallpaper_filename, Some("wallhaven-a.png".to_string()));
    assert_eq!(tasks.len(), 2);
    assert!(matches!(&tasks[0], Task::StartDownload { id, .. } if id == "a"));
    assert_eq!(key_only(&tasks[1]), Some(("download-tasks.downloading-for-wallpaper", NotificationType::Info)));
    let queue = vec![task_info("https://w.wallhaven.cc/full/ab/wallhaven-a.png", DownloadStatus::Pending)];
    let tasks = s.set_online_wallpaper(0, None, &queue);
    assert_eq!(tasks.len(), 1);
}

#[test]
fn wallpaper_from_library_or_cache_is_immediate() {
    let mut s = loaded(&["a"]);
    let tasks = s.set_online_wallpaper(0, Some(OnlineFileHit::InData), &Vec::new());
    assert!(matches!(&tasks[0], Task::ApplyWallpaper { file_name } if file_name == "wallhaven-a.png"));
    assert_eq!(s.pending_set_wallpaper_filename, None);
    let tasks = s.set_online_wallpaper(0, Some(OnlineFileHit::InCache("/c/a".to_string())), &Vec::new());
    assert!(matches!(&tasks[0], Task::ApplyWallpaperAfterCopy { .. }));
    assert!(s.set_online_wallpaper(4, None, &Vec::new()).is_empty());
    assert_eq!(s.pending_set_wallpaper_filename, None);
}
