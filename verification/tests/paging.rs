use wallwarp_online::filters::{ResolutionMode, WallhavenConfig};
use wallwarp_online::paging::NetworkSettings;
use wallwarp_online::state::{OnlineState, OnlineWallpaper, WallpaperLoadStatus};
use wallwarp_online::tasks::{NotificationText, NotificationType, OnlineTask, ThumbFailure};
use wallwarp_online::wallhaven::{AspectRatio, ColorOption, Resolution, Sorting, TimeRange};

type State = OnlineState<Vec<u8>, u32, u32>;
type Task = OnlineTask<u32, u32>;

fn config(api_key: &str) -> WallhavenConfig {
    WallhavenConfig {
        category: String::new(),
        purity: String::new(),
        sorting: String::new(),
        color: String::new(),
        top_range: String::new(),
        resolution_mode: String::new(),
        atleast_resolution: String::new(),
        resolutions: String::new(),
        ratios: String::new(),
        api_key: api_key.to_string(),
    }
}

fn net() -> NetworkSettings {
    NetworkSettings {
        proxy: "http://127.0.0.1:7890".to_string(),
        proxy_enabled: true,
        resolved_proxy: Some("http://10.0.0.1:8080".to_string()),
        cache_path: "/cache".to_string(),
    }
}

fn wp(id: &str) -> OnlineWallpaper<Vec<u8>> {
    OnlineWallpaper {
        id: id.to_string(),
        url: format!("https://wallhaven.cc/w/{id}"),
        path: format!("https://w.wallhaven.cc/full/ab/wallhaven-{id}.jpg"),
        thumb_large: format!("https://th.wallhaven.cc/lg/ab/{id}.jpg"),
        file_type: "image/jpeg".to_string(),
        file_size: 1000,
        width: 1920,
        height: 1080,
        purity: "sfw".to_string(),
        resolution: "1920x1080".to_string(),
        ratio: "1.78".to_string(),
        category: "general".to_string(),
        favorites: 3,
        image_handle: None,
    }
}

fn page(ids: &[&str]) -> Vec<OnlineWallpaper<Vec<u8>>> {
    ids.iter().map(|i| wp(i)).collect()
}

fn page_infos(s: &State) -> Vec<(usize, usize)> {
    s.page_info.iter().map(|p| (p.end_index, p.page_num)).collect()
}

#[test]
fn search_params_follow_the_filters() {
    let mut s: State = OnlineState::new(0);
    s.categories = 6;
    s.purities = 3;
    s.sorting = Sorting::TopList;
    s.color = ColorOption::Color663399;
    s.time_range = TimeRange::Week;
    s.search_text = "mountain".to_string();
    s.current_page = 4;
    s.resolution_mode = ResolutionMode::Exactly;
    s.selected_resolutions = vec![Resolution::R1920x1080, Resolution::R2560x1440U];
    s.atleast_resolution = Some(Resolution::R3840x2160);
    s.ratio_landscape_selected = true;
    s.ratio_portrait_selected = true;
    s.selected_ratios = vec![AspectRatio::R1x1];
    let p = s.build_online_search_params(42, &config("abc"), &net());
    assert_eq!(p.categories, 6);
    assert_eq!(p.purities, 3);
    assert_eq!(p.sorting, Sorting::TopList);
    assert_eq!(p.color, ColorOption::Color663399);
    assert_eq!(p.time_range, TimeRange::Week);
    assert_eq!(p.query, "mountain");
    assert_eq!(p.page, 4);
    assert_eq!(p.atleast, None);
    assert_eq!(p.resolutions, Some("1920x1080,2560x1440".to_string()));
    assert_eq!(p.ratios, Some("landscape,portrait,1x1".to_string()));
    assert_eq!(p.api_key, Some("abc".to_string()));
    assert_eq!(p.proxy, Some("http://10.0.0.1:8080".to_string()));
    assert!(p.proxy_enabled);
    assert!(p.use_env_fallback);
    assert_eq!(p.context, 42);
}

#[test]
fn search_params_in_minimum_mode() {
    let mut s: State = OnlineState::new(0);
    s.resolution_mode = ResolutionMode::AtLeast;
    s.atleast_resolution = Some(Resolution::R2560x1440);
    s.selected_resolutions = vec![Resolution::R1920x1080];
    let p = s.build_online_search_params(0, &config(""), &net());
    assert_eq!(p.atleast, Some("2560x1440".to_string()));
    assert_eq!(p.resolutions, None);
    assert_eq!(p.ratios, None);
    assert_eq!(p.api_key, None);
}

#[test]
fn search_params_without_restrictions() {
    let mut s: State = OnlineState::new(0);
    s.resolution_mode = ResolutionMode::Exactly;
    let p = s.build_online_search_params(0, &config(""), &net());
    assert_eq!(p.atleast, None);
    assert_eq!(p.resolutions, None);
    assert_eq!(p.ratios, None);
    s.resolution_mode = ResolutionMode::All;
    s.selected_resolutions = vec![Resolution::R1920x1080];
    s.atleast_resolution = Some(Resolution::R1920x1080);
    let p = s.build_online_search_params(0, &config(""), &net());
    assert_eq!(p.atleast, None);
    assert_eq!(p.resolutions, None);
}

#[test]
fn starting_a_search_cancels_and_clears() {
    let mut s: State = OnlineState::new(5);
    s.load_online_wallpapers_success(page(&["a", "b"]), false, 3, 1, &config(""), &net());
    s.thumb_load_cancel_tokens = vec![1, 2];
    let tasks = s.load_online_wallpapers(&config(""), &net());
    assert_eq!(tasks.len(), 4);
    assert!(matches!(tasks[0], Task::CancelToken(1)));
    assert!(matches!(tasks[1], Task::CancelToken(2)));
    assert!(matches!(tasks[2], Task::CancelContext(5)));
    match &tasks[3] {
        Task::LoadWallpapers(p) => {
            assert_eq!(p.page, 1);
            assert_eq!(p.context, s.request_context);
        }
        _ => panic!("expected a search request"),
    }
    assert!(s.wallpapers.is_empty());
    assert!(s.wallpapers_data.is_empty());
    assert!(s.page_info.is_empty());
    assert!(s.thumb_load_cancel_tokens.is_empty());
    assert!(s.loading_page);
    assert!(!s.has_loaded);
}

#[test]
fn first_page_fills_the_list_and_loads_thumbnails() {
    let mut s: State = OnlineState::new(0);
    s.loading_page = true;
    let tasks = s.load_online_wallpapers_success(page(&["a", "b", "c"]), false, 5, 1, &config(""), &net());
    assert_eq!(s.wallpapers_data.len(), 3);
    assert_eq!(s.wallpapers, vec![WallpaperLoadStatus::Loading; 3]);
    assert_eq!(page_infos(&s), vec![(3, 1)]);
    assert_eq!(s.total_count, 3);
    assert_eq!(s.total_pages, 5);
    assert!(!s.last_page);
    assert!(s.has_loaded);
    assert!(!s.loading_page);
    assert_eq!(tasks.len(), 3);
    assert_eq!(s.thumb_load_cancel_tokens.len(), 3);
    for (k, t) in tasks.iter().enumerate() {
        match t {
            Task::LoadThumb(l) => {
                assert_eq!(l.index, k);
                assert_eq!(l.url, s.wallpapers_data[k].thumb_large);
                assert_eq!(l.file_size, 1000);
                assert_eq!(l.cache_path, "/cache");
                assert_eq!(l.proxy, Some("http://127.0.0.1:7890".to_string()));
                assert_eq!(l.failure, ThumbFailure::EmptyImage);
            }
            _ => panic!("expected a thumbnail load"),
        }
    }
}

#[test]
fn later_pages_are_appended() {
    let mut s: State = OnlineState::new(0);
    s.load_online_wallpapers_success(page(&["a", "b", "c"]), false, 5, 1, &config(""), &net());
    let tasks = s.online_scroll_to_bottom(&config(""), &net());
    assert_eq!(s.current_page, 2);
    assert!(s.loading_page);
    assert_eq!(tasks.len(), 2);
    assert!(matches!(tasks[0], Task::CancelContext(0)));
    assert!(matches!(&tasks[1], Task::LoadPage(p) if p.page == 2));
    let tasks = s.load_online_page_success(page(&["d", "e"]), true, 2, 2, &config(""), &net());
    assert_eq!(page_infos(&s), vec![(3, 1), (5, 2)]);
    assert_eq!(s.wallpapers_data.len(), 5);
    assert_eq!(s.wallpapers_data[4].id, "e");
    assert!(s.last_page);
    assert!(!s.loading_page);
    assert_eq!(tasks.len(), 2);
    assert!(matches!(&tasks[0], Task::LoadThumb(l) if l.index == 3));
    assert!(matches!(&tasks[1], Task::LoadThumb(l) if l.index == 4));
    assert_eq!(s.thumb_load_cancel_tokens.len(), 5);
}

#[test]
fn empty_page_before_the_end_is_skipped() {
    let mut s: State = OnlineState::new(0);
    s.load_online_wallpapers_success(page(&["a"]), false, 4, 1, &config(""), &net());
    let tasks = s.load_online_page_success(Vec::new(), false, 4, 2, &config(""), &net());
    assert_eq!(s.current_page, 3);
    assert!(s.loading_page);
    assert_eq!(tasks.len(), 2);
    assert!(matches!(&tasks[1], Task::LoadPage(p) if p.page == 3));
    assert_eq!(page_infos(&s), vec![(1, 1)]);
}

#[test]
fn empty_single_page_is_not_the_last() {
    let mut s: State = OnlineState::new(0);
    s.loading_page = true;
    let tasks = s.load_online_wallpapers_success(Vec::new(), true, 1, 1, &config(""), &net());
    assert!(tasks.is_empty());
    assert!(!s.last_page);
    assert!(s.has_loaded);
    assert!(!s.loading_page);
    assert!(s.wallpapers.is_empty());
    assert!(s.page_info.is_empty());
}

#[test]
fn no_request_past_the_last_page() {
    let mut s: State = OnlineState::new(0);
    s.load_online_wallpapers_success(page(&["a"]), true, 1, 1, &config(""), &net());
    assert!(s.last_page);
    let tasks = s.online_scroll_to_bottom(&config(""), &net());
    assert!(tasks.is_empty());
    assert_eq!(s.current_page, 1);
    let tasks = s.online_check_and_load_next_page(true, &config(""), &net());
    assert!(tasks.is_empty());
}

#[test]
fn no_second_request_while_one_is_in_flight() {
    let mut s: State = OnlineState::new(0);
    s.load_online_wallpapers_success(page(&["a"]), false, 3, 1, &config(""), &net());
    s.loading_page = true;
    assert!(s.online_scroll_to_bottom(&config(""), &net()).is_empty());
    assert_eq!(s.current_page, 1);
}

#[test]
fn short_content_asks_for_more() {
    let mut s: State = OnlineState::new(0);
    assert!(s.online_check_and_load_next_page(true, &config(""), &net()).is_empty());
    s.load_online_wallpapers_success(page(&["a"]), false, 3, 1, &config(""), &net());
    assert!(s.online_check_and_load_next_page(false, &config(""), &net()).is_empty());
    assert_eq!(s.current_page, 1);
    let tasks = s.online_check_and_load_next_page(true, &config(""), &net());
    assert_eq!(tasks.len(), 2);
    assert_eq!(s.current_page, 2);
}

#[test]
fn search_starts_over() {
    let mut s: State = OnlineState::new(0);
    s.load_online_wallpapers_success(page(&["a", "b"]), false, 3, 1, &config(""), &net());
    s.current_page = 2;
    s.search_text = "sea".to_string();
    let tasks = s.online_search(&config(""), &net());
    assert!(matches!(tasks[0], Task::CancelPendingDownloads));
    assert!(matches!(tasks[tasks.len() - 1], Task::ScrollToTop));
    assert!(matches!(&tasks[tasks.len() - 2], Task::LoadWallpapers(p) if p.page == 1 && p.query == "sea"));
    assert_eq!(s.current_page, 1);
    assert_eq!(s.search_text, "sea");
    assert!(s.wallpapers.is_empty());
}

#[test]
fn refresh_clears_the_search_text() {
    let mut s: State = OnlineState::new(0);
    s.search_text = "sea".to_string();
    s.current_page = 3;
    let tasks = s.online_refresh(&config(""), &net());
    assert!(matches!(tasks[tasks.len() - 1], Task::ScrollToTop));
    assert!(matches!(&tasks[tasks.len() - 2], Task::LoadWallpapers(p) if p.page == 1 && p.query.is_empty()));
    assert_eq!(s.search_text, "");
    assert_eq!(s.current_page, 1);
}

#[test]
fn failed_search_ends_loading() {
    let mut s: State = OnlineState::new(0);
    s.loading_page = true;
    s.load_online_wallpapers_failed("请求超时".to_string());
    assert!(!s.loading_page);
    assert!(s.has_loaded);
}

#[test]
fn failed_page_reports_network_errors() {
    let mut s: State = OnlineState::new(0);
    s.loading_page = true;
    let tasks = s.load_online_page_failed("网络错误: 请求超时 (30s)".to_string());
    assert!(!s.loading_page);
    assert!(s.has_loaded);
    assert_eq!(tasks.len(), 1);
    match &tasks[0] {
        Task::Notify(n) => {
            assert_eq!(n.kind, NotificationType::Error);
            assert!(matches!(&n.text, NotificationText::Raw(e) if e == "网络错误: 请求超时 (30s)"));
        }
        _ => panic!("expected a notification"),
    }
    let tasks = s.load_online_page_failed("连接失败".to_string());
    assert_eq!(tasks.len(), 1);
    let tasks = s.load_online_page_failed("HTTP 429".to_string());
    assert!(tasks.is_empty());
}
