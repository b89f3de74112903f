use wallwarp_online::filters::WallhavenConfig;
use wallwarp_online::paging::NetworkSettings;
use wallwarp_online::state::{OnlineState, OnlineWallpaper};
use wallwarp_online::tasks::{NotificationText, NotificationType, OnlineTask};

type State = OnlineState<Vec<u8>, u32, u32>;
type Task = OnlineTask<u32, u32>;

fn config() -> WallhavenConfig {
    WallhavenConfig {
        category: String::new(),
        purity: String::new(),
        sorting: String::new(),
        color: String::new(),
        top_range: String::new(),
        resolution_mode: String::new(),
        atleast_resolution: String::new(),
        resolutions: String::new(),
        ratios: String::new(),
        api_key: String::new(),
    }
}

fn net() -> NetworkSettings {
    NetworkSettings {
        proxy: String::new(),
        proxy_enabled: false,
        resolved_proxy: None,
        cache_path: "/cache".to_string(),
    }
}

fn wp(id: &str) -> OnlineWallpaper<Vec<u8>> {
    OnlineWallpaper {
        id: id.to_string(),
        url: format!("https://wallhaven.cc/w/{id}"),
        path: format!("https://w.wallhaven.cc/full/ab/wallhaven-{id}.jpg"),
        thumb_large: format!("https://th.wallhaven.cc/lg/ab/{id}.jpg"),
        file_type: "image/jpeg".to_string(),
        file_size: 123456,
        width: 1920,
        height: 1080,
        purity: "sfw".to_string(),
        resolution: "1920x1080".to_string(),
        ratio: "1.78".to_string(),
        category: "general".to_string(),
        favorites: 42,
        image_handle: None,
    }
}

fn loaded(ids: &[&str]) -> State {
    let mut s: State = OnlineState::new(0);
    let data = ids.iter().map(|i| wp(i)).collect();
    s.load_online_wallpapers_success(data, true, 1, 1, &config(), &net());
    s
}

#[test]
fn unmarked_result_is_stored_as_favorite() {
    let s = loaded(&["q2w3e4"]);
    let tasks = s.toggle_online_favorite(0, 1_700_000_000);
    assert_eq!(tasks.len(), 1);
    match &tasks[0] {
        Task::UpsertFavorite(f) => {
            assert_eq!(f.wallhaven_id, "q2w3e4");
            assert_eq!(f.kind, "online");
            assert_eq!(f.title, "wallhaven-q2w3e4.jpeg");
            assert_eq!(f.url, "https://w.wallhaven.cc/full/ab/wallhaven-q2w3e4.jpg");
            assert_eq!(f.path, "https://wallhaven.cc/w/q2w3e4");
            assert_eq!(f.thumb_url, "https://th.wallhaven.cc/lg/ab/q2w3e4.jpg");
            assert_eq!(f.file_type, "image/jpeg");
            assert_eq!(f.file_size, 123456);
            assert_eq!(f.width, 1920);
            assert_eq!(f.height, 1080);
            assert_eq!(f.purity, "sfw");
            assert_eq!(f.resolution, "1920x1080");
            assert_eq!(f.ratio, "1.78");
            assert_eq!(f.category, "general");
            assert_eq!(f.group_id, None);
            assert_eq!(f.created_at, 1_700_000_000);
        }
        _ => panic!("expected a stored favorite"),
    }
    assert!(s.toggle_online_favorite(1, 0).is_empty());
}

#[test]
fn marked_result_is_removed() {
    let mut s = loaded(&["q2w3e4"]);
    s.favorite_ids = vec!["zzz".to_string(), "q2w3e4".to_string()];
    let tasks = s.toggle_online_favorite(0, 0);
    assert_eq!(tasks.len(), 1);
    assert!(matches!(&tasks[0], Task::RemoveFavorite { id } if id == "q2w3e4"));
}

#[test]
fn store_answer_updates_the_mark() {
    let mut s = loaded(&["a"]);
    let tasks = s.online_favorite_toggled("a".to_string(), Ok(()), true);
    assert_eq!(s.favorite_ids, vec!["a".to_string()]);
    assert_eq!(tasks.len(), 2);
    assert!(matches!(tasks[0], Task::InvalidateFavorites));
    assert!(matches!(&tasks[1], Task::Notify(n)
        if n.kind == NotificationType::Success && matches!(n.text, NotificationText::Key("favorites.added"))));
    // Adding again keeps a single mark.
    s.online_favorite_toggled("a".to_string(), Ok(()), true);
    assert_eq!(s.favorite_ids, vec!["a".to_string()]);
    let tasks = s.online_favorite_toggled("a".to_string(), Ok(()), false);
    assert!(s.favorite_ids.is_empty());
    assert!(matches!(&tasks[1], Task::Notify(n)
        if n.kind == NotificationType::Info && matches!(n.text, NotificationText::Key("favorites.removed-toast"))));
}

#[test]
fn store_failure_is_reported() {
    let mut s = loaded(&["a"]);
    s.favorite_ids = vec!["a".to_string()];
    let tasks = s.online_favorite_toggled("a".to_string(), Err("database locked".to_string()), false);
    assert_eq!(s.favorite_ids, vec!["a".to_string()]);
    assert_eq!(tasks.len(), 1);
    assert!(matches!(&tasks[0], Task::Notify(n)
        if n.kind == NotificationType::Error
            && matches!(&n.text, NotificationText::KeyWithDetail(k, d)
                if *k == "favorites.favorite-failed" && d == "database locked")));
}

#[test]
fn favorite_toggle_round_trip() {
    let mut s = loaded(&["a", "b"]);
    let first = s.toggle_online_favorite(1, 5);
    assert!(matches!(first[0], Task::UpsertFavorite(_)));
    s.online_favorite_toggled("b".to_string(), Ok(()), true);
    let second = s.toggle_online_favorite(1, 6);
    assert!(matches!(&second[0], Task::RemoveFavorite { id } if id == "b"));
    s.online_favorite_toggled("b".to_string(), Ok(()), false);
    let third = s.toggle_online_favorite(1, 7);
    assert!(matches!(third[0], Task::UpsertFavorite(_)));
}
