use wallwarp_online::filters::{ResolutionMode, WallhavenConfig};
use wallwarp_online::paging::NetworkSettings;
use wallwarp_online::state::{OnlineState, OnlineWallpaper};
use wallwarp_online::view_model::{
    CellState, ListContent, PageSpan, RatioCaption, RatioGroup, ResolutionCaption,
    ResolutionGroup, ResolutionPress, color_grid, ratio_group_cells, ratio_groups,
    resolution_group_cells, resolution_groups, shows_nsfw_toggle,
};
use wallwarp_online::wallhaven::{AspectRatio, Category, ColorOption, Purity, Resolution, Sorting};

type State = OnlineState<Vec<u8>, u32, u32>;

fn config() -> WallhavenConfig {
    WallhavenConfig {
        category: String::new(),
        purity: String::new(),
        sorting: String::new(),
        color: String::new(),
        top_range: String::new(),
        resolution_mode: String::new(),
        atleast_resolution: String::new(),
        resolutions: String::new(),
        ratios: String::new(),
        api_key: String::new(),
    }
}

fn net() -> NetworkSettings {
    NetworkSettings {
        proxy: String::new(),
        proxy_enabled: false,
        resolved_proxy: None,
        cache_path: "/cache".to_string(),
    }
}

fn wp(id: &str) -> OnlineWallpaper<Vec<u8>> {
    OnlineWallpaper {
        id: id.to_string(),
        url: String::new(),
        path: String::new(),
        thumb_large: String::new(),
        file_type: "image/jpeg".to_string(),
        file_size: 1,
        width: 1,
        height: 1,
        purity: String::new(),
        resolution: String::new(),
        ratio: String::new(),
        category: String::new(),
        favorites: 0,
        image_handle: None,
    }
}

fn cell(selected: bool, disabled: bool) -> CellState {
    CellState { selected, disabled }
}

#[test]
fn filter_bar_toggles() {
    let mut s: State = OnlineState::new(0);
    s.categories = 5;
    s.purities = 2;
    assert!(s.category_checked(Category::General));
    assert!(!s.category_checked(Category::Anime));
    assert!(s.category_checked(Category::People));
    assert!(!s.purity_checked(Purity::SFW));
    assert!(s.purity_checked(Purity::Sketchy));
    assert!(!s.purity_checked(Purity::NSFW));
    assert!(shows_nsfw_toggle("key"));
    assert!(!shows_nsfw_toggle(""));
    assert!(!s.shows_time_range_picker());
    s.sorting = Sorting::TopList;
    assert!(s.shows_time_range_picker());
}

#[test]
fn ratio_option_buttons() {
    let mut s: State = OnlineState::new(0);
    s.ratio_landscape_selected = true;
    let m = s.ratio_mode_cells();
    assert_eq!(m.landscape, cell(true, false));
    assert_eq!(m.portrait, cell(false, false));
    assert_eq!(m.all, cell(false, false));
    s.ratio_all_selected = true;
    let m = s.ratio_mode_cells();
    assert_eq!(m.landscape, cell(true, true));
    assert_eq!(m.portrait, cell(false, true));
    assert_eq!(m.all, cell(true, false));
}

#[test]
fn ratio_cells_follow_the_group_options() {
    let mut s: State = OnlineState::new(0);
    s.selected_ratios = vec![AspectRatio::R4x3, AspectRatio::R9x16];
    assert_eq!(s.ratio_cell(AspectRatio::R4x3), cell(true, false));
    assert_eq!(s.ratio_cell(AspectRatio::R16x9), cell(false, false));
    s.ratio_landscape_selected = true;
    assert_eq!(s.ratio_cell(AspectRatio::R16x9), cell(false, true));
    assert_eq!(s.ratio_cell(AspectRatio::R48x9), cell(false, true));
    assert_eq!(s.ratio_cell(AspectRatio::R9x16), cell(true, false));
    s.ratio_portrait_selected = true;
    assert_eq!(s.ratio_cell(AspectRatio::R9x16), cell(true, true));
    assert_eq!(s.ratio_cell(AspectRatio::R1x1), cell(false, false));
    s.ratio_all_selected = true;
    assert_eq!(s.ratio_cell(AspectRatio::R1x1), cell(false, true));
    assert_eq!(s.ratio_cell(AspectRatio::R4x3), cell(true, true));
}

#[test]
fn resolution_cells_follow_the_mode() {
    let mut s: State = OnlineState::new(0);
    s.selected_resolutions = vec![Resolution::R1920x1080];
    s.atleast_resolution = Some(Resolution::R2560x1440);
    assert_eq!(
        s.resolution_cell(Resolution::R1920x1080),
        (cell(true, true), ResolutionPress::Toggle(Resolution::R1920x1080))
    );
    s.resolution_mode = ResolutionMode::Exactly;
    assert_eq!(
        s.resolution_cell(Resolution::R1920x1080),
        (cell(true, false), ResolutionPress::Toggle(Resolution::R1920x1080))
    );
    assert_eq!(
        s.resolution_cell(Resolution::R2560x1440),
        (cell(false, false), ResolutionPress::Toggle(Resolution::R2560x1440))
    );
    s.resolution_mode = ResolutionMode::AtLeast;
    assert_eq!(
        s.resolution_cell(Resolution::R2560x1440),
        (cell(true, false), ResolutionPress::SelectAtLeast(Resolution::R2560x1440))
    );
    assert_eq!(
        s.resolution_cell(Resolution::R2560x1440U),
        (cell(false, false), ResolutionPress::SelectAtLeast(Resolution::R2560x1440U))
    );
}

#[test]
fn resolution_captions() {
    let mut s: State = OnlineState::new(0);
    s.atleast_resolution = Some(Resolution::R1920x1080);
    s.selected_resolutions = vec![Resolution::R3840x2160];
    assert_eq!(s.resolution_caption(), ResolutionCaption::Label);
    s.resolution_mode = ResolutionMode::AtLeast;
    assert_eq!(s.resolution_caption(), ResolutionCaption::AtLeast(Resolution::R1920x1080));
    s.atleast_resolution = None;
    assert_eq!(s.resolution_caption(), ResolutionCaption::Label);
    s.resolution_mode = ResolutionMode::Exactly;
    assert_eq!(
        s.resolution_caption(),
        ResolutionCaption::Exactly { smallest: Resolution::R3840x2160, more: 0 }
    );
    s.selected_resolutions = vec![
        Resolution::R3840x2160,
        Resolution::R2560x1440U,
        Resolution::R1600x900,
        Resolution::R2560x1440,
    ];
    assert_eq!(
        s.resolution_caption(),
        ResolutionCaption::Exactly { smallest: Resolution::R1600x900, more: 3 }
    );
    // Of two with the fewest pixels, the first selected is shown.
    s.selected_resolutions = vec![Resolution::R2560x1440, Resolution::R2560x1440U];
    assert_eq!(
        s.resolution_caption(),
        ResolutionCaption::Exactly { smallest: Resolution::R2560x1440, more: 1 }
    );
    s.selected_resolutions = Vec::new();
    assert_eq!(s.resolution_caption(), ResolutionCaption::Label);
}

#[test]
fn ratio_captions() {
    let mut s: State = OnlineState::new(0);
    assert_eq!(s.ratio_caption(), RatioCaption::Label);
    s.selected_ratios = vec![AspectRatio::R3x2, AspectRatio::R1x1];
    assert_eq!(s.ratio_caption(), RatioCaption::Ratio { first: AspectRatio::R3x2, more: 1 });
    s.ratio_portrait_selected = true;
    assert_eq!(s.ratio_caption(), RatioCaption::Portrait { more: 2 });
    s.ratio_landscape_selected = true;
    assert_eq!(s.ratio_caption(), RatioCaption::Landscape { more: 3 });
    s.selected_ratios = Vec::new();
    s.ratio_portrait_selected = false;
    assert_eq!(s.ratio_caption(), RatioCaption::Landscape { more: 0 });
    s.ratio_all_selected = true;
    assert_eq!(s.ratio_caption(), RatioCaption::Label);
}

#[test]
fn list_content_by_state() {
    let mut s: State = OnlineState::new(0);
    assert_eq!(s.list_content(), ListContent::NotStarted);
    s.loading_page = true;
    assert_eq!(s.list_content(), ListContent::Loading);
    s.load_online_wallpapers_success(Vec::new(), true, 0, 1, &config(), &net());
    assert_eq!(s.list_content(), ListContent::Empty);
    s.load_online_wallpapers_success(vec![wp("a")], true, 1, 1, &config(), &net());
    assert_eq!(s.list_content(), ListContent::Grid);
    s.loading_page = true;
    assert_eq!(s.list_content(), ListContent::Grid);
}

#[test]
fn grid_pages_split_the_list() {
    let mut s: State = OnlineState::new(0);
    assert!(s.page_spans().is_empty());
    s.load_online_wallpapers_success(vec![wp("a"), wp("b"), wp("c")], false, 3, 1, &config(), &net());
    s.load_online_page_success(vec![wp("d")], false, 3, 2, &config(), &net());
    s.load_online_page_success(vec![wp("e"), wp("f")], true, 3, 3, &config(), &net());
    assert_eq!(
        s.page_spans(),
        vec![
            PageSpan { start: 0, end: 3, page_num: 1 },
            PageSpan { start: 3, end: 4, page_num: 2 },
            PageSpan { start: 4, end: 6, page_num: 3 },
        ]
    );
}

#[test]
fn resolution_picker_columns() {
    assert_eq!(
        resolution_groups(),
        vec![
            ResolutionGroup::Ultrawide,
            ResolutionGroup::Wide16x9,
            ResolutionGroup::Wide16x10,
            ResolutionGroup::Standard4x3,
            ResolutionGroup::Standard5x4,
        ]
    );
    assert_eq!(
        resolution_group_cells(ResolutionGroup::Ultrawide),
        vec![Resolution::R2560x1080, Resolution::R2560x1440U, Resolution::R3840x1600]
    );
    let labels: Vec<&str> = resolution_group_cells(ResolutionGroup::Ultrawide).iter().map(|r| r.value()).collect();
    assert_eq!(labels, vec!["2560x1080", "2560x1440", "3840x1600"]);
    assert_eq!(resolution_group_cells(ResolutionGroup::Wide16x9)[3], Resolution::R2560x1440);
    assert_eq!(
        resolution_group_cells(ResolutionGroup::Standard5x4),
        vec![
            Resolution::R1280x1024,
            Resolution::R1600x1280,
            Resolution::R1920x1536,
            Resolution::R2560x2048,
            Resolution::R3840x3072,
        ]
    );
    assert_eq!(
        resolution_group_cells(ResolutionGroup::Standard4x3),
        vec![
            Resolution::R1280x960,
            Resolution::R1600x1200_4_3,
            Resolution::R1920x1440,
            Resolution::R2560x1920,
            Resolution::R3840x2880,
        ]
    );
    for g in resolution_groups() {
        let n = resolution_group_cells(g).len();
        assert_eq!(n, if g == ResolutionGroup::Ultrawide { 3 } else { 5 });
    }
}

#[test]
fn ratio_picker_columns() {
    assert_eq!(
        ratio_groups(),
        vec![RatioGroup::Wide, RatioGroup::Ultrawide, RatioGroup::Portrait, RatioGroup::Square]
    );
    assert_eq!(ratio_group_cells(RatioGroup::Wide), vec![AspectRatio::R16x9, AspectRatio::R16x10]);
    assert!(ratio_group_cells(RatioGroup::Ultrawide).iter().all(|r| r.is_landscape()));
    assert!(ratio_group_cells(RatioGroup::Portrait).iter().all(|r| r.is_portrait()));
    assert!(ratio_group_cells(RatioGroup::Square).iter().all(|r| !r.is_landscape() && !r.is_portrait()));
    let total: usize = ratio_groups().into_iter().map(|g| ratio_group_cells(g).len()).sum();
    assert_eq!(total, 12);
}

#[test]
fn color_picker_grid() {
    let grid = color_grid();
    assert_eq!(grid.len(), 30);
    assert_eq!(grid[0], ColorOption::Color660000);
    assert_eq!(grid[5], ColorOption::Color993399);
    assert_eq!(grid[6], ColorOption::Color663399);
    assert_eq!(grid[28], ColorOption::Color424153);
    assert_eq!(grid[29], ColorOption::Any);
    for (k, a) in grid.iter().enumerate() {
        for b in &grid[k + 1..] {
            assert_ne!(a, b);
        }
    }
}

#[test]
fn every_resolution_has_one_cell() {
    let all = [
        Resolution::R2560x1080, Resolution::R2560x1440U, Resolution::R3840x1600,
        Resolution::R1280x720, Resolution::R1600x900, Resolution::R1920x1080,
        Resolution::R2560x1440, Resolution::R3840x2160, Resolution::R1280x800,
        Resolution::R1600x1000, Resolution::R1920x1200, Resolution::R2560x1600,
        Resolution::R3840x2400, Resolution::R1280x960, Resolution::R1600x1200_4_3,
        Resolution::R1920x1440, Resolution::R2560x1920, Resolution::R3840x2880,
        Resolution::R1280x1024, Resolution::R1600x1280, Resolution::R1920x1536,
        Resolution::R2560x2048, Resolution::R3840x3072,
    ];
    let cells: Vec<Resolution> = resolution_groups().into_iter().flat_map(resolution_group_cells).collect();
    assert_eq!(cells.len(), all.len());
    for r in all {
        assert_eq!(cells.iter().filter(|c| **c == r).count(), 1);
    }
    assert!(!cells.contains(&Resolution::Any));
}
