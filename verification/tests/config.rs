use wallwarp_online::filters::{ResolutionMode, WallhavenConfig};
use wallwarp_online::state::OnlineState;
use wallwarp_online::tasks::OnlineTask;
use wallwarp_online::wallhaven::{
    AspectRatio, Category, ColorOption, Purity, Resolution, Sorting, TimeRange,
};

type State = OnlineState<Vec<u8>, u32, u32>;

fn empty_config() -> WallhavenConfig {
    WallhavenConfig {
        category: String::new(),
        purity: String::new(),
        sorting: String::new(),
        color: String::new(),
        top_range: String::new(),
        resolution_mode: String::new(),
        atleast_resolution: String::new(),
        resolutions: String::new(),
        ratios: String::new(),
        api_key: String::new(),
    }
}

fn saves_config(tasks: &[OnlineTask<u32, u32>]) -> bool {
    tasks.len() == 1 && matches!(tasks[0], OnlineTask::SaveConfig)
}

#[test]
fn new_state_has_default_filters() {
    let s: State = OnlineState::new(7);
    assert_eq!(s.categories, 4);
    assert_eq!(s.purities, 4);
    assert_eq!(s.sorting, Sorting::DateAdded);
    assert_eq!(s.time_range, TimeRange::Month);
    assert_eq!(s.color, ColorOption::Any);
    assert_eq!(s.resolution_mode, ResolutionMode::All);
    assert_eq!(s.current_page, 1);
    assert_eq!(s.page_size, 24);
    assert_eq!(s.request_context, 7);
    assert!(s.wallpapers.is_empty());
    assert!(!s.has_loaded);
    assert!(!s.loading_page);
}

#[test]
fn empty_config_gives_defaults() {
    let s: State = OnlineState::load_from_config(&empty_config(), 0);
    assert_eq!(s.categories, 4);
    assert_eq!(s.purities, 4);
    assert_eq!(s.sorting, Sorting::DateAdded);
    assert_eq!(s.color, ColorOption::Any);
    assert_eq!(s.time_range, TimeRange::Month);
    assert_eq!(s.resolution_mode, ResolutionMode::All);
    assert_eq!(s.atleast_resolution, None);
    assert!(s.selected_resolutions.is_empty());
    assert!(s.selected_ratios.is_empty());
    assert!(!s.ratio_landscape_selected && !s.ratio_portrait_selected && !s.ratio_all_selected);
}

#[test]
fn nsfw_dropped_without_api_key() {
    let mut c = empty_config();
    c.purity = "111".to_string();
    let s: State = OnlineState::load_from_config(&c, 0);
    assert_eq!(s.purities, 6);
    c.api_key = "my-api-key".to_string();
    let s: State = OnlineState::load_from_config(&c, 0);
    assert_eq!(s.purities, 7);
}

#[test]
fn config_fields_are_read() {
    let mut c = empty_config();
    c.category = "011".to_string();
    c.sorting = "toplist".to_string();
    c.color = "0066cc".to_string();
    c.top_range = "1w".to_string();
    c.resolution_mode = "atleast".to_string();
    c.atleast_resolution = "2560x1440".to_string();
    let s: State = OnlineState::load_from_config(&c, 0);
    assert_eq!(s.categories, 3);
    assert_eq!(s.sorting, Sorting::TopList);
    assert_eq!(s.color, ColorOption::Color0066CC);
    assert_eq!(s.time_range, TimeRange::Week);
    assert_eq!(s.resolution_mode, ResolutionMode::AtLeast);
    assert_eq!(s.atleast_resolution, Some(Resolution::R2560x1440U));
}

#[test]
fn stored_resolutions_are_trimmed_and_filtered() {
    let mut c = empty_config();
    c.resolution_mode = "exactly".to_string();
    c.resolutions = "1920x1080, 2560x1440 ,bogus,,3840x2160".to_string();
    let s: State = OnlineState::load_from_config(&c, 0);
    assert_eq!(
        s.selected_resolutions,
        vec![Resolution::R1920x1080, Resolution::R2560x1440U, Resolution::R3840x2160]
    );
}

#[test]
fn stored_ratio_groups_cover_their_ratios() {
    let mut c = empty_config();
    c.ratios = "landscape,16x9, 4x3,portrait,9x16,21x9".to_string();
    let s: State = OnlineState::load_from_config(&c, 0);
    assert!(s.ratio_landscape_selected);
    assert!(s.ratio_portrait_selected);
    assert!(!s.ratio_all_selected);
    assert_eq!(s.selected_ratios, vec![AspectRatio::R4x3]);
}

#[test]
fn stored_all_ratios() {
    let mut c = empty_config();
    c.ratios = "all".to_string();
    let s: State = OnlineState::load_from_config(&c, 0);
    assert!(s.ratio_all_selected);
    assert!(!s.ratio_landscape_selected && !s.ratio_portrait_selected);
    assert!(s.selected_ratios.is_empty());
}

#[test]
fn filters_are_written_to_config() {
    let mut s: State = OnlineState::new(0);
    s.categories = 5;
    s.purities = 6;
    s.sorting = Sorting::Views;
    s.color = ColorOption::ColorCC0000;
    s.time_range = TimeRange::ThreeMonths;
    s.resolution_mode = ResolutionMode::Exactly;
    s.selected_resolutions = vec![Resolution::R1920x1080, Resolution::R2560x1440];
    s.atleast_resolution = Some(Resolution::R1280x720);
    s.ratio_landscape_selected = true;
    s.selected_ratios = vec![AspectRatio::R4x3, AspectRatio::R9x16];
    let mut c = empty_config();
    c.api_key = "my-api-key".to_string();
    s.save_to_config(&mut c);
    assert_eq!(c.category, "101");
    assert_eq!(c.purity, "110");
    assert_eq!(c.sorting, "views");
    assert_eq!(c.color, "cc0000");
    assert_eq!(c.top_range, "3M");
    assert_eq!(c.resolution_mode, "exactly");
    assert_eq!(c.atleast_resolution, "1280x720");
    assert_eq!(c.resolutions, "1920x1080,2560x1440");
    assert_eq!(c.ratios, "landscape,4x3,9x16");
    assert_eq!(c.api_key, "my-api-key");
}

#[test]
fn empty_selections_write_empty_texts() {
    let s: State = OnlineState::new(0);
    let mut c = empty_config();
    c.ratios = "all".to_string();
    s.save_to_config(&mut c);
    assert_eq!(c.atleast_resolution, "");
    assert_eq!(c.resolutions, "");
    assert_eq!(c.ratios, "");
    assert_eq!(c.color, "");
}

#[test]
fn saved_filters_load_back() {
    let mut s: State = OnlineState::new(0);
    s.categories = 3;
    s.purities = 7;
    s.sorting = Sorting::Hot;
    s.time_range = TimeRange::Day;
    s.resolution_mode = ResolutionMode::Exactly;
    s.selected_resolutions = vec![Resolution::R3840x2160, Resolution::R1280x800];
    s.ratio_portrait_selected = true;
    s.selected_ratios = vec![AspectRatio::R16x10, AspectRatio::R1x1];
    let mut c = empty_config();
    c.api_key = "my-api-key".to_string();
    s.save_to_config(&mut c);
    let t: State = OnlineState::load_from_config(&c, 1);
    assert_eq!(t.categories, s.categories);
    assert_eq!(t.purities, s.purities);
    assert_eq!(t.sorting, s.sorting);
    assert_eq!(t.time_range, s.time_range);
    assert_eq!(t.color, s.color);
    assert_eq!(t.resolution_mode, s.resolution_mode);
    assert_eq!(t.selected_resolutions, s.selected_resolutions);
    assert_eq!(t.atleast_resolution, s.atleast_resolution);
    assert_eq!(t.selected_ratios, s.selected_ratios);
    assert_eq!(t.ratio_landscape_selected, s.ratio_landscape_selected);
    assert_eq!(t.ratio_portrait_selected, s.ratio_portrait_selected);
    assert_eq!(t.ratio_all_selected, s.ratio_all_selected);
}

#[test]
fn api_params_are_masks() {
    let mut s: State = OnlineState::new(0);
    s.categories = 6;
    s.purities = 1;
    assert_eq!(s.get_categories_param(), "110");
    assert_eq!(s.get_purity_param(), "001");
}

#[test]
fn next_page_wanted_only_after_a_search() {
    let mut s: State = OnlineState::new(0);
    assert!(!s.should_load_next_page());
    s.has_loaded = true;
    assert!(s.should_load_next_page());
    s.loading_page = true;
    assert!(!s.should_load_next_page());
    s.loading_page = false;
    s.last_page = true;
    assert!(!s.should_load_next_page());
}

#[test]
fn toggles_flip_bits_and_save() {
    let mut s: State = OnlineState::new(0);
    let mut c = empty_config();
    let t = s.online_filter_category_toggled(Category::Anime, &mut c);
    assert!(saves_config(&t));
    assert_eq!(s.categories, 6);
    assert_eq!(c.category, "110");
    s.online_filter_category_toggled(Category::General, &mut c);
    assert_eq!(s.categories, 2);
    assert_eq!(c.category, "010");
    let t = s.online_filter_purity_toggled(Purity::Sketchy, &mut c);
    assert!(saves_config(&t));
    assert_eq!(s.purities, 6);
    assert_eq!(c.purity, "110");
}

#[test]
fn single_choice_filters_save() {
    let mut s: State = OnlineState::new(0);
    let mut c = empty_config();
    assert!(saves_config(&s.online_filter_sorting_changed(Sorting::TopList, &mut c)));
    assert_eq!(c.sorting, "toplist");
    assert!(saves_config(&s.online_filter_time_range_changed(TimeRange::Year, &mut c)));
    assert_eq!(c.top_range, "1y");
    s.color_picker_expanded = true;
    assert!(saves_config(&s.online_filter_color_changed(ColorOption::Color999999, &mut c)));
    assert_eq!(c.color, "999999");
    assert!(!s.color_picker_expanded);
    s.online_filter_search_text_changed("cats".to_string());
    assert_eq!(s.search_text, "cats");
}

#[test]
fn resolution_mode_change_forgets_choices() {
    let mut s: State = OnlineState::new(0);
    let mut c = empty_config();
    s.online_filter_resolution_atleast_selected(Resolution::R1920x1080, &mut c);
    assert_eq!(c.atleast_resolution, "1920x1080");
    s.online_filter_resolution_toggled(Resolution::R1280x720, &mut c);
    let t = s.online_filter_resolution_mode_changed(ResolutionMode::Exactly, &mut c);
    assert!(saves_config(&t));
    assert_eq!(s.resolution_mode, ResolutionMode::Exactly);
    assert_eq!(s.atleast_resolution, None);
    assert!(s.selected_resolutions.is_empty());
    assert_eq!(c.resolution_mode, "exactly");
    assert_eq!(c.atleast_resolution, "");
    assert_eq!(c.resolutions, "");
}

#[test]
fn resolution_toggle_adds_and_removes() {
    let mut s: State = OnlineState::new(0);
    let mut c = empty_config();
    s.online_filter_resolution_toggled(Resolution::R1920x1080, &mut c);
    s.online_filter_resolution_toggled(Resolution::R3840x2160, &mut c);
    assert_eq!(s.selected_resolutions, vec![Resolution::R1920x1080, Resolution::R3840x2160]);
    assert_eq!(c.resolutions, "1920x1080,3840x2160");
    s.online_filter_resolution_toggled(Resolution::R1920x1080, &mut c);
    assert_eq!(s.selected_resolutions, vec![Resolution::R3840x2160]);
    assert_eq!(c.resolutions, "3840x2160");
}

#[test]
fn landscape_option_drops_wide_ratios() {
    let mut s: State = OnlineState::new(0);
    let mut c = empty_config();
    s.online_filter_ratio_toggled(AspectRatio::R16x9, &mut c);
    s.online_filter_ratio_toggled(AspectRatio::R4x3, &mut c);
    s.online_filter_ratio_toggled(AspectRatio::R32x9, &mut c);
    s.online_filter_ratio_toggled(AspectRatio::R9x16, &mut c);
    let t = s.online_filter_ratio_landscape_toggled(&mut c);
    assert!(saves_config(&t));
    assert!(s.ratio_landscape_selected);
    assert_eq!(s.selected_ratios, vec![AspectRatio::R4x3, AspectRatio::R9x16]);
    assert_eq!(c.ratios, "landscape,4x3,9x16");
    s.online_filter_ratio_portrait_toggled(&mut c);
    assert!(s.ratio_portrait_selected);
    assert_eq!(s.selected_ratios, vec![AspectRatio::R4x3]);
    assert_eq!(c.ratios, "landscape,portrait,4x3");
    // Turning a group option off restores nothing.
    s.online_filter_ratio_landscape_toggled(&mut c);
    assert!(!s.ratio_landscape_selected);
    assert_eq!(s.selected_ratios, vec![AspectRatio::R4x3]);
}

#[test]
fn all_ratios_clears_the_rest() {
    let mut s: State = OnlineState::new(0);
    let mut c = empty_config();
    s.online_filter_ratio_toggled(AspectRatio::R1x1, &mut c);
    s.online_filter_ratio_portrait_toggled(&mut c);
    s.online_filter_ratio_all_toggled(&mut c);
    assert!(s.ratio_all_selected);
    assert!(!s.ratio_portrait_selected && !s.ratio_landscape_selected);
    assert!(s.selected_ratios.is_empty());
    assert_eq!(c.ratios, "all");
    s.online_filter_ratio_all_toggled(&mut c);
    assert!(!s.ratio_all_selected);
    assert!(s.selected_ratios.is_empty());
    assert_eq!(c.ratios, "");
}

#[test]
fn pickers_open_and_close() {
    let mut s: State = OnlineState::new(0);
    s.online_filter_color_picker_expanded();
    assert!(s.color_picker_expanded);
    s.online_filter_color_picker_expanded();
    assert!(!s.color_picker_expanded);
    s.online_filter_resolution_picker_expanded();
    assert!(s.resolution_picker_expanded);
    s.online_filter_resolution_picker_dismiss();
    assert!(!s.resolution_picker_expanded);
    s.online_filter_ratio_picker_expanded();
    assert!(s.ratio_picker_expanded);
    s.online_filter_ratio_picker_dismiss();
    assert!(!s.ratio_picker_expanded);
    s.online_filter_sorting_picker_expanded();
    assert!(s.sorting_picker_expanded);
    s.online_filter_sorting_picker_dismiss();
    assert!(!s.sorting_picker_expanded);
    s.online_filter_time_range_picker_expanded();
    assert!(s.time_range_picker_expanded);
    s.online_filter_time_range_picker_dismiss();
    assert!(!s.time_range_picker_expanded);
    s.online_filter_color_picker_expanded();
    s.online_filter_color_picker_dismiss();
    assert!(!s.color_picker_expanded);
}

#[test]
fn cancellations_hand_back_what_runs() {
    let mut s: State = OnlineState::new(3);
    let old = s.cancel_and_new_context(9);
    assert_eq!(old, 3);
    assert_eq!(s.request_context, 9);
    s.modal_download_cancel_token = Some(11);
    s.modal_downloaded_bytes = 5;
    s.modal_total_bytes = 10;
    s.modal_download_progress = Some((5, 10));
    assert_eq!(s.cancel_modal_download(), Some(11));
    assert_eq!(s.modal_download_cancel_token, None);
    assert_eq!(s.modal_download_progress, None);
    assert_eq!(s.modal_downloaded_bytes, 0);
    assert_eq!(s.modal_total_bytes, 0);
    assert_eq!(s.cancel_modal_download(), None);
    s.thumb_load_cancel_tokens = vec![1, 2, 3];
    assert_eq!(s.cancel_thumb_loads(), vec![1, 2, 3]);
    assert!(s.thumb_load_cancel_tokens.is_empty());
}
