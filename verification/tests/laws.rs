use wallwarp_online::filters::{ResolutionMode, WallhavenConfig};
use wallwarp_online::settings::ProxyProtocol;
use wallwarp_online::state::OnlineState;
use wallwarp_online::wallhaven::{AspectRatio, ColorOption, Resolution, Sorting, TimeRange};

type State = OnlineState<Vec<u8>, u32, u32>;

fn empty_config(api_key: &str) -> WallhavenConfig {
    WallhavenConfig {
        category: String::new(),
        purity: String::new(),
        sorting: String::new(),
        color: String::new(),
        top_range: String::new(),
        resolution_mode: String::new(),
        atleast_resolution: String::new(),
        resolutions: String::new(),
        ratios: String::new(),
        api_key: api_key.to_string(),
    }
}

#[test]
fn toggling_twice_restores_the_selection() {
    let mut s: State = OnlineState::new(0);
    let mut c = empty_config("");
    s.online_filter_ratio_toggled(AspectRatio::R1x1, &mut c);
    s.online_filter_ratio_toggled(AspectRatio::R21x9, &mut c);
    let before = s.selected_ratios.clone();
    s.online_filter_ratio_toggled(AspectRatio::R5x4, &mut c);
    assert!(s.selected_ratios.contains(&AspectRatio::R5x4));
    s.online_filter_ratio_toggled(AspectRatio::R5x4, &mut c);
    assert_eq!(s.selected_ratios, before);
    let before = s.selected_resolutions.clone();
    s.online_filter_resolution_toggled(Resolution::R1600x1280, &mut c);
    s.online_filter_resolution_toggled(Resolution::R1600x1280, &mut c);
    assert_eq!(s.selected_resolutions, before);
}

#[test]
fn group_options_exclude_their_ratios() {
    let mut s: State = OnlineState::new(0);
    let mut c = empty_config("");
    for r in [
        AspectRatio::R16x9,
        AspectRatio::R16x10,
        AspectRatio::R21x9,
        AspectRatio::R32x9,
        AspectRatio::R48x9,
        AspectRatio::R9x16,
        AspectRatio::R10x16,
        AspectRatio::R9x18,
        AspectRatio::R1x1,
    ] {
        s.online_filter_ratio_toggled(r, &mut c);
    }
    s.online_filter_ratio_landscape_toggled(&mut c);
    assert!(s.selected_ratios.iter().all(|r| !r.is_landscape()));
    s.online_filter_ratio_portrait_toggled(&mut c);
    assert!(s.selected_ratios.iter().all(|r| !r.is_portrait()));
    assert_eq!(s.selected_ratios, vec![AspectRatio::R1x1]);
}

#[test]
fn every_filter_change_is_saved_and_reads_back() {
    let mut s: State = OnlineState::new(0);
    let mut c = empty_config("my-api-key");
    s.online_filter_sorting_changed(Sorting::Favorites, &mut c);
    s.online_filter_color_changed(ColorOption::ColorFFCC33, &mut c);
    s.online_filter_time_range_changed(TimeRange::SixMonths, &mut c);
    s.online_filter_resolution_mode_changed(ResolutionMode::AtLeast, &mut c);
    s.online_filter_resolution_atleast_selected(Resolution::R3840x1600, &mut c);
    s.online_filter_ratio_portrait_toggled(&mut c);
    s.online_filter_ratio_toggled(AspectRatio::R16x9, &mut c);
    let t: State = OnlineState::load_from_config(&c, 0);
    assert_eq!(t.sorting, s.sorting);
    assert_eq!(t.color, s.color);
    assert_eq!(t.time_range, s.time_range);
    assert_eq!(t.resolution_mode, s.resolution_mode);
    assert_eq!(t.atleast_resolution, s.atleast_resolution);
    assert_eq!(t.ratio_portrait_selected, s.ratio_portrait_selected);
    assert_eq!(t.selected_ratios, s.selected_ratios);
    assert_eq!(t.categories, s.categories);
    assert_eq!(t.purities, s.purities);
}

#[test]
fn shared_resolution_name_reads_back_as_ultrawide() {
    let mut s: State = OnlineState::new(0);
    s.resolution_mode = ResolutionMode::Exactly;
    s.selected_resolutions = vec![Resolution::R2560x1440];
    let mut c = empty_config("");
    s.save_to_config(&mut c);
    let t: State = OnlineState::load_from_config(&c, 0);
    assert_eq!(t.selected_resolutions, vec![Resolution::R2560x1440U]);
}

#[test]
fn all_ratios_is_written_back() {
    let mut s: State = OnlineState::new(0);
    let mut c = empty_config("");
    s.online_filter_ratio_toggled(AspectRatio::R4x3, &mut c);
    s.online_filter_ratio_all_toggled(&mut c);
    assert_eq!(c.ratios, "all");
    let t: State = OnlineState::load_from_config(&c, 0);
    assert!(t.ratio_all_selected);
    assert!(!t.ratio_landscape_selected && !t.ratio_portrait_selected);
    assert!(t.selected_ratios.is_empty());
}

#[test]
fn proxy_protocol_name_reads_back() {
    for p in [ProxyProtocol::Http, ProxyProtocol::Socks5] {
        assert_eq!(ProxyProtocol::parse(p.as_str()), p);
    }
}
