//! The state of the online wallpaper page and the transitions that filter
//! changes, picker toggles and cancellations make.

use vstd::prelude::*;
use crate::filters::{
    FilterModel, ResolutionMode, WallhavenConfig, config_filters, default_mask, join_ratio_parts,
    join_resolutions, load_ratios, load_resolutions, remove_groups, saved_config, without_groups,
};
use crate::mask::{format_mask, mask_text, parse_mask};
use crate::tasks::OnlineTask;
use crate::wallhaven::{
    AspectRatio, Category, ColorOption, Purity, Ratio, Resolution, Sorting, TimeRange,
    category_bit, is_landscape_ratio, is_portrait_ratio, purity_bit,
};

verus! {

/// Load status of a list entry's thumbnail.
#[derive(Debug, Clone, Copy, PartialEq, Eq, Structural)]
pub enum WallpaperLoadStatus {
    /// The thumbnail is being loaded.
    Loading,
    /// The thumbnail is loaded (its image is held by the entry's data).
    Loaded,
    /// The thumbnail could not be loaded.
    Failed,
}

/// Where a page of results ends in the list, and its page number.
#[derive(Debug, Clone, Copy, PartialEq, Eq, Structural)]
pub struct PageInfo {
    /// Index one past the page's last entry.
    pub end_index: usize,
    /// Page number, from 1.
    pub page_num: usize,
}

/// A search result, with its thumbnail image once loaded.
#[derive(Debug, Clone)]
pub struct OnlineWallpaper<H> {
    pub id: String,
    /// Page of the wallpaper on Wallhaven.
    pub url: String,
    /// URL of the full image.
    pub path: String,
    pub thumb_large: String,
    /// MIME type, such as `image/jpeg`.
    pub file_type: String,
    pub file_size: u64,
    pub width: u32,
    pub height: u32,
    pub purity: String,
    pub resolution: String,
    pub ratio: String,
    pub category: String,
    pub favorites: u64,
    pub image_handle: Option<H>,
}

/// State of the online wallpaper page. `H` is the image handle type, `T` the
/// cancel token type and `C` the request context type of the runtime.
#[derive(Debug)]
pub struct OnlineState<H, T, C> {
    /// Thumbnail status of each list entry.
    pub wallpapers: Vec<WallpaperLoadStatus>,
    /// The search results, one per list entry.
    pub wallpapers_data: Vec<OnlineWallpaper<H>>,
    /// Whether a page request is in flight.
    pub loading_page: bool,
    pub current_page: usize,
    pub page_size: usize,
    pub total_count: usize,
    pub total_pages: usize,
    pub modal_visible: bool,
    /// Index of the entry shown in the preview.
    pub current_image_index: usize,
    pub modal_image_handle: Option<H>,
    /// Category mask: `100` general, `010` anime, `001` people.
    pub categories: u32,
    pub sorting: Sorting,
    /// Purity mask: `100` safe, `010` sketchy, `001` NSFW.
    pub purities: u32,
    pub resolution: Resolution,
    pub ratio: Ratio,
    pub color: ColorOption,
    pub time_range: TimeRange,
    pub search_text: String,
    /// Whether the last page has been loaded.
    pub last_page: bool,
    /// Whether a search has completed (successfully or not).
    pub has_loaded: bool,
    /// End of each loaded page in the list, in order.
    pub page_info: Vec<PageInfo>,
    pub color_picker_expanded: bool,
    pub resolution_picker_expanded: bool,
    pub resolution_mode: ResolutionMode,
    /// Resolutions of the exact mode.
    pub selected_resolutions: Vec<Resolution>,
    /// Resolution of the minimum mode.
    pub atleast_resolution: Option<Resolution>,
    pub ratio_picker_expanded: bool,
    pub selected_ratios: Vec<AspectRatio>,
    /// "All landscape" option.
    pub ratio_landscape_selected: bool,
    /// "All portrait" option.
    pub ratio_portrait_selected: bool,
    /// "All ratios" option.
    pub ratio_all_selected: bool,
    pub sorting_picker_expanded: bool,
    pub time_range_picker_expanded: bool,
    /// Context of the page requests; cancelling it cancels them.
    pub request_context: C,
    /// File to set as wallpaper once its download completes.
    pub pending_set_wallpaper_filename: Option<String>,
    /// Cancel token of the preview image download.
    pub modal_download_cancel_token: Option<T>,
    /// The byte counts (downloaded, total, total > 0) that the preview's
    /// progress fraction `min(downloaded / total, 1)` was last computed from;
    /// `None` stands for progress 0.
    pub modal_download_progress: Option<(u64, u64)>,
    pub modal_downloaded_bytes: u64,
    pub modal_total_bytes: u64,
    /// Cancel tokens of the thumbnail loads.
    pub thumb_load_cancel_tokens: Vec<T>,
    /// Ids of the wallpapers in the favorites.
    pub favorite_ids: Vec<String>,
    /// Whether the loaded thumbnails must be reloaded (their cache was cleared).
    pub thumbs_stale: bool,
}

/// A progress basis, if any, has a positive total.
pub open spec fn progress_known(p: Option<(u64, u64)>) -> bool {
    match p {
        Some((_downloaded, total)) => total > 0,
        None => true,
    }
}

/// Page ends that lie inside the list and strictly increase, the last one
/// at the end of the list (no pages for an empty list).
pub open spec fn pages_fit(p: Seq<PageInfo>, len: nat) -> bool {
    &&& forall|i: int| 0 <= i < p.len() ==> 0 < (#[trigger] p[i]).end_index <= len
    &&& forall|i: int, j: int|
        0 <= i < j < p.len() ==> (#[trigger] p[i]).end_index < (#[trigger] p[j]).end_index
    &&& if p.len() == 0 {
        len == 0
    } else {
        p.last().end_index == len
    }
}

impl<H, T, C> OnlineState<H, T, C> {
    /// The state's invariant: one status per result, page ends that slice
    /// the whole list into non-empty consecutive pages, and a progress basis
    /// with a positive total.
    pub open spec fn wf(&self) -> bool {
        &&& self.wallpapers@.len() == self.wallpapers_data@.len()
        &&& pages_fit(self.page_info@, self.wallpapers@.len())
        &&& progress_known(self.modal_download_progress)
    }

    /// The filter selection.
    pub open spec fn filters(&self) -> FilterModel {
        FilterModel {
            categories: self.categories,
            purities: self.purities,
            sorting: self.sorting,
            color: self.color,
            time_range: self.time_range,
            resolution_mode: self.resolution_mode,
            atleast_resolution: self.atleast_resolution,
            selected_resolutions: self.selected_resolutions@,
            selected_ratios: self.selected_ratios@,
            ratio_landscape_selected: self.ratio_landscape_selected,
            ratio_portrait_selected: self.ratio_portrait_selected,
            ratio_all_selected: self.ratio_all_selected,
        }
    }

    /// Everything but the filters is as a new page has it: an empty list,
    /// page 1 of size 24, no preview, closed pickers, no pending work.
    pub open spec fn is_fresh(&self, request_context: C) -> bool {
        &&& self.wallpapers@.len() == 0
        &&& self.wallpapers_data@.len() == 0
        &&& !self.loading_page
        &&& self.current_page == 1
        &&& self.page_size == 24
        &&& self.total_count == 0
        &&& self.total_pages == 0
        &&& !self.modal_visible
        &&& self.current_image_index == 0
        &&& self.modal_image_handle is None
        &&& self.resolution == Resolution::Any
        &&& self.ratio == Ratio::Any
        &&& self.search_text@.len() == 0
        &&& !self.last_page
        &&& !self.has_loaded
        &&& self.page_info@.len() == 0
        &&& !self.color_picker_expanded
        &&& !self.resolution_picker_expanded
        &&& !self.ratio_picker_expanded
        &&& !self.sorting_picker_expanded
        &&& !self.time_range_picker_expanded
        &&& self.request_context == request_context
        &&& self.pending_set_wallpaper_filename is None
        &&& self.modal_download_cancel_token is None
        &&& self.modal_download_progress is None
        &&& self.modal_downloaded_bytes == 0
        &&& self.modal_total_bytes == 0
        &&& self.thumb_load_cancel_tokens@.len() == 0
        &&& self.favorite_ids@.len() == 0
        &&& !self.thumbs_stale
    }
}

/// The filters of a new page: general and safe only, newest first, a month
/// of toplist, no color, resolution or ratio restriction.
pub open spec fn default_filters() -> FilterModel {
    FilterModel {
        categories: default_mask(),
        purities: default_mask(),
        sorting: Sorting::DateAdded,
        color: ColorOption::Any,
        time_range: TimeRange::Month,
        resolution_mode: ResolutionMode::All,
        atleast_resolution: None,
        selected_resolutions: Seq::<Resolution>::empty(),
        selected_ratios: Seq::<AspectRatio>::empty(),
        ratio_landscape_selected: false,
        ratio_portrait_selected: false,
        ratio_all_selected: false,
    }
}

/// `rs` with `x` removed at its first occurrence, or with `x` appended when absent.
pub open spec fn toggled<A>(rs: Seq<A>, x: A) -> Seq<A> {
    if rs.contains(x) {
        let i = choose|i: int| 0 <= i < rs.len() && rs[i] == x && forall|j: int| 0 <= j < i ==> rs[j] != x;
        rs.remove(i)
    } else {
        rs.push(x)
    }
}

/// The position of the first occurrence of `x`, if any.
fn position_of_resolution(rs: &Vec<Resolution>, x: Resolution) -> (r: Option<usize>)
    ensures
        match r {
            Some(i) => i < rs@.len() && rs@[i as int] == x && forall|j: int| 0 <= j < i ==> rs@[j] != x,
            None => !rs@.contains(x),
        },
{
    let mut i: usize = 0;
    while i < rs.len()
        invariant
            i <= rs@.len(),
            forall|j: int| 0 <= j < i ==> rs@[j] != x,
        decreases rs@.len() - i,
    {
        if rs[i] == x {
            return Some(i);
        }
        i = i + 1;
    }
    None
}

fn position_of_ratio(rs: &Vec<AspectRatio>, x: AspectRatio) -> (r: Option<usize>)
    ensures
        match r {
            Some(i) => i < rs@.len() && rs@[i as int] == x && forall|j: int| 0 <= j < i ==> rs@[j] != x,
            None => !rs@.contains(x),
        },
{
    let mut i: usize = 0;
    while i < rs.len()
        invariant
            i <= rs@.len(),
            forall|j: int| 0 <= j < i ==> rs@[j] != x,
        decreases rs@.len() - i,
    {
        if rs[i] == x {
            return Some(i);
        }
        i = i + 1;
    }
    None
}

pub proof fn lemma_toggled_at<A>(rs: Seq<A>, x: A, i: int)
    requires
        0 <= i < rs.len(),
        rs[i] == x,
        forall|j: int| 0 <= j < i ==> rs[j] != x,
    ensures
        toggled(rs, x) == rs.remove(i),
{
    assert(rs.contains(x));
    let k = choose|k: int| 0 <= k < rs.len() && rs[k] == x && forall|j: int| 0 <= j < k ==> rs[j] != x;
    if k < i {
        assert(rs[k] != x);
    }
    if i < k {
        assert(rs[i] != x);
    }
}

fn toggle_resolution(rs: &mut Vec<Resolution>, x: Resolution)
    ensures
        final(rs)@ == toggled(old(rs)@, x),
{
    match position_of_resolution(rs, x) {
        Some(pos) => {
            proof {
                lemma_toggled_at(rs@, x, pos as int);
            }
            rs.remove(pos);
        },
        None => {
            rs.push(x);
        },
    }
}

fn toggle_ratio(rs: &mut Vec<AspectRatio>, x: AspectRatio)
    ensures
        final(rs)@ == toggled(old(rs)@, x),
{
    match position_of_ratio(rs, x) {
        Some(pos) => {
            proof {
                lemma_toggled_at(rs@, x, pos as int);
            }
            rs.remove(pos);
        },
        None => {
            rs.push(x);
        },
    }
}

impl<H, T, C> OnlineState<H, T, C> {
    /// A new page with the default filters.
    pub fn new(request_context: C) -> (r: Self)
        ensures
            r.wf(),
            r.is_fresh(request_context),
            r.filters() == default_filters(),
    {
        OnlineState {
            wallpapers: Vec::new(),
            wallpapers_data: Vec::new(),
            loading_page: false,
            current_page: 1,
            page_size: 24,
            total_count: 0,
            total_pages: 0,
            modal_visible: false,
            current_image_index: 0,
            modal_image_handle: None,
            categories: 4,
            sorting: Sorting::DateAdded,
            purities: 4,
            resolution: Resolution::Any,
            ratio: Ratio::Any,
            color: ColorOption::Any,
            time_range: TimeRange::Month,
            search_text: String::new(),
            last_page: false,
            has_loaded: false,
            page_info: Vec::new(),
            color_picker_expanded: false,
            resolution_picker_expanded: false,
            resolution_mode: ResolutionMode::All,
            selected_resolutions: Vec::new(),
            atleast_resolution: None,
            ratio_picker_expanded: false,
            selected_ratios: Vec::new(),
            ratio_landscape_selected: false,
            ratio_portrait_selected: false,
            ratio_all_selected: false,
            sorting_picker_expanded: false,
            time_range_picker_expanded: false,
            request_context,
            pending_set_wallpaper_filename: None,
            modal_download_cancel_token: None,
            modal_download_progress: None,
            modal_downloaded_bytes: 0,
            modal_total_bytes: 0,
            thumb_load_cancel_tokens: Vec::new(),
            favorite_ids: Vec::new(),
            thumbs_stale: false,
        }
    }

    /// A new page with the filters that the configuration section holds.
    pub fn load_from_config(config: &WallhavenConfig, request_context: C) -> (r: Self)
        ensures
            r.wf(),
            r.is_fresh(request_context),
            r.filters() == config_filters(config@),
    {
        let mut state = Self::new(request_context);
        state.categories = parse_mask(config.category.as_str(), 4);
        state.purities = parse_mask(config.purity.as_str(), 4);
        if config.api_key.as_str().unicode_len() == 0 {
            state.purities = state.purities & !Purity::NSFW.bit_value();
        }
        state.sorting = Sorting::parse(config.sorting.as_str());
        state.color = ColorOption::parse(config.color.as_str());
        state.time_range = TimeRange::parse(config.top_range.as_str());
        state.resolution_mode = ResolutionMode::parse(config.resolution_mode.as_str());
        state.atleast_resolution = Resolution::parse(config.atleast_resolution.as_str());
        state.selected_resolutions = load_resolutions(config.resolutions.as_str());
        let (ratios, landscape, portrait, all) = load_ratios(config.ratios.as_str());
        state.selected_ratios = ratios;
        state.ratio_landscape_selected = landscape;
        state.ratio_portrait_selected = portrait;
        state.ratio_all_selected = all;
        state
    }

    /// Writes the filter selection into the configuration section (in memory;
    /// the caller has it saved).
    pub fn save_to_config(&self, config: &mut WallhavenConfig)
        ensures
            final(config)@ == saved_config(self.filters(), old(config)@),
    {
        config.category = format_mask(self.categories);
        config.purity = format_mask(self.purities);
        config.sorting = self.sorting.value().to_owned();
        config.color = self.color.value().to_owned();
        config.top_range = self.time_range.value().to_owned();
        config.resolution_mode = self.resolution_mode.value().to_owned();
        config.atleast_resolution = match self.atleast_resolution {
            Some(r) => r.value().to_owned(),
            None => String::new(),
        };
        config.resolutions = join_resolutions(&self.selected_resolutions);
        config.ratios = if self.ratio_all_selected {
            "all".to_owned()
        } else {
            join_ratio_parts(
                self.ratio_landscape_selected,
                self.ratio_portrait_selected,
                &self.selected_ratios,
            )
        };
    }

    /// The category mask as the API takes it (`{:03b}`).
    pub fn get_categories_param(&self) -> (r: String)
        ensures
            r@ == mask_text(self.categories),
    {
        format_mask(self.categories)
    }

    /// The purity mask as the API takes it (`{:03b}`).
    pub fn get_purity_param(&self) -> (r: String)
        ensures
            r@ == mask_text(self.purities),
    {
        format_mask(self.purities)
    }

    /// Whether the next page should be loaded: a search has completed, no
    /// page is in flight and the last page is not loaded yet.
    pub fn should_load_next_page(&self) -> (r: bool)
        ensures
            r == (!self.last_page && !self.loading_page && self.has_loaded),
    {
        !self.last_page && !self.loading_page && self.has_loaded
    }

    /// Replaces the request context; returns the old one, whose requests the
    /// runtime cancels.
    pub fn cancel_and_new_context(&mut self, fresh: C) -> (old_context: C)
        ensures
            old_context == old(self).request_context,
            *final(self) == (OnlineState { request_context: fresh, ..*old(self) }),
    {
        let mut ctx = fresh;
        std::mem::swap(&mut self.request_context, &mut ctx);
        ctx
    }

    /// Stops the preview download: returns its cancel token (for the runtime
    /// to signal) and clears the progress.
    pub fn cancel_modal_download(&mut self) -> (token: Option<T>)
        ensures
            token == old(self).modal_download_cancel_token,
            *final(self) == (OnlineState {
                modal_download_cancel_token: None,
                modal_download_progress: None,
                modal_downloaded_bytes: 0,
                modal_total_bytes: 0,
                ..*old(self)
            }),
    {
        let token = self.modal_download_cancel_token.take();
        self.modal_download_progress = None;
        self.modal_downloaded_bytes = 0;
        self.modal_total_bytes = 0;
        token
    }

    /// Stops all thumbnail loads: returns their cancel tokens (for the
    /// runtime to signal) and forgets them.
    pub fn cancel_thumb_loads(&mut self) -> (tokens: Vec<T>)
        ensures
            tokens@ == old(self).thumb_load_cancel_tokens@,
            final(self).thumb_load_cancel_tokens@.len() == 0,
            *final(self) == (OnlineState {
                thumb_load_cancel_tokens: final(self).thumb_load_cancel_tokens,
                ..*old(self)
            }),
    {
        let mut tokens: Vec<T> = Vec::new();
        std::mem::swap(&mut self.thumb_load_cancel_tokens, &mut tokens);
        tokens
    }
}

/// The only task of a filter change: saving the configuration.
pub open spec fn saves_config<T, C>(tasks: Seq<OnlineTask<T, C>>) -> bool {
    tasks.len() == 1 && tasks[0] is SaveConfig
}

impl<H, T, C> OnlineState<H, T, C> {
    /// Writes the filters into the configuration and asks for it to be saved.
    fn persist_filters(&self, config: &mut WallhavenConfig) -> (tasks: Vec<OnlineTask<T, C>>)
        ensures
            final(config)@ == saved_config(self.filters(), old(config)@),
            saves_config(tasks@),
    {
        self.save_to_config(config);
        let mut tasks: Vec<OnlineTask<T, C>> = Vec::new();
        tasks.push(OnlineTask::SaveConfig);
        tasks
    }

    /// Adds the category to the category filter, or removes it.
    pub fn online_filter_category_toggled(
        &mut self,
        category: Category,
        config: &mut WallhavenConfig,
    ) -> (tasks: Vec<OnlineTask<T, C>>)
        ensures
            *final(self) == (OnlineState {
                categories: old(self).categories ^ category_bit(category),
                ..*old(self)
            }),
            final(config)@ == saved_config(final(self).filters(), old(config)@),
            saves_config(tasks@),
    {
        self.categories = self.categories ^ category.bit_value();
        self.persist_filters(config)
    }

    pub fn online_filter_sorting_changed(&mut self, sorting: Sorting, config: &mut WallhavenConfig) -> (tasks: Vec<
        OnlineTask<T, C>,
    >)
        ensures
            *final(self) == (OnlineState { sorting, ..*old(self) }),
            final(config)@ == saved_config(final(self).filters(), old(config)@),
            saves_config(tasks@),
    {
        self.sorting = sorting;
        self.persist_filters(config)
    }

    /// Adds the purity to the purity filter, or removes it.
    pub fn online_filter_purity_toggled(&mut self, purity: Purity, config: &mut WallhavenConfig) -> (tasks: Vec<
        OnlineTask<T, C>,
    >)
        ensures
            *final(self) == (OnlineState {
                purities: old(self).purities ^ purity_bit(purity),
                ..*old(self)
            }),
            final(config)@ == saved_config(final(self).filters(), old(config)@),
            saves_config(tasks@),
    {
        self.purities = self.purities ^ purity.bit_value();
        self.persist_filters(config)
    }

    pub fn online_filter_search_text_changed(&mut self, text: String)
        ensures
            *final(self) == (OnlineState { search_text: text, ..*old(self) }),
    {
        self.search_text = text;
    }

    pub fn online_filter_resolution_changed(
        &mut self,
        resolution: Resolution,
        config: &mut WallhavenConfig,
    ) -> (tasks: Vec<OnlineTask<T, C>>)
        ensures
            *final(self) == (OnlineState { resolution, ..*old(self) }),
            final(config)@ == saved_config(final(self).filters(), old(config)@),
            saves_config(tasks@),
    {
        self.resolution = resolution;
        self.persist_filters(config)
    }

    pub fn online_filter_ratio_changed(&mut self, ratio: Ratio, config: &mut WallhavenConfig) -> (tasks: Vec<
        OnlineTask<T, C>,
    >)
        ensures
            *final(self) == (OnlineState { ratio, ..*old(self) }),
            final(config)@ == saved_config(final(self).filters(), old(config)@),
            saves_config(tasks@),
    {
        self.ratio = ratio;
        self.persist_filters(config)
    }

    /// Selects a color and closes the color picker.
    pub fn online_filter_color_changed(&mut self, color: ColorOption, config: &mut WallhavenConfig) -> (tasks: Vec<
        OnlineTask<T, C>,
    >)
        ensures
            *final(self) == (OnlineState { color, color_picker_expanded: false, ..*old(self) }),
            final(config)@ == saved_config(final(self).filters(), old(config)@),
            saves_config(tasks@),
    {
        self.color = color;
        let tasks = self.persist_filters(config);
        self.color_picker_expanded = false;
        tasks
    }

    pub fn online_filter_time_range_changed(
        &mut self,
        time_range: TimeRange,
        config: &mut WallhavenConfig,
    ) -> (tasks: Vec<OnlineTask<T, C>>)
        ensures
            *final(self) == (OnlineState { time_range, ..*old(self) }),
            final(config)@ == saved_config(final(self).filters(), old(config)@),
            saves_config(tasks@),
    {
        self.time_range = time_range;
        self.persist_filters(config)
    }

    /// Switches the resolution mode and forgets the resolutions chosen before.
    pub fn online_filter_resolution_mode_changed(
        &mut self,
        mode: ResolutionMode,
        config: &mut WallhavenConfig,
    ) -> (tasks: Vec<OnlineTask<T, C>>)
        ensures
            final(self).selected_resolutions@.len() == 0,
            *final(self) == (OnlineState {
                resolution_mode: mode,
                selected_resolutions: final(self).selected_resolutions,
                atleast_resolution: None,
                ..*old(self)
            }),
            final(config)@ == saved_config(final(self).filters(), old(config)@),
            saves_config(tasks@),
    {
        self.resolution_mode = mode;
        self.selected_resolutions = Vec::new();
        self.atleast_resolution = None;
        self.persist_filters(config)
    }

    /// Adds the resolution to the exact resolutions, or removes its first occurrence.
    pub fn online_filter_resolution_toggled(
        &mut self,
        resolution: Resolution,
        config: &mut WallhavenConfig,
    ) -> (tasks: Vec<OnlineTask<T, C>>)
        ensures
            final(self).selected_resolutions@ == toggled(old(self).selected_resolutions@, resolution),
            *final(self) == (OnlineState {
                selected_resolutions: final(self).selected_resolutions,
                ..*old(self)
            }),
            final(config)@ == saved_config(final(self).filters(), old(config)@),
            saves_config(tasks@),
    {
        toggle_resolution(&mut self.selected_resolutions, resolution);
        self.persist_filters(config)
    }

    /// Chooses the resolution of the minimum mode.
    pub fn online_filter_resolution_atleast_selected(
        &mut self,
        resolution: Resolution,
        config: &mut WallhavenConfig,
    ) -> (tasks: Vec<OnlineTask<T, C>>)
        ensures
            *final(self) == (OnlineState { atleast_resolution: Some(resolution), ..*old(self) }),
            final(config)@ == saved_config(final(self).filters(), old(config)@),
            saves_config(tasks@),
    {
        self.atleast_resolution = Some(resolution);
        self.persist_filters(config)
    }

    /// Adds the ratio to the selected ratios, or removes its first occurrence.
    pub fn online_filter_ratio_toggled(&mut self, ratio: AspectRatio, config: &mut WallhavenConfig) -> (tasks: Vec<
        OnlineTask<T, C>,
    >)
        ensures
            final(self).selected_ratios@ == toggled(old(self).selected_ratios@, ratio),
            *final(self) == (OnlineState {
                selected_ratios: final(self).selected_ratios,
                ..*old(self)
            }),
            final(config)@ == saved_config(final(self).filters(), old(config)@),
            saves_config(tasks@),
    {
        toggle_ratio(&mut self.selected_ratios, ratio);
        self.persist_filters(config)
    }

    /// Flips "all landscape"; turning it on drops the wide and ultrawide ratios
    /// it covers from the selection.
    pub fn online_filter_ratio_landscape_toggled(&mut self, config: &mut WallhavenConfig) -> (tasks: Vec<
        OnlineTask<T, C>,
    >)
        ensures
            final(self).ratio_landscape_selected == !old(self).ratio_landscape_selected,
            final(self).selected_ratios@ == without_groups(
                old(self).selected_ratios@,
                final(self).ratio_landscape_selected,
                false,
            ),
            *final(self) == (OnlineState {
                ratio_landscape_selected: final(self).ratio_landscape_selected,
                selected_ratios: final(self).selected_ratios,
                ..*old(self)
            }),
            final(config)@ == saved_config(final(self).filters(), old(config)@),
            saves_config(tasks@),
    {
        self.ratio_landscape_selected = !self.ratio_landscape_selected;
        self.selected_ratios = remove_groups(&self.selected_ratios, self.ratio_landscape_selected, false);
        self.persist_filters(config)
    }

    /// Flips "all portrait"; turning it on drops the portrait ratios it covers
    /// from the selection.
    pub fn online_filter_ratio_portrait_toggled(&mut self, config: &mut WallhavenConfig) -> (tasks: Vec<
        OnlineTask<T, C>,
    >)
        ensures
            final(self).ratio_portrait_selected == !old(self).ratio_portrait_selected,
            final(self).selected_ratios@ == without_groups(
                old(self).selected_ratios@,
                false,
                final(self).ratio_portrait_selected,
            ),
            *final(self) == (OnlineState {
                ratio_portrait_selected: final(self).ratio_portrait_selected,
                selected_ratios: final(self).selected_ratios,
                ..*old(self)
            }),
            final(config)@ == saved_config(final(self).filters(), old(config)@),
            saves_config(tasks@),
    {
        self.ratio_portrait_selected = !self.ratio_portrait_selected;
        self.selected_ratios = remove_groups(&self.selected_ratios, false, self.ratio_portrait_selected);
        self.persist_filters(config)
    }

    /// Flips "all ratios"; turning it on clears every other ratio option.
    pub fn online_filter_ratio_all_toggled(&mut self, config: &mut WallhavenConfig) -> (tasks: Vec<
        OnlineTask<T, C>,
    >)
        ensures
            final(self).ratio_all_selected == !old(self).ratio_all_selected,
            final(self).ratio_all_selected ==> !final(self).ratio_landscape_selected
                && !final(self).ratio_portrait_selected && final(self).selected_ratios@.len() == 0,
            !final(self).ratio_all_selected ==> (*final(self) == (OnlineState {
                ratio_all_selected: false,
                ..*old(self)
            })),
            *final(self) == (OnlineState {
                ratio_all_selected: final(self).ratio_all_selected,
                ratio_landscape_selected: final(self).ratio_landscape_selected,
                ratio_portrait_selected: final(self).ratio_portrait_selected,
                selected_ratios: final(self).selected_ratios,
                ..*old(self)
            }),
            final(config)@ == saved_config(final(self).filters(), old(config)@),
            saves_config(tasks@),
    {
        self.ratio_all_selected = !self.ratio_all_selected;
        if self.ratio_all_selected {
            self.ratio_landscape_selected = false;
            self.ratio_portrait_selected = false;
            self.selected_ratios = Vec::new();
        }
        self.persist_filters(config)
    }

    pub fn online_filter_color_picker_expanded(&mut self)
        ensures
            *final(self) == (OnlineState {
                color_picker_expanded: !old(self).color_picker_expanded,
                ..*old(self)
            }),
    {
        self.color_picker_expanded = !self.color_picker_expanded;
    }

    pub fn online_filter_color_picker_dismiss(&mut self)
        ensures
            *final(self) == (OnlineState { color_picker_expanded: false, ..*old(self) }),
    {
        self.color_picker_expanded = false;
    }

    pub fn online_filter_resolution_picker_expanded(&mut self)
        ensures
            *final(self) == (OnlineState {
                resolution_picker_expanded: !old(self).resolution_picker_expanded,
                ..*old(self)
            }),
    {
        self.resolution_picker_expanded = !self.resolution_picker_expanded;
    }

    pub fn online_filter_resolution_picker_dismiss(&mut self)
        ensures
            *final(self) == (OnlineState { resolution_picker_expanded: false, ..*old(self) }),
    {
        self.resolution_picker_expanded = false;
    }

    pub fn online_filter_ratio_picker_expanded(&mut self)
        ensures
            *final(self) == (OnlineState {
                ratio_picker_expanded: !old(self).ratio_picker_expanded,
                ..*old(self)
            }),
    {
        self.ratio_picker_expanded = !self.ratio_picker_expanded;
    }

    pub fn online_filter_ratio_picker_dismiss(&mut self)
        ensures
            *final(self) == (OnlineState { ratio_picker_expanded: false, ..*old(self) }),
    {
        self.ratio_picker_expanded = false;
    }

    pub fn online_filter_sorting_picker_expanded(&mut self)
        ensures
            *final(self) == (OnlineState {
                sorting_picker_expanded: !old(self).sorting_picker_expanded,
                ..*old(self)
            }),
    {
        self.sorting_picker_expanded = !self.sorting_picker_expanded;
    }

    pub fn online_filter_sorting_picker_dismiss(&mut self)
        ensures
            *final(self) == (OnlineState { sorting_picker_expanded: false, ..*old(self) }),
    {
        self.sorting_picker_expanded = false;
    }

    pub fn online_filter_time_range_picker_expanded(&mut self)
        ensures
            *final(self) == (OnlineState {
                time_range_picker_expanded: !old(self).time_range_picker_expanded,
                ..*old(self)
            }),
    {
        self.time_range_picker_expanded = !self.time_range_picker_expanded;
    }

    pub fn online_filter_time_range_picker_dismiss(&mut self)
        ensures
            *final(self) == (OnlineState { time_range_picker_expanded: false, ..*old(self) }),
    {
        self.time_range_picker_expanded = false;
    }
}

} // verus!
