//! What the filter bar, the pickers and the result list show for a state:
//! captions, which cells are selected or disabled, which list content is
//! drawn and how the list splits into pages. Drawing itself is left to the
//! user interface.

use vstd::prelude::*;
use crate::filters::ResolutionMode;
use crate::state::OnlineState;
use crate::wallhaven::{
    AspectRatio, Category, ColorOption, Purity, Resolution, Sorting, category_bit,
    is_landscape_ratio, is_portrait_ratio, purity_bit,
};

verus! {

/// Whether a picker cell is drawn as selected, and whether it takes presses.
#[derive(Debug, Clone, Copy, PartialEq, Eq, Structural)]
pub struct CellState {
    pub selected: bool,
    pub disabled: bool,
}

/// The three option buttons above the ratio grid.
#[derive(Debug, Clone, Copy, PartialEq, Eq, Structural)]
pub struct RatioModeCells {
    pub landscape: CellState,
    pub portrait: CellState,
    pub all: CellState,
}

/// What pressing a resolution cell does.
#[derive(Debug, Clone, Copy, PartialEq, Eq, Structural)]
pub enum ResolutionPress {
    /// Makes the resolution the minimum (minimum mode).
    SelectAtLeast(Resolution),
    /// Adds or removes the resolution (exact mode).
    Toggle(Resolution),
}

/// Caption of the resolution picker button.
#[derive(Debug, Clone, Copy, PartialEq, Eq, Structural)]
pub enum ResolutionCaption {
    /// The picker's own label.
    Label,
    /// `>=` and the minimum resolution.
    AtLeast(Resolution),
    /// The smallest selected resolution, then `+` and the count of the others
    /// where there are any.
    Exactly { smallest: Resolution, more: usize },
}

/// Caption of the ratio picker button: the first selected item, then `+`
/// and the count of the others where there are any.
#[derive(Debug, Clone, Copy, PartialEq, Eq, Structural)]
pub enum RatioCaption {
    /// The picker's own label.
    Label,
    Landscape { more: usize },
    Portrait { more: usize },
    Ratio { first: AspectRatio, more: usize },
}

/// What the result list area shows.
#[derive(Debug, Clone, Copy, PartialEq, Eq, Structural)]
pub enum ListContent {
    /// Nothing was searched yet.
    NotStarted,
    /// The first page is on its way.
    Loading,
    /// The search found nothing.
    Empty,
    /// The wallpaper grid, page by page.
    Grid,
}

/// One page of the grid: the list entries `start..end` and its page number.
#[derive(Debug, Clone, Copy, PartialEq, Eq, Structural)]
pub struct PageSpan {
    pub start: usize,
    pub end: usize,
    pub page_num: usize,
}

/// Number of pixels of a resolution (`Any` counts none).
pub open spec fn pixel_count(r: Resolution) -> nat {
    match r {
        Resolution::Any => 0,
        Resolution::R2560x1080 => 2560 * 1080,
        Resolution::R2560x1440U => 2560 * 1440,
        Resolution::R3840x1600 => 3840 * 1600,
        Resolution::R1280x720 => 1280 * 720,
        Resolution::R1600x900 => 1600 * 900,
        Resolution::R1920x1080 => 1920 * 1080,
        Resolution::R2560x1440 => 2560 * 1440,
        Resolution::R3840x2160 => 3840 * 2160,
        Resolution::R1280x800 => 1280 * 800,
        Resolution::R1600x1000 => 1600 * 1000,
        Resolution::R1920x1200 => 1920 * 1200,
        Resolution::R2560x1600 => 2560 * 1600,
        Resolution::R3840x2400 => 3840 * 2400,
        Resolution::R1280x960 => 1280 * 960,
        Resolution::R1600x1200_4_3 => 1600 * 1200,
        Resolution::R1920x1440 => 1920 * 1440,
        Resolution::R2560x1920 => 2560 * 1920,
        Resolution::R3840x2880 => 3840 * 2880,
        Resolution::R1280x1024 => 1280 * 1024,
        Resolution::R1600x1280 => 1600 * 1280,
        Resolution::R1920x1536 => 1920 * 1536,
        Resolution::R2560x2048 => 2560 * 2048,
        Resolution::R3840x3072 => 3840 * 3072,
    }
}

impl Resolution {
    /// Width times height of the resolution.
    pub fn pixel_count(&self) -> (r: u64)
        ensures
            r == pixel_count(*self),
    {
        match self {
            Resolution::Any => 0,
            Resolution::R2560x1080 => 2560 * 1080,
            Resolution::R2560x1440U => 2560 * 1440,
            Resolution::R3840x1600 => 3840 * 1600,
            Resolution::R1280x720 => 1280 * 720,
            Resolution::R1600x900 => 1600 * 900,
            Resolution::R1920x1080 => 1920 * 1080,
            Resolution::R2560x1440 => 2560 * 1440,
            Resolution::R3840x2160 => 3840 * 2160,
            Resolution::R1280x800 => 1280 * 800,
            Resolution::R1600x1000 => 1600 * 1000,
            Resolution::R1920x1200 => 1920 * 1200,
            Resolution::R2560x1600 => 2560 * 1600,
            Resolution::R3840x2400 => 3840 * 2400,
            Resolution::R1280x960 => 1280 * 960,
            Resolution::R1600x1200_4_3 => 1600 * 1200,
            Resolution::R1920x1440 => 1920 * 1440,
            Resolution::R2560x1920 => 2560 * 1920,
            Resolution::R3840x2880 => 3840 * 2880,
            Resolution::R1280x1024 => 1280 * 1024,
            Resolution::R1600x1280 => 1600 * 1280,
            Resolution::R1920x1536 => 1920 * 1536,
            Resolution::R2560x2048 => 2560 * 2048,
            Resolution::R3840x3072 => 3840 * 3072,
        }
    }
}

/// `i` is the first position of a resolution with the fewest pixels in `rs`.
pub open spec fn is_first_smallest(rs: Seq<Resolution>, i: int) -> bool {
    &&& 0 <= i < rs.len()
    &&& forall|j: int| 0 <= j < rs.len() ==> pixel_count(rs[i]) <= pixel_count(#[trigger] rs[j])
    &&& forall|j: int| 0 <= j < i ==> pixel_count(rs[i]) < pixel_count(#[trigger] rs[j])
}

/// The position of the first resolution with the fewest pixels.
fn first_smallest(rs: &Vec<Resolution>) -> (i: usize)
    requires
        rs@.len() > 0,
    ensures
        is_first_smallest(rs@, i as int),
{
    let mut best: usize = 0;
    let mut best_px: u64 = rs[0].pixel_count();
    let mut k: usize = 1;
    while k < rs.len()
        invariant
            1 <= k <= rs@.len(),
            best < k,
            best_px == pixel_count(rs@[best as int]),
            forall|j: int| 0 <= j < k ==> pixel_count(rs@[best as int]) <= pixel_count(#[trigger] rs@[j]),
            forall|j: int| 0 <= j < best ==> pixel_count(rs@[best as int]) < pixel_count(#[trigger] rs@[j]),
        decreases rs@.len() - k,
    {
        let px = rs[k].pixel_count();
        if px < best_px {
            best = k;
            best_px = px;
        }
        k = k + 1;
    }
    best
}

/// Whether the grid cell of a ratio takes no presses: "all ratios" disables
/// every cell, "all landscape" the wide and ultrawide ones, "all portrait"
/// the portrait ones.
pub open spec fn ratio_cell_disabled(all: bool, landscape: bool, portrait: bool, r: AspectRatio) -> bool {
    all || (landscape && is_landscape_ratio(r)) || (portrait && is_portrait_ratio(r))
}

/// A column of the resolution picker.
#[derive(Debug, Clone, Copy, PartialEq, Eq, Structural)]
pub enum ResolutionGroup {
    Ultrawide,
    Wide16x9,
    Wide16x10,
    Standard4x3,
    Standard5x4,
}

/// The columns of the resolution picker, left to right.
pub open spec fn resolution_group_order() -> Seq<ResolutionGroup> {
    seq![
        ResolutionGroup::Ultrawide,
        ResolutionGroup::Wide16x9,
        ResolutionGroup::Wide16x10,
        ResolutionGroup::Standard4x3,
        ResolutionGroup::Standard5x4,
    ]
}

/// The cells of a resolution picker column, top to bottom.
pub open spec fn resolution_group_members(g: ResolutionGroup) -> Seq<Resolution> {
    match g {
        ResolutionGroup::Ultrawide => seq![
            Resolution::R2560x1080,
            Resolution::R2560x1440U,
            Resolution::R3840x1600,
        ],
        ResolutionGroup::Wide16x9 => seq![
            Resolution::R1280x720,
            Resolution::R1600x900,
            Resolution::R1920x1080,
            Resolution::R2560x1440,
            Resolution::R3840x2160,
        ],
        ResolutionGroup::Wide16x10 => seq![
            Resolution::R1280x800,
            Resolution::R1600x1000,
            Resolution::R1920x1200,
            Resolution::R2560x1600,
            Resolution::R3840x2400,
        ],
        ResolutionGroup::Standard4x3 => seq![
            Resolution::R1280x960,
            Resolution::R1600x1200_4_3,
            Resolution::R1920x1440,
            Resolution::R2560x1920,
            Resolution::R3840x2880,
        ],
        ResolutionGroup::Standard5x4 => seq![
            Resolution::R1280x1024,
            Resolution::R1600x1280,
            Resolution::R1920x1536,
            Resolution::R2560x2048,
            Resolution::R3840x3072,
        ],
    }
}

/// A column of the ratio picker.
#[derive(Debug, Clone, Copy, PartialEq, Eq, Structural)]
pub enum RatioGroup {
    Wide,
    Ultrawide,
    Portrait,
    Square,
}

/// The columns of the ratio picker, left to right.
pub open spec fn ratio_group_order() -> Seq<RatioGroup> {
    seq![RatioGroup::Wide, RatioGroup::Ultrawide, RatioGroup::Portrait, RatioGroup::Square]
}

/// The cells of a ratio picker column, top to bottom.
pub open spec fn ratio_group_members(g: RatioGroup) -> Seq<AspectRatio> {
    match g {
        RatioGroup::Wide => seq![AspectRatio::R16x9, AspectRatio::R16x10],
        RatioGroup::Ultrawide => seq![AspectRatio::R21x9, AspectRatio::R32x9, AspectRatio::R48x9],
        RatioGroup::Portrait => seq![AspectRatio::R9x16, AspectRatio::R10x16, AspectRatio::R9x18],
        RatioGroup::Square => seq![
            AspectRatio::R1x1,
            AspectRatio::R3x2,
            AspectRatio::R4x3,
            AspectRatio::R5x4,
        ],
    }
}

/// The color picker's cells, row by row, six to a row: the 29 colors, then
/// "any color" last.
pub open spec fn color_grid_order() -> Seq<ColorOption> {
    seq![
        ColorOption::Color660000,
        ColorOption::Color990000,
        ColorOption::ColorCC0000,
        ColorOption::ColorCC3333,
        ColorOption::ColorEA4C88,
        ColorOption::Color993399,
        ColorOption::Color663399,
        ColorOption::Color333399,
        ColorOption::Color0066CC,
        ColorOption::Color0099CC,
        ColorOption::Color66CCCC,
        ColorOption::Color77CC33,
        ColorOption::Color669900,
        ColorOption::Color336600,
        ColorOption::Color666600,
        ColorOption::Color999900,
        ColorOption::ColorCCCC33,
        ColorOption::ColorFFFF00,
        ColorOption::ColorFFCC33,
        ColorOption::ColorFF9900,
        ColorOption::ColorFF6600,
        ColorOption::ColorCC6633,
        ColorOption::Color996633,
        ColorOption::Color663300,
        ColorOption::Color000000,
        ColorOption::Color999999,
        ColorOption::ColorCCCCCC,
        ColorOption::ColorFFFFFF,
        ColorOption::Color424153,
        ColorOption::Any,
    ]
}

/// The columns of the resolution picker, left to right.
pub fn resolution_groups() -> (r: Vec<ResolutionGroup>)
    ensures
        r@ == resolution_group_order(),
{
    let r = vec![
        ResolutionGroup::Ultrawide,
        ResolutionGroup::Wide16x9,
        ResolutionGroup::Wide16x10,
        ResolutionGroup::Standard4x3,
        ResolutionGroup::Standard5x4,
    ];
    assert(r@ =~= resolution_group_order());
    r
}

/// The cells of a resolution picker column, top to bottom (each labelled
/// with its resolution's text).
pub fn resolution_group_cells(g: ResolutionGroup) -> (r: Vec<Resolution>)
    ensures
        r@ == resolution_group_members(g),
{
    let r = match g {
        ResolutionGroup::Ultrawide => vec![
            Resolution::R2560x1080,
            Resolution::R2560x1440U,
            Resolution::R3840x1600,
        ],
        ResolutionGroup::Wide16x9 => vec![
            Resolution::R1280x720,
            Resolution::R1600x900,
            Resolution::R1920x1080,
            Resolution::R2560x1440,
            Resolution::R3840x2160,
        ],
        ResolutionGroup::Wide16x10 => vec![
            Resolution::R1280x800,
            Resolution::R1600x1000,
            Resolution::R1920x1200,
            Resolution::R2560x1600,
            Resolution::R3840x2400,
        ],
        ResolutionGroup::Standard4x3 => vec![
            Resolution::R1280x960,
            Resolution::R1600x1200_4_3,
            Resolution::R1920x1440,
            Resolution::R2560x1920,
            Resolution::R3840x2880,
        ],
        ResolutionGroup::Standard5x4 => vec![
            Resolution::R1280x1024,
            Resolution::R1600x1280,
            Resolution::R1920x1536,
            Resolution::R2560x2048,
            Resolution::R3840x3072,
        ],
    };
    assert(r@ =~= resolution_group_members(g));
    r
}

/// The columns of the ratio picker, left to right.
pub fn ratio_groups() -> (r: Vec<RatioGroup>)
    ensures
        r@ == ratio_group_order(),
{
    let r = vec![RatioGroup::Wide, RatioGroup::Ultrawide, RatioGroup::Portrait, RatioGroup::Square];
    assert(r@ =~= ratio_group_order());
    r
}

/// The cells of a ratio picker column, top to bottom.
pub fn ratio_group_cells(g: RatioGroup) -> (r: Vec<AspectRatio>)
    ensures
        r@ == ratio_group_members(g),
{
    let r = match g {
        RatioGroup::Wide => vec![AspectRatio::R16x9, AspectRatio::R16x10],
        RatioGroup::Ultrawide => vec![AspectRatio::R21x9, AspectRatio::R32x9, AspectRatio::R48x9],
        RatioGroup::Portrait => vec![AspectRatio::R9x16, AspectRatio::R10x16, AspectRatio::R9x18],
        RatioGroup::Square => vec![
            AspectRatio::R1x1,
            AspectRatio::R3x2,
            AspectRatio::R4x3,
            AspectRatio::R5x4,
        ],
    };
    assert(r@ =~= ratio_group_members(g));
    r
}

/// The color picker's cells, row by row, six to a row.
pub fn color_grid() -> (r: Vec<ColorOption>)
    ensures
        r@ == color_grid_order(),
{
    let r = vec![
        ColorOption::Color660000,
        ColorOption::Color990000,
        ColorOption::ColorCC0000,
        ColorOption::ColorCC3333,
        ColorOption::ColorEA4C88,
        ColorOption::Color993399,
        ColorOption::Color663399,
        ColorOption::Color333399,
        ColorOption::Color0066CC,
        ColorOption::Color0099CC,
        ColorOption::Color66CCCC,
        ColorOption::Color77CC33,
        ColorOption::Color669900,
        ColorOption::Color336600,
        ColorOption::Color666600,
        ColorOption::Color999900,
        ColorOption::ColorCCCC33,
        ColorOption::ColorFFFF00,
        ColorOption::ColorFFCC33,
        ColorOption::ColorFF9900,
        ColorOption::ColorFF6600,
        ColorOption::ColorCC6633,
        ColorOption::Color996633,
        ColorOption::Color663300,
        ColorOption::Color000000,
        ColorOption::Color999999,
        ColorOption::ColorCCCCCC,
        ColorOption::ColorFFFFFF,
        ColorOption::Color424153,
        ColorOption::Any,
    ];
    assert(r@ =~= color_grid_order());
    r
}

/// Whether the NSFW purity toggle is offered: only with an API key.
pub fn shows_nsfw_toggle(api_key: &str) -> (r: bool)
    ensures
        r == (api_key@.len() > 0),
{
    !api_key.is_empty()
}

impl<H, T, C> OnlineState<H, T, C> {
    /// Whether a category's toggle is drawn checked.
    pub fn category_checked(&self, c: Category) -> (r: bool)
        ensures
            r == (self.categories & category_bit(c) != 0),
    {
        self.categories & c.bit_value() != 0
    }

    /// Whether a purity's toggle is drawn checked.
    pub fn purity_checked(&self, p: Purity) -> (r: bool)
        ensures
            r == (self.purities & purity_bit(p) != 0),
    {
        self.purities & p.bit_value() != 0
    }

    /// The time range picker is shown for the top list only.
    pub fn shows_time_range_picker(&self) -> (r: bool)
        ensures
            r == (self.sorting == Sorting::TopList),
    {
        self.sorting == Sorting::TopList
    }

    /// The option buttons above the ratio grid: each shows its option, and
    /// "all ratios" disables the two group options.
    pub fn ratio_mode_cells(&self) -> (r: RatioModeCells)
        ensures
            r == (RatioModeCells {
                landscape: CellState {
                    selected: self.ratio_landscape_selected,
                    disabled: self.ratio_all_selected,
                },
                portrait: CellState {
                    selected: self.ratio_portrait_selected,
                    disabled: self.ratio_all_selected,
                },
                all: CellState { selected: self.ratio_all_selected, disabled: false },
            }),
    {
        RatioModeCells {
            landscape: CellState {
                selected: self.ratio_landscape_selected,
                disabled: self.ratio_all_selected,
            },
            portrait: CellState {
                selected: self.ratio_portrait_selected,
                disabled: self.ratio_all_selected,
            },
            all: CellState { selected: self.ratio_all_selected, disabled: false },
        }
    }

    /// The grid cell of a ratio: selected when the ratio is in the selection,
    /// disabled as `ratio_cell_disabled` says.
    pub fn ratio_cell(&self, r: AspectRatio) -> (c: CellState)
        ensures
            c.selected == self.selected_ratios@.contains(r),
            c.disabled == ratio_cell_disabled(
                self.ratio_all_selected,
                self.ratio_landscape_selected,
                self.ratio_portrait_selected,
                r,
            ),
    {
        let mut selected = false;
        let mut k: usize = 0;
        while k < self.selected_ratios.len()
            invariant
                k <= self.selected_ratios@.len(),
                selected == exists|j: int| 0 <= j < k && self.selected_ratios@[j] == r,
            decreases self.selected_ratios@.len() - k,
        {
            if self.selected_ratios[k] == r {
                selected = true;
            }
            k = k + 1;
        }
        proof {
            if selected {
                let j = choose|j: int| 0 <= j < k && self.selected_ratios@[j] == r;
                assert(self.selected_ratios@.contains(r));
            }
            if self.selected_ratios@.contains(r) {
                let j = choose|j: int| 0 <= j < self.selected_ratios@.len() && self.selected_ratios@[j] == r;
                assert(0 <= j < k && self.selected_ratios@[j] == r);
            }
        }
        let disabled = self.ratio_all_selected || (self.ratio_landscape_selected && r.is_landscape())
            || (self.ratio_portrait_selected && r.is_portrait());
        CellState { selected, disabled }
    }

    /// The grid cell of a resolution and what pressing it does. In minimum
    /// mode the cell of the minimum is selected and a press picks it as the
    /// minimum; otherwise a cell is selected when its resolution is in the
    /// exact selection and a press toggles it. "All" disables every cell.
    pub fn resolution_cell(&self, r: Resolution) -> (out: (CellState, ResolutionPress))
        ensures
            out.0.disabled == (self.resolution_mode == ResolutionMode::All),
            self.resolution_mode == ResolutionMode::AtLeast ==> out.0.selected == (
            self.atleast_resolution == Some(r)) && out.1 == ResolutionPress::SelectAtLeast(r),
            self.resolution_mode != ResolutionMode::AtLeast ==> out.0.selected
                == self.selected_resolutions@.contains(r) && out.1 == ResolutionPress::Toggle(r),
    {
        let disabled = match self.resolution_mode {
            ResolutionMode::All => true,
            _ => false,
        };
        match self.resolution_mode {
            ResolutionMode::AtLeast => {
                let selected = match self.atleast_resolution {
                    Some(a) => a == r,
                    None => false,
                };
                (CellState { selected, disabled }, ResolutionPress::SelectAtLeast(r))
            },
            _ => {
                let mut selected = false;
                let mut k: usize = 0;
                while k < self.selected_resolutions.len()
                    invariant
                        k <= self.selected_resolutions@.len(),
                        selected == exists|j: int| 0 <= j < k && self.selected_resolutions@[j] == r,
                    decreases self.selected_resolutions@.len() - k,
                {
                    if self.selected_resolutions[k] == r {
                        selected = true;
                    }
                    k = k + 1;
                }
                proof {
                    if selected {
                        let j = choose|j: int| 0 <= j < k && self.selected_resolutions@[j] == r;
                        assert(self.selected_resolutions@.contains(r));
                    }
                    if self.selected_resolutions@.contains(r) {
                        let j = choose|j: int|
                            0 <= j < self.selected_resolutions@.len() && self.selected_resolutions@[j] == r;
                        assert(0 <= j < k && self.selected_resolutions@[j] == r);
                    }
                }
                (CellState { selected, disabled }, ResolutionPress::Toggle(r))
            },
        }
    }

    /// Caption of the resolution picker: the label in "all" mode and where
    /// nothing is picked; `>=` and the minimum in minimum mode; in exact mode
    /// the first of the selected resolutions with the fewest pixels and the
    /// count of the other selected ones.
    pub fn resolution_caption(&self) -> (r: ResolutionCaption)
        ensures
            self.resolution_mode == ResolutionMode::All ==> r == ResolutionCaption::Label,
            self.resolution_mode == ResolutionMode::AtLeast ==> r == match self.atleast_resolution {
                Some(a) => ResolutionCaption::AtLeast(a),
                None => ResolutionCaption::Label,
            },
            self.resolution_mode == ResolutionMode::Exactly ==> (if self.selected_resolutions@.len()
                == 0 {
                r == ResolutionCaption::Label
            } else {
                exists|i: int|
                    is_first_smallest(self.selected_resolutions@, i) && r
                        == (ResolutionCaption::Exactly {
                        smallest: #[trigger] self.selected_resolutions@[i],
                        more: (self.selected_resolutions@.len() - 1) as usize,
                    })
            }),
    {
        match self.resolution_mode {
            ResolutionMode::All => ResolutionCaption::Label,
            ResolutionMode::AtLeast => match self.atleast_resolution {
                Some(a) => ResolutionCaption::AtLeast(a),
                None => ResolutionCaption::Label,
            },
            ResolutionMode::Exactly => {
                if self.selected_resolutions.len() == 0 {
                    ResolutionCaption::Label
                } else {
                    let i = first_smallest(&self.selected_resolutions);
                    let r = ResolutionCaption::Exactly {
                        smallest: self.selected_resolutions[i],
                        more: self.selected_resolutions.len() - 1,
                    };
                    assert(is_first_smallest(self.selected_resolutions@, i as int));
                    r
                }
            },
        }
    }

    /// Caption of the ratio picker: the label where "all ratios" is on or
    /// nothing is picked; otherwise the first picked item ("all landscape",
    /// then "all portrait", then the first selected ratio) and the count of
    /// the other picked items.
    pub fn ratio_caption(&self) -> (r: RatioCaption)
        requires
            self.selected_ratios@.len() < usize::MAX,
        ensures
            ({
                let total = self.selected_ratios@.len() + (if self.ratio_landscape_selected {
                    1int
                } else {
                    0int
                }) + (if self.ratio_portrait_selected {
                    1int
                } else {
                    0int
                });
                r == if self.ratio_all_selected || total == 0 {
                    RatioCaption::Label
                } else if self.ratio_landscape_selected {
                    RatioCaption::Landscape { more: (total - 1) as usize }
                } else if self.ratio_portrait_selected {
                    RatioCaption::Portrait { more: (total - 1) as usize }
                } else {
                    RatioCaption::Ratio {
                        first: self.selected_ratios@[0],
                        more: (total - 1) as usize,
                    }
                }
            }),
    {
        if self.ratio_all_selected {
            return RatioCaption::Label;
        }
        let n = self.selected_ratios.len();
        if self.ratio_landscape_selected {
            let more = if self.ratio_portrait_selected {
                n + 1
            } else {
                n
            };
            RatioCaption::Landscape { more }
        } else if self.ratio_portrait_selected {
            RatioCaption::Portrait { more: n }
        } else if n == 0 {
            RatioCaption::Label
        } else {
            RatioCaption::Ratio { first: self.selected_ratios[0], more: n - 1 }
        }
    }

    /// What the list area shows: nothing searched yet, the first page on its
    /// way, an empty result, or the grid.
    pub fn list_content(&self) -> (r: ListContent)
        ensures
            r == if !self.has_loaded && !self.loading_page {
                ListContent::NotStarted
            } else if self.wallpapers@.len() == 0 && self.loading_page {
                ListContent::Loading
            } else if self.wallpapers@.len() == 0 && self.has_loaded {
                ListContent::Empty
            } else {
                ListContent::Grid
            },
    {
        if !self.has_loaded && !self.loading_page {
            ListContent::NotStarted
        } else if self.wallpapers.len() == 0 && self.loading_page {
            ListContent::Loading
        } else if self.wallpapers.len() == 0 && self.has_loaded {
            ListContent::Empty
        } else {
            ListContent::Grid
        }
    }

    /// The grid's pages in order: each starts where the one before it ended
    /// (the first at 0) and ends at its recorded end; together they cover
    /// the whole list.
    pub fn page_spans(&self) -> (r: Vec<PageSpan>)
        requires
            self.wf(),
        ensures
            r@.len() == self.page_info@.len(),
            r@.len() == 0 ==> self.wallpapers@.len() == 0,
            r@.len() > 0 ==> r@.last().end == self.wallpapers@.len(),
            forall|i: int|
                0 <= i < r@.len() ==> (#[trigger] r@[i]).end == self.page_info@[i].end_index
                    && r@[i].page_num == self.page_info@[i].page_num && r@[i].start == (if i == 0 {
                    0
                } else {
                    self.page_info@[i - 1].end_index
                }) && r@[i].start < r@[i].end && r@[i].end <= self.wallpapers@.len(),
    {
        let mut out: Vec<PageSpan> = Vec::new();
        let mut start: usize = 0;
        let mut k: usize = 0;
        while k < self.page_info.len()
            invariant
                self.wf(),
                k <= self.page_info@.len(),
                out@.len() == k,
                start == if k == 0 {
                    0
                } else {
                    self.page_info@[k - 1].end_index
                },
                forall|i: int|
                    0 <= i < k ==> (#[trigger] out@[i]).end == self.page_info@[i].end_index
                        && out@[i].page_num == self.page_info@[i].page_num && out@[i].start == (if i
                        == 0 {
                        0
                    } else {
                        self.page_info@[i - 1].end_index
                    }) && out@[i].start < out@[i].end && out@[i].end <= self.wallpapers@.len(),
            decreases self.page_info@.len() - k,
        {
            let p = self.page_info[k];
            proof {
                if k > 0 {
                    assert(self.page_info@[k - 1].end_index < self.page_info@[k as int].end_index);
                }
                assert(0 < self.page_info@[k as int].end_index <= self.wallpapers@.len());
            }
            out.push(PageSpan { start, end: p.end_index, page_num: p.page_num });
            start = p.end_index;
            k = k + 1;
        }
        out
    }
}

} // verus!
