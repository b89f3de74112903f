//! The Wallhaven filter vocabulary: categories, purities, sorting orders,
//! colors, time ranges, resolutions and aspect ratios, each with the name it
//! is written with in the API and in the configuration.

use vstd::prelude::*;
use crate::text::{is_ws, str_eq};

verus! {

/// Wallpaper category; a filter holds a set of them as a three-bit mask.
#[derive(Debug, Clone, Copy, PartialEq, Eq, Structural)]
pub enum Category {
    General,
    Anime,
    People,
}

/// Content purity; a filter holds a set of them as a three-bit mask.
#[derive(Debug, Clone, Copy, PartialEq, Eq, Structural)]
pub enum Purity {
    SFW,
    Sketchy,
    NSFW,
}

pub open spec fn category_bit(c: Category) -> u32 {
    match c {
        Category::General => 4,
        Category::Anime => 2,
        Category::People => 1,
    }
}

pub open spec fn purity_bit(p: Purity) -> u32 {
    match p {
        Purity::SFW => 4,
        Purity::Sketchy => 2,
        Purity::NSFW => 1,
    }
}

impl Category {
    /// The bit of this category in a category mask (`100` general, `010` anime, `001` people).
    pub fn bit_value(&self) -> (r: u32)
        ensures
            r == category_bit(*self),
    {
        match self {
            Category::General => 4,
            Category::Anime => 2,
            Category::People => 1,
        }
    }
}

impl Purity {
    /// The bit of this purity in a purity mask (`100` safe, `010` sketchy, `001` NSFW).
    pub fn bit_value(&self) -> (r: u32)
        ensures
            r == purity_bit(*self),
    {
        match self {
            Purity::SFW => 4,
            Purity::Sketchy => 2,
            Purity::NSFW => 1,
        }
    }
}

/// Single-choice aspect ratio filter of the simple filter bar.
#[derive(Debug, Clone, Copy, PartialEq, Eq, Structural)]
pub enum Ratio {
    Any,
    Landscape,
    Portrait,
}

/// Sorting order of search results.
#[derive(Debug, Clone, Copy, PartialEq, Eq, Structural)]
pub enum Sorting {
    DateAdded,
    Relevance,
    Random,
    Views,
    Favorites,
    TopList,
    Hot,
}

/// The name a `Sorting` is written with in the API and in the configuration.
pub open spec fn sorting_name(x: Sorting) -> Seq<char> {
    match x {
        Sorting::DateAdded => "date_added"@,
        Sorting::Relevance => "relevance"@,
        Sorting::Random => "random"@,
        Sorting::Views => "views"@,
        Sorting::Favorites => "favorites"@,
        Sorting::TopList => "toplist"@,
        Sorting::Hot => "hot"@,
    }
}

/// The `Sorting` a stored name denotes; an unknown name denotes `DateAdded`.
pub open spec fn sorting_of(s: Seq<char>) -> Sorting {
    if s == "date_added"@ {
        Sorting::DateAdded
    } else if s == "relevance"@ {
        Sorting::Relevance
    } else if s == "random"@ {
        Sorting::Random
    } else if s == "views"@ {
        Sorting::Views
    } else if s == "favorites"@ {
        Sorting::Favorites
    } else if s == "toplist"@ {
        Sorting::TopList
    } else if s == "hot"@ {
        Sorting::Hot
    } else {
        Sorting::DateAdded
    }
}

impl Sorting {
    /// The name this value is written with.
    pub fn value(&self) -> (r: &'static str)
        ensures
            r@ == sorting_name(*self),
    {
        match self {
            Sorting::DateAdded => "date_added",
            Sorting::Relevance => "relevance",
            Sorting::Random => "random",
            Sorting::Views => "views",
            Sorting::Favorites => "favorites",
            Sorting::TopList => "toplist",
            Sorting::Hot => "hot",
        }
    }

    /// Reads a stored name.
    pub fn parse(s: &str) -> (r: Sorting)
        ensures
            r == sorting_of(s@),
    {
        if str_eq(s, "date_added") {
            Sorting::DateAdded
        } else if str_eq(s, "relevance") {
            Sorting::Relevance
        } else if str_eq(s, "random") {
            Sorting::Random
        } else if str_eq(s, "views") {
            Sorting::Views
        } else if str_eq(s, "favorites") {
            Sorting::Favorites
        } else if str_eq(s, "toplist") {
            Sorting::TopList
        } else if str_eq(s, "hot") {
            Sorting::Hot
        } else {
            Sorting::DateAdded
        }
    }
}

/// Reading back the name of a value gives that value.
pub proof fn lemma_sorting_roundtrip(x: Sorting)
    ensures
        sorting_of(sorting_name(x)) == x,
{
    reveal_strlit("date_added");
    reveal_strlit("favorites");
    reveal_strlit("hot");
    reveal_strlit("random");
    reveal_strlit("relevance");
    reveal_strlit("toplist");
    reveal_strlit("views");
    assert("date_added"@.len() == 10 && "favorites"@.len() == 9 && "hot"@.len() == 3 && "random"@.len() == 6 && "relevance"@.len() == 9 && "toplist"@.len() == 7 && "views"@.len() == 5);
    assert("favorites"@[0] != "relevance"@[0]);
    assert(sorting_of("date_added"@) == Sorting::DateAdded);
    assert(sorting_of("relevance"@) == Sorting::Relevance);
    assert(sorting_of("random"@) == Sorting::Random);
    assert(sorting_of("views"@) == Sorting::Views);
    assert(sorting_of("favorites"@) == Sorting::Favorites);
    assert(sorting_of("toplist"@) == Sorting::TopList);
    assert(sorting_of("hot"@) == Sorting::Hot);
}

/// Time range of the toplist sorting.
#[derive(Debug, Clone, Copy, PartialEq, Eq, Structural)]
pub enum TimeRange {
    Day,
    ThreeDays,
    Week,
    Month,
    ThreeMonths,
    SixMonths,
    Year,
}

/// The name a `TimeRange` is written with in the API and in the configuration.
pub open spec fn time_range_name(x: TimeRange) -> Seq<char> {
    match x {
        TimeRange::Day => "1d"@,
        TimeRange::ThreeDays => "3d"@,
        TimeRange::Week => "1w"@,
        TimeRange::Month => "1M"@,
        TimeRange::ThreeMonths => "3M"@,
        TimeRange::SixMonths => "6M"@,
        TimeRange::Year => "1y"@,
    }
}

/// The `TimeRange` a stored name denotes; an unknown name denotes `Month`.
pub open spec fn time_range_of(s: Seq<char>) -> TimeRange {
    if s == "1d"@ {
        TimeRange::Day
    } else if s == "3d"@ {
        TimeRange::ThreeDays
    } else if s == "1w"@ {
        TimeRange::Week
    } else if s == "1M"@ {
        TimeRange::Month
    } else if s == "3M"@ {
        TimeRange::ThreeMonths
    } else if s == "6M"@ {
        TimeRange::SixMonths
    } else if s == "1y"@ {
        TimeRange::Year
    } else {
        TimeRange::Month
    }
}

impl TimeRange {
    /// The name this value is written with.
    pub fn value(&self) -> (r: &'static str)
        ensures
            r@ == time_range_name(*self),
    {
        match self {
            TimeRange::Day => "1d",
            TimeRange::ThreeDays => "3d",
            TimeRange::Week => "1w",
            TimeRange::Month => "1M",
            TimeRange::ThreeMonths => "3M",
            TimeRange::SixMonths => "6M",
            TimeRange::Year => "1y",
        }
    }

    /// Reads a stored name.
    pub fn parse(s: &str) -> (r: TimeRange)
        ensures
            r == time_range_of(s@),
    {
        if str_eq(s, "1d") {
            TimeRange::Day
        } else if str_eq(s, "3d") {
            TimeRange::ThreeDays
        } else if str_eq(s, "1w") {
            TimeRange::Week
        } else if str_eq(s, "1M") {
            TimeRange::Month
        } else if str_eq(s, "3M") {
            TimeRange::ThreeMonths
        } else if str_eq(s, "6M") {
            TimeRange::SixMonths
        } else if str_eq(s, "1y") {
            TimeRange::Year
        } else {
            TimeRange::Month
        }
    }
}

/// Reading back the name of a value gives that value.
pub proof fn lemma_time_range_roundtrip(x: TimeRange)
    ensures
        time_range_of(time_range_name(x)) == x,
{
    reveal_strlit("1M");
    reveal_strlit("1d");
    reveal_strlit("1w");
    reveal_strlit("1y");
    reveal_strlit("3M");
    reveal_strlit("3d");
    reveal_strlit("6M");
    assert("1M"@.len() == 2 && "1d"@.len() == 2 && "1w"@.len() == 2 && "1y"@.len() == 2 && "3M"@.len() == 2 && "3d"@.len() == 2 && "6M"@.len() == 2);
    assert("1M"@[1] != "1d"@[1]);
    assert("1M"@[1] != "1w"@[1]);
    assert("1M"@[1] != "1y"@[1]);
    assert("1M"@[0] != "3M"@[0]);
    assert("1M"@[0] != "3d"@[0]);
    assert("1M"@[0] != "6M"@[0]);
    assert("1d"@[1] != "1w"@[1]);
    assert("1d"@[1] != "1y"@[1]);
    assert("1d"@[0] != "3M"@[0]);
    assert("1d"@[0] != "3d"@[0]);
    assert("1d"@[0] != "6M"@[0]);
    assert("1w"@[1] != "1y"@[1]);
    assert("1w"@[0] != "3M"@[0]);
    assert("1w"@[0] != "3d"@[0]);
    assert("1w"@[0] != "6M"@[0]);
    assert("1y"@[0] != "3M"@[0]);
    assert("1y"@[0] != "3d"@[0]);
    assert("1y"@[0] != "6M"@[0]);
    assert("3M"@[1] != "3d"@[1]);
    assert("3M"@[0] != "6M"@[0]);
    assert("3d"@[0] != "6M"@[0]);
    assert(time_range_of("1d"@) == TimeRange::Day);
    assert(time_range_of("3d"@) == TimeRange::ThreeDays);
    assert(time_range_of("1w"@) == TimeRange::Week);
    assert(time_range_of("1M"@) == TimeRange::Month);
    assert(time_range_of("3M"@) == TimeRange::ThreeMonths);
    assert(time_range_of("6M"@) == TimeRange::SixMonths);
    assert(time_range_of("1y"@) == TimeRange::Year);
}

/// Dominant color filter: any color, or one of the colors Wallhaven offers.
#[derive(Debug, Clone, Copy, PartialEq, Eq, Structural)]
pub enum ColorOption {
    Any,
    Color660000,
    Color990000,
    ColorCC0000,
    ColorCC3333,
    ColorEA4C88,
    Color993399,
    Color663399,
    Color333399,
    Color0066CC,
    Color0099CC,
    Color66CCCC,
    Color77CC33,
    Color669900,
    Color336600,
    Color666600,
    Color999900,
    ColorCCCC33,
    ColorFFFF00,
    ColorFFCC33,
    ColorFF9900,
    ColorFF6600,
    ColorCC6633,
    Color996633,
    Color663300,
    Color000000,
    Color999999,
    ColorCCCCCC,
    ColorFFFFFF,
    Color424153,
}

/// The name a `ColorOption` is written with in the API and in the configuration.
pub open spec fn color_name(x: ColorOption) -> Seq<char> {
    match x {
        ColorOption::Any => ""@,
        ColorOption::Color660000 => "660000"@,
        ColorOption::Color990000 => "990000"@,
        ColorOption::ColorCC0000 => "cc0000"@,
        ColorOption::ColorCC3333 => "cc3333"@,
        ColorOption::ColorEA4C88 => "ea4c88"@,
        ColorOption::Color993399 => "993399"@,
        ColorOption::Color663399 => "663399"@,
        ColorOption::Color333399 => "333399"@,
        ColorOption::Color0066CC => "0066cc"@,
        ColorOption::Color0099CC => "0099cc"@,
        ColorOption::Color66CCCC => "66cccc"@,
        ColorOption::Color77CC33 => "77cc33"@,
        ColorOption::Color669900 => "669900"@,
        ColorOption::Color336600 => "336600"@,
        ColorOption::Color666600 => "666600"@,
        ColorOption::Color999900 => "999900"@,
        ColorOption::ColorCCCC33 => "cccc33"@,
        ColorOption::ColorFFFF00 => "ffff00"@,
        ColorOption::ColorFFCC33 => "ffcc33"@,
        ColorOption::ColorFF9900 => "ff9900"@,
        ColorOption::ColorFF6600 => "ff6600"@,
        ColorOption::ColorCC6633 => "cc6633"@,
        ColorOption::Color996633 => "996633"@,
        ColorOption::Color663300 => "663300"@,
        ColorOption::Color000000 => "000000"@,
        ColorOption::Color999999 => "999999"@,
        ColorOption::ColorCCCCCC => "cccccc"@,
        ColorOption::ColorFFFFFF => "ffffff"@,
        ColorOption::Color424153 => "424153"@,
    }
}

/// The `ColorOption` a stored name denotes; an unknown name denotes `Any`.
pub open spec fn color_of(s: Seq<char>) -> ColorOption {
    if s == "660000"@ {
        ColorOption::Color660000
    } else if s == "990000"@ {
        ColorOption::Color990000
    } else if s == "cc0000"@ {
        ColorOption::ColorCC0000
    } else if s == "cc3333"@ {
        ColorOption::ColorCC3333
    } else if s == "ea4c88"@ {
        ColorOption::ColorEA4C88
    } else if s == "993399"@ {
        ColorOption::Color993399
    } else if s == "663399"@ {
        ColorOption::Color663399
    } else if s == "333399"@ {
        ColorOption::Color333399
    } else if s == "0066cc"@ {
        ColorOption::Color0066CC
    } else if s == "0099cc"@ {
        ColorOption::Color0099CC
    } else if s == "66cccc"@ {
        ColorOption::Color66CCCC
    } else if s == "77cc33"@ {
        ColorOption::Color77CC33
    } else if s == "669900"@ {
        ColorOption::Color669900
    } else if s == "336600"@ {
        ColorOption::Color336600
    } else if s == "666600"@ {
        ColorOption::Color666600
    } else if s == "999900"@ {
        ColorOption::Color999900
    } else if s == "cccc33"@ {
        ColorOption::ColorCCCC33
    } else if s == "ffff00"@ {
        ColorOption::ColorFFFF00
    } else if s == "ffcc33"@ {
        ColorOption::ColorFFCC33
    } else if s == "ff9900"@ {
        ColorOption::ColorFF9900
    } else if s == "ff6600"@ {
        ColorOption::ColorFF6600
    } else if s == "cc6633"@ {
        ColorOption::ColorCC6633
    } else if s == "996633"@ {
        ColorOption::Color996633
    } else if s == "663300"@ {
        ColorOption::Color663300
    } else if s == "000000"@ {
        ColorOption::Color000000
    } else if s == "999999"@ {
        ColorOption::Color999999
    } else if s == "cccccc"@ {
        ColorOption::ColorCCCCCC
    } else if s == "ffffff"@ {
        ColorOption::ColorFFFFFF
    } else if s == "424153"@ {
        ColorOption::Color424153
    } else {
        ColorOption::Any
    }
}

impl ColorOption {
    /// The name this value is written with.
    pub fn value(&self) -> (r: &'static str)
        ensures
            r@ == color_name(*self),
    {
        match self {
            ColorOption::Any => "",
            ColorOption::Color660000 => "660000",
            ColorOption::Color990000 => "990000",
            ColorOption::ColorCC0000 => "cc0000",
            ColorOption::ColorCC3333 => "cc3333",
            ColorOption::ColorEA4C88 => "ea4c88",
            ColorOption::Color993399 => "993399",
            ColorOption::Color663399 => "663399",
            ColorOption::Color333399 => "333399",
            ColorOption::Color0066CC => "0066cc",
            ColorOption::Color0099CC => "0099cc",
            ColorOption::Color66CCCC => "66cccc",
            ColorOption::Color77CC33 => "77cc33",
            ColorOption::Color669900 => "669900",
            ColorOption::Color336600 => "336600",
            ColorOption::Color666600 => "666600",
            ColorOption::Color999900 => "999900",
            ColorOption::ColorCCCC33 => "cccc33",
            ColorOption::ColorFFFF00 => "ffff00",
            ColorOption::ColorFFCC33 => "ffcc33",
            ColorOption::ColorFF9900 => "ff9900",
            ColorOption::ColorFF6600 => "ff6600",
            ColorOption::ColorCC6633 => "cc6633",
            ColorOption::Color996633 => "996633",
            ColorOption::Color663300 => "663300",
            ColorOption::Color000000 => "000000",
            ColorOption::Color999999 => "999999",
            ColorOption::ColorCCCCCC => "cccccc",
            ColorOption::ColorFFFFFF => "ffffff",
            ColorOption::Color424153 => "424153",
        }
    }

    /// Reads a stored name.
    pub fn parse(s: &str) -> (r: ColorOption)
        ensures
            r == color_of(s@),
    {
        if str_eq(s, "660000") {
            ColorOption::Color660000
        } else if str_eq(s, "990000") {
            ColorOption::Color990000
        } else if str_eq(s, "cc0000") {
            ColorOption::ColorCC0000
        } else if str_eq(s, "cc3333") {
            ColorOption::ColorCC3333
        } else if str_eq(s, "ea4c88") {
            ColorOption::ColorEA4C88
        } else if str_eq(s, "993399") {
            ColorOption::Color993399
        } else if str_eq(s, "663399") {
            ColorOption::Color663399
        } else if str_eq(s, "333399") {
            ColorOption::Color333399
        } else if str_eq(s, "0066cc") {
            ColorOption::Color0066CC
        } else if str_eq(s, "0099cc") {
            ColorOption::Color0099CC
        } else if str_eq(s, "66cccc") {
            ColorOption::Color66CCCC
        } else if str_eq(s, "77cc33") {
            ColorOption::Color77CC33
        } else if str_eq(s, "669900") {
            ColorOption::Color669900
        } else if str_eq(s, "336600") {
            ColorOption::Color336600
        } else if str_eq(s, "666600") {
            ColorOption::Color666600
        } else if str_eq(s, "999900") {
            ColorOption::Color999900
        } else if str_eq(s, "cccc33") {
            ColorOption::ColorCCCC33
        } else if str_eq(s, "ffff00") {
            ColorOption::ColorFFFF00
        } else if str_eq(s, "ffcc33") {
            ColorOption::ColorFFCC33
        } else if str_eq(s, "ff9900") {
            ColorOption::ColorFF9900
        } else if str_eq(s, "ff6600") {
            ColorOption::ColorFF6600
        } else if str_eq(s, "cc6633") {
            ColorOption::ColorCC6633
        } else if str_eq(s, "996633") {
            ColorOption::Color996633
        } else if str_eq(s, "663300") {
            ColorOption::Color663300
        } else if str_eq(s, "000000") {
            ColorOption::Color000000
        } else if str_eq(s, "999999") {
            ColorOption::Color999999
        } else if str_eq(s, "cccccc") {
            ColorOption::ColorCCCCCC
        } else if str_eq(s, "ffffff") {
            ColorOption::ColorFFFFFF
        } else if str_eq(s, "424153") {
            ColorOption::Color424153
        } else {
            ColorOption::Any
        }
    }
}

/// Reading back the name of a value gives that value.
pub proof fn lemma_color_roundtrip(x: ColorOption)
    ensures
        color_of(color_name(x)) == x,
{
    reveal_strlit("");
    reveal_strlit("000000");
    reveal_strlit("0066cc");
    reveal_strlit("0099cc");
    reveal_strlit("333399");
    reveal_strlit("336600");
    reveal_strlit("424153");
    reveal_strlit("660000");
    reveal_strlit("663300");
    reveal_strlit("663399");
    reveal_strlit("666600");
    reveal_strlit("669900");
    reveal_strlit("66cccc");
    reveal_strlit("77cc33");
    reveal_strlit("990000");
    reveal_strlit("993399");
    reveal_strlit("996633");
    reveal_strlit("999900");
    reveal_strlit("999999");
    reveal_strlit("cc0000");
    reveal_strlit("cc3333");
    reveal_strlit("cc6633");
    reveal_strlit("cccc33");
    reveal_strlit("cccccc");
    reveal_strlit("ea4c88");
    reveal_strlit("ff6600");
    reveal_strlit("ff9900");
    reveal_strlit("ffcc33");
    reveal_strlit("ffff00");
    reveal_strlit("ffffff");
    assert(""@.len() == 0 && "000000"@.len() == 6 && "0066cc"@.len() == 6 && "0099cc"@.len() == 6 && "333399"@.len() == 6 && "336600"@.len() == 6 && "424153"@.len() == 6 && "660000"@.len() == 6 && "663300"@.len() == 6 && "663399"@.len() == 6 && "666600"@.len() == 6 && "669900"@.len() == 6 && "66cccc"@.len() == 6 && "77cc33"@.len() == 6 && "990000"@.len() == 6 && "993399"@.len() == 6 && "996633"@.len() == 6 && "999900"@.len() == 6 && "999999"@.len() == 6 && "cc0000"@.len() == 6 && "cc3333"@.len() == 6 && "cc6633"@.len() == 6 && "cccc33"@.len() == 6 && "cccccc"@.len() == 6 && "ea4c88"@.len() == 6 && "ff6600"@.len() == 6 && "ff9900"@.len() == 6 && "ffcc33"@.len() == 6 && "ffff00"@.len() == 6 && "ffffff"@.len() == 6);
    assert("000000"@[2] != "0066cc"@[2]);
    assert("000000"@[2] != "0099cc"@[2]);
    assert("000000"@[0] != "333399"@[0]);
    assert("000000"@[0] != "336600"@[0]);
    assert("000000"@[0] != "424153"@[0]);
    assert("000000"@[0] != "660000"@[0]);
    assert("000000"@[0] != "663300"@[0]);
    assert("000000"@[0] != "663399"@[0]);
    assert("000000"@[0] != "666600"@[0]);
    assert("000000"@[0] != "669900"@[0]);
    assert("000000"@[0] != "66cccc"@[0]);
    assert("000000"@[0] != "77cc33"@[0]);
    assert("000000"@[0] != "990000"@[0]);
    assert("000000"@[0] != "993399"@[0]);
    assert("000000"@[0] != "996633"@[0]);
    assert("000000"@[0] != "999900"@[0]);
    assert("000000"@[0] != "999999"@[0]);
    assert("000000"@[0] != "cc0000"@[0]);
    assert("000000"@[0] != "cc3333"@[0]);
    assert("000000"@[0] != "cc6633"@[0]);
    assert("000000"@[0] != "cccc33"@[0]);
    assert("000000"@[0] != "cccccc"@[0]);
    assert("000000"@[0] != "ea4c88"@[0]);
    assert("000000"@[0] != "ff6600"@[0]);
    assert("000000"@[0] != "ff9900"@[0]);
    assert("000000"@[0] != "ffcc33"@[0]);
    assert("000000"@[0] != "ffff00"@[0]);
    assert("000000"@[0] != "ffffff"@[0]);
    assert("0066cc"@[2] != "0099cc"@[2]);
    assert("0066cc"@[0] != "333399"@[0]);
    assert("0066cc"@[0] != "336600"@[0]);
    assert("0066cc"@[0] != "424153"@[0]);
    assert("0066cc"@[0] != "660000"@[0]);
    assert("0066cc"@[0] != "663300"@[0]);
    assert("0066cc"@[0] != "663399"@[0]);
    assert("0066cc"@[0] != "666600"@[0]);
    assert("0066cc"@[0] != "669900"@[0]);
    assert("0066cc"@[0] != "66cccc"@[0]);
    assert("0066cc"@[0] != "77cc33"@[0]);
    assert("0066cc"@[0] != "990000"@[0]);
    assert("0066cc"@[0] != "993399"@[0]);
    assert("0066cc"@[0] != "996633"@[0]);
    assert("0066cc"@[0] != "999900"@[0]);
    assert("0066cc"@[0] != "999999"@[0]);
    assert("0066cc"@[0] != "cc0000"@[0]);
    assert("0066cc"@[0] != "cc3333"@[0]);
    assert("0066cc"@[0] != "cc6633"@[0]);
    assert("0066cc"@[0] != "cccc33"@[0]);
    assert("0066cc"@[0] != "cccccc"@[0]);
    assert("0066cc"@[0] != "ea4c88"@[0]);
    assert("0066cc"@[0] != "ff6600"@[0]);
    assert("0066cc"@[0] != "ff9900"@[0]);
    assert("0066cc"@[0] != "ffcc33"@[0]);
    assert("0066cc"@[0] != "ffff00"@[0]);
    assert("0066cc"@[0] != "ffffff"@[0]);
    assert("0099cc"@[0] != "333399"@[0]);
    assert("0099cc"@[0] != "336600"@[0]);
    assert("0099cc"@[0] != "424153"@[0]);
    assert("0099cc"@[0] != "660000"@[0]);
    assert("0099cc"@[0] != "663300"@[0]);
    assert("0099cc"@[0] != "663399"@[0]);
    assert("0099cc"@[0] != "666600"@[0]);
    assert("0099cc"@[0] != "669900"@[0]);
    assert("0099cc"@[0] != "66cccc"@[0]);
    assert("0099cc"@[0] != "77cc33"@[0]);
    assert("0099cc"@[0] != "990000"@[0]);
    assert("0099cc"@[0] != "993399"@[0]);
    assert("0099cc"@[0] != "996633"@[0]);
    assert("0099cc"@[0] != "999900"@[0]);
    assert("0099cc"@[0] != "999999"@[0]);
    assert("0099cc"@[0] != "cc0000"@[0]);
    assert("0099cc"@[0] != "cc3333"@[0]);
    assert("0099cc"@[0] != "cc6633"@[0]);
    assert("0099cc"@[0] != "cccc33"@[0]);
    assert("0099cc"@[0] != "cccccc"@[0]);
    assert("0099cc"@[0] != "ea4c88"@[0]);
    assert("0099cc"@[0] != "ff6600"@[0]);
    assert("0099cc"@[0] != "ff9900"@[0]);
    assert("0099cc"@[0] != "ffcc33"@[0]);
    assert("0099cc"@[0] != "ffff00"@[0]);
    assert("0099cc"@[0] != "ffffff"@[0]);
    assert("333399"@[2] != "336600"@[2]);
    assert("333399"@[0] != "424153"@[0]);
    assert("333399"@[0] != "660000"@[0]);
    assert("333399"@[0] != "663300"@[0]);
    assert("333399"@[0] != "663399"@[0]);
    assert("333399"@[0] != "666600"@[0]);
    assert("333399"@[0] != "669900"@[0]);
    assert("333399"@[0] != "66cccc"@[0]);
    assert("333399"@[0] != "77cc33"@[0]);
    assert("333399"@[0] != "990000"@[0]);
    assert("333399"@[0] != "993399"@[0]);
    assert("333399"@[0] != "996633"@[0]);
    assert("333399"@[0] != "999900"@[0]);
    assert("333399"@[0] != "999999"@[0]);
    assert("333399"@[0] != "cc0000"@[0]);
    assert("333399"@[0] != "cc3333"@[0]);
    assert("333399"@[0] != "cc6633"@[0]);
    assert("333399"@[0] != "cccc33"@[0]);
    assert("333399"@[0] != "cccccc"@[0]);
    assert("333399"@[0] != "ea4c88"@[0]);
    assert("333399"@[0] != "ff6600"@[0]);
    assert("333399"@[0] != "ff9900"@[0]);
    assert("333399"@[0] != "ffcc33"@[0]);
    assert("333399"@[0] != "ffff00"@[0]);
    assert("333399"@[0] != "ffffff"@[0]);
    assert("336600"@[0] != "424153"@[0]);
    assert("336600"@[0] != "660000"@[0]);
    assert("336600"@[0] != "663300"@[0]);
    assert("336600"@[0] != "663399"@[0]);
    assert("336600"@[0] != "666600"@[0]);
    assert("336600"@[0] != "669900"@[0]);
    assert("336600"@[0] != "66cccc"@[0]);
    assert("336600"@[0] != "77cc33"@[0]);
    assert("336600"@[0] != "990000"@[0]);
    assert("336600"@[0] != "993399"@[0]);
    assert("336600"@[0] != "996633"@[0]);
    assert("336600"@[0] != "999900"@[0]);
    assert("336600"@[0] != "999999"@[0]);
    assert("336600"@[0] != "cc0000"@[0]);
    assert("336600"@[0] != "cc3333"@[0]);
    assert("336600"@[0] != "cc6633"@[0]);
    assert("336600"@[0] != "cccc33"@[0]);
    assert("336600"@[0] != "cccccc"@[0]);
    assert("336600"@[0] != "ea4c88"@[0]);
    assert("336600"@[0] != "ff6600"@[0]);
    assert("336600"@[0] != "ff9900"@[0]);
    assert("336600"@[0] != "ffcc33"@[0]);
    assert("336600"@[0] != "ffff00"@[0]);
    assert("336600"@[0] != "ffffff"@[0]);
    assert("424153"@[0] != "660000"@[0]);
    assert("424153"@[0] != "663300"@[0]);
    assert("424153"@[0] != "663399"@[0]);
    assert("424153"@[0] != "666600"@[0]);
    assert("424153"@[0] != "669900"@[0]);
    assert("424153"@[0] != "66cccc"@[0]);
    assert("424153"@[0] != "77cc33"@[0]);
    assert("424153"@[0] != "990000"@[0]);
    assert("424153"@[0] != "993399"@[0]);
    assert("424153"@[0] != "996633"@[0]);
    assert("424153"@[0] != "999900"@[0]);
    assert("424153"@[0] != "999999"@[0]);
    assert("424153"@[0] != "cc0000"@[0]);
    assert("424153"@[0] != "cc3333"@[0]);
    assert("424153"@[0] != "cc6633"@[0]);
    assert("424153"@[0] != "cccc33"@[0]);
    assert("424153"@[0] != "cccccc"@[0]);
    assert("424153"@[0] != "ea4c88"@[0]);
    assert("424153"@[0] != "ff6600"@[0]);
    assert("424153"@[0] != "ff9900"@[0]);
    assert("424153"@[0] != "ffcc33"@[0]);
    assert("424153"@[0] != "ffff00"@[0]);
    assert("424153"@[0] != "ffffff"@[0]);
    assert("660000"@[2] != "663300"@[2]);
    assert("660000"@[2] != "663399"@[2]);
    assert("660000"@[2] != "666600"@[2]);
    assert("660000"@[2] != "669900"@[2]);
    assert("660000"@[2] != "66cccc"@[2]);
    assert("660000"@[0] != "77cc33"@[0]);
    assert("660000"@[0] != "990000"@[0]);
    assert("660000"@[0] != "993399"@[0]);
    assert("660000"@[0] != "996633"@[0]);
    assert("660000"@[0] != "999900"@[0]);
    assert("660000"@[0] != "999999"@[0]);
    assert("660000"@[0] != "cc0000"@[0]);
    assert("660000"@[0] != "cc3333"@[0]);
    assert("660000"@[0] != "cc6633"@[0]);
    assert("660000"@[0] != "cccc33"@[0]);
    assert("660000"@[0] != "cccccc"@[0]);
    assert("660000"@[0] != "ea4c88"@[0]);
    assert("660000"@[0] != "ff6600"@[0]);
    assert("660000"@[0] != "ff9900"@[0]);
    assert("660000"@[0] != "ffcc33"@[0]);
    assert("660000"@[0] != "ffff00"@[0]);
    assert("660000"@[0] != "ffffff"@[0]);
    assert("663300"@[4] != "663399"@[4]);
    assert("663300"@[2] != "666600"@[2]);
    assert("663300"@[2] != "669900"@[2]);
    assert("663300"@[2] != "66cccc"@[2]);
    assert("663300"@[0] != "77cc33"@[0]);
    assert("663300"@[0] != "990000"@[0]);
    assert("663300"@[0] != "993399"@[0]);
    assert("663300"@[0] != "996633"@[0]);
    assert("663300"@[0] != "999900"@[0]);
    assert("663300"@[0] != "999999"@[0]);
    assert("663300"@[0] != "cc0000"@[0]);
    assert("663300"@[0] != "cc3333"@[0]);
    assert("663300"@[0] != "cc6633"@[0]);
    assert("663300"@[0] != "cccc33"@[0]);
    assert("663300"@[0] != "cccccc"@[0]);
    assert("663300"@[0] != "ea4c88"@[0]);
    assert("663300"@[0] != "ff6600"@[0]);
    assert("663300"@[0] != "ff9900"@[0]);
    assert("663300"@[0] != "ffcc33"@[0]);
    assert("663300"@[0] != "ffff00"@[0]);
    assert("663300"@[0] != "ffffff"@[0]);
    assert("663399"@[2] != "666600"@[2]);
    assert("663399"@[2] != "669900"@[2]);
    assert("663399"@[2] != "66cccc"@[2]);
    assert("663399"@[0] != "77cc33"@[0]);
    assert("663399"@[0] != "990000"@[0]);
    assert("663399"@[0] != "993399"@[0]);
    assert("663399"@[0] != "996633"@[0]);
    assert("663399"@[0] != "999900"@[0]);
    assert("663399"@[0] != "999999"@[0]);
    assert("663399"@[0] != "cc0000"@[0]);
    assert("663399"@[0] != "cc3333"@[0]);
    assert("663399"@[0] != "cc6633"@[0]);
    assert("663399"@[0] != "cccc33"@[0]);
    assert("663399"@[0] != "cccccc"@[0]);
    assert("663399"@[0] != "ea4c88"@[0]);
    assert("663399"@[0] != "ff6600"@[0]);
    assert("663399"@[0] != "ff9900"@[0]);
    assert("663399"@[0] != "ffcc33"@[0]);
    assert("663399"@[0] != "ffff00"@[0]);
    assert("663399"@[0] != "ffffff"@[0]);
    assert("666600"@[2] != "669900"@[2]);
    assert("666600"@[2] != "66cccc"@[2]);
    assert("666600"@[0] != "77cc33"@[0]);
    assert("666600"@[0] != "990000"@[0]);
    assert("666600"@[0] != "993399"@[0]);
    assert("666600"@[0] != "996633"@[0]);
    assert("666600"@[0] != "999900"@[0]);
    assert("666600"@[0] != "999999"@[0]);
    assert("666600"@[0] != "cc0000"@[0]);
    assert("666600"@[0] != "cc3333"@[0]);
    assert("666600"@[0] != "cc6633"@[0]);
    assert("666600"@[0] != "cccc33"@[0]);
    assert("666600"@[0] != "cccccc"@[0]);
    assert("666600"@[0] != "ea4c88"@[0]);
    assert("666600"@[0] != "ff6600"@[0]);
    assert("666600"@[0] != "ff9900"@[0]);
    assert("666600"@[0] != "ffcc33"@[0]);
    assert("666600"@[0] != "ffff00"@[0]);
    assert("666600"@[0] != "ffffff"@[0]);
    assert("669900"@[2] != "66cccc"@[2]);
    assert("669900"@[0] != "77cc33"@[0]);
    assert("669900"@[0] != "990000"@[0]);
    assert("669900"@[0] != "993399"@[0]);
    assert("669900"@[0] != "996633"@[0]);
    assert("669900"@[0] != "999900"@[0]);
    assert("669900"@[0] != "999999"@[0]);
    assert("669900"@[0] != "cc0000"@[0]);
    assert("669900"@[0] != "cc3333"@[0]);
    assert("669900"@[0] != "cc6633"@[0]);
    assert("669900"@[0] != "cccc33"@[0]);
    assert("669900"@[0] != "cccccc"@[0]);
    assert("669900"@[0] != "ea4c88"@[0]);
    assert("669900"@[0] != "ff6600"@[0]);
    assert("669900"@[0] != "ff9900"@[0]);
    assert("669900"@[0] != "ffcc33"@[0]);
    assert("669900"@[0] != "ffff00"@[0]);
    assert("669900"@[0] != "ffffff"@[0]);
    assert("66cccc"@[0] != "77cc33"@[0]);
    assert("66cccc"@[0] != "990000"@[0]);
    assert("66cccc"@[0] != "993399"@[0]);
    assert("66cccc"@[0] != "996633"@[0]);
    assert("66cccc"@[0] != "999900"@[0]);
    assert("66cccc"@[0] != "999999"@[0]);
    assert("66cccc"@[0] != "cc0000"@[0]);
    assert("66cccc"@[0] != "cc3333"@[0]);
    assert("66cccc"@[0] != "cc6633"@[0]);
    assert("66cccc"@[0] != "cccc33"@[0]);
    assert("66cccc"@[0] != "cccccc"@[0]);
    assert("66cccc"@[0] != "ea4c88"@[0]);
    assert("66cccc"@[0] != "ff6600"@[0]);
    assert("66cccc"@[0] != "ff9900"@[0]);
    assert("66cccc"@[0] != "ffcc33"@[0]);
    assert("66cccc"@[0] != "ffff00"@[0]);
    assert("66cccc"@[0] != "ffffff"@[0]);
    assert("77cc33"@[0] != "990000"@[0]);
    assert("77cc33"@[0] != "993399"@[0]);
    assert("77cc33"@[0] != "996633"@[0]);
    assert("77cc33"@[0] != "999900"@[0]);
    assert("77cc33"@[0] != "999999"@[0]);
    assert("77cc33"@[0] != "cc0000"@[0]);
    assert("77cc33"@[0] != "cc3333"@[0]);
    assert("77cc33"@[0] != "cc6633"@[0]);
    assert("77cc33"@[0] != "cccc33"@[0]);
    assert("77cc33"@[0] != "cccccc"@[0]);
    assert("77cc33"@[0] != "ea4c88"@[0]);
    assert("77cc33"@[0] != "ff6600"@[0]);
    assert("77cc33"@[0] != "ff9900"@[0]);
    assert("77cc33"@[0] != "ffcc33"@[0]);
    assert("77cc33"@[0] != "ffff00"@[0]);
    assert("77cc33"@[0] != "ffffff"@[0]);
    assert("990000"@[2] != "993399"@[2]);
    assert("990000"@[2] != "996633"@[2]);
    assert("990000"@[2] != "999900"@[2]);
    assert("990000"@[2] != "999999"@[2]);
    assert("990000"@[0] != "cc0000"@[0]);
    assert("990000"@[0] != "cc3333"@[0]);
    assert("990000"@[0] != "cc6633"@[0]);
    assert("990000"@[0] != "cccc33"@[0]);
    assert("990000"@[0] != "cccccc"@[0]);
    assert("990000"@[0] != "ea4c88"@[0]);
    assert("990000"@[0] != "ff6600"@[0]);
    assert("990000"@[0] != "ff9900"@[0]);
    assert("990000"@[0] != "ffcc33"@[0]);
    assert("990000"@[0] != "ffff00"@[0]);
    assert("990000"@[0] != "ffffff"@[0]);
    assert("993399"@[2] != "996633"@[2]);
    assert("993399"@[2] != "999900"@[2]);
    assert("993399"@[2] != "999999"@[2]);
    assert("993399"@[0] != "cc0000"@[0]);
    assert("993399"@[0] != "cc3333"@[0]);
    assert("993399"@[0] != "cc6633"@[0]);
    assert("993399"@[0] != "cccc33"@[0]);
    assert("993399"@[0] != "cccccc"@[0]);
    assert("993399"@[0] != "ea4c88"@[0]);
    assert("993399"@[0] != "ff6600"@[0]);
    assert("993399"@[0] != "ff9900"@[0]);
    assert("993399"@[0] != "ffcc33"@[0]);
    assert("993399"@[0] != "ffff00"@[0]);
    assert("993399"@[0] != "ffffff"@[0]);
    assert("996633"@[2] != "999900"@[2]);
    assert("996633"@[2] != "999999"@[2]);
    assert("996633"@[0] != "cc0000"@[0]);
    assert("996633"@[0] != "cc3333"@[0]);
    assert("996633"@[0] != "cc6633"@[0]);
    assert("996633"@[0] != "cccc33"@[0]);
    assert("996633"@[0] != "cccccc"@[0]);
    assert("996633"@[0] != "ea4c88"@[0]);
    assert("996633"@[0] != "ff6600"@[0]);
    assert("996633"@[0] != "ff9900"@[0]);
    assert("996633"@[0] != "ffcc33"@[0]);
    assert("996633"@[0] != "ffff00"@[0]);
    assert("996633"@[0] != "ffffff"@[0]);
    assert("999900"@[4] != "999999"@[4]);
    assert("999900"@[0] != "cc0000"@[0]);
    assert("999900"@[0] != "cc3333"@[0]);
    assert("999900"@[0] != "cc6633"@[0]);
    assert("999900"@[0] != "cccc33"@[0]);
    assert("999900"@[0] != "cccccc"@[0]);
    assert("999900"@[0] != "ea4c88"@[0]);
    assert("999900"@[0] != "ff6600"@[0]);
    assert("999900"@[0] != "ff9900"@[0]);
    assert("999900"@[0] != "ffcc33"@[0]);
    assert("999900"@[0] != "ffff00"@[0]);
    assert("999900"@[0] != "ffffff"@[0]);
    assert("999999"@[0] != "cc0000"@[0]);
    assert("999999"@[0] != "cc3333"@[0]);
    assert("999999"@[0] != "cc6633"@[0]);
    assert("999999"@[0] != "cccc33"@[0]);
    assert("999999"@[0] != "cccccc"@[0]);
    assert("999999"@[0] != "ea4c88"@[0]);
    assert("999999"@[0] != "ff6600"@[0]);
    assert("999999"@[0] != "ff9900"@[0]);
    assert("999999"@[0] != "ffcc33"@[0]);
    assert("999999"@[0] != "ffff00"@[0]);
    assert("999999"@[0] != "ffffff"@[0]);
    assert("cc0000"@[2] != "cc3333"@[2]);
    assert("cc0000"@[2] != "cc6633"@[2]);
    assert("cc0000"@[2] != "cccc33"@[2]);
    assert("cc0000"@[2] != "cccccc"@[2]);
    assert("cc0000"@[0] != "ea4c88"@[0]);
    assert("cc0000"@[0] != "ff6600"@[0]);
    assert("cc0000"@[0] != "ff9900"@[0]);
    assert("cc0000"@[0] != "ffcc33"@[0]);
    assert("cc0000"@[0] != "ffff00"@[0]);
    assert("cc0000"@[0] != "ffffff"@[0]);
    assert("cc3333"@[2] != "cc6633"@[2]);
    assert("cc3333"@[2] != "cccc33"@[2]);
    assert("cc3333"@[2] != "cccccc"@[2]);
    assert("cc3333"@[0] != "ea4c88"@[0]);
    assert("cc3333"@[0] != "ff6600"@[0]);
    assert("cc3333"@[0] != "ff9900"@[0]);
    assert("cc3333"@[0] != "ffcc33"@[0]);
    assert("cc3333"@[0] != "ffff00"@[0]);
    assert("cc3333"@[0] != "ffffff"@[0]);
    assert("cc6633"@[2] != "cccc33"@[2]);
    assert("cc6633"@[2] != "cccccc"@[2]);
    assert("cc6633"@[0] != "ea4c88"@[0]);
    assert("cc6633"@[0] != "ff6600"@[0]);
    assert("cc6633"@[0] != "ff9900"@[0]);
    assert("cc6633"@[0] != "ffcc33"@[0]);
    assert("cc6633"@[0] != "ffff00"@[0]);
    assert("cc6633"@[0] != "ffffff"@[0]);
    assert("cccc33"@[4] != "cccccc"@[4]);
    assert("cccc33"@[0] != "ea4c88"@[0]);
    assert("cccc33"@[0] != "ff6600"@[0]);
    assert("cccc33"@[0] != "ff9900"@[0]);
    assert("cccc33"@[0] != "ffcc33"@[0]);
    assert("cccc33"@[0] != "ffff00"@[0]);
    assert("cccc33"@[0] != "ffffff"@[0]);
    assert("cccccc"@[0] != "ea4c88"@[0]);
    assert("cccccc"@[0] != "ff6600"@[0]);
    assert("cccccc"@[0] != "ff9900"@[0]);
    assert("cccccc"@[0] != "ffcc33"@[0]);
    assert("cccccc"@[0] != "ffff00"@[0]);
    assert("cccccc"@[0] != "ffffff"@[0]);
    assert("ea4c88"@[0] != "ff6600"@[0]);
    assert("ea4c88"@[0] != "ff9900"@[0]);
    assert("ea4c88"@[0] != "ffcc33"@[0]);
    assert("ea4c88"@[0] != "ffff00"@[0]);
    assert("ea4c88"@[0] != "ffffff"@[0]);
    assert("ff6600"@[2] != "ff9900"@[2]);
    assert("ff6600"@[2] != "ffcc33"@[2]);
    assert("ff6600"@[2] != "ffff00"@[2]);
    assert("ff6600"@[2] != "ffffff"@[2]);
    assert("ff9900"@[2] != "ffcc33"@[2]);
    assert("ff9900"@[2] != "ffff00"@[2]);
    assert("ff9900"@[2] != "ffffff"@[2]);
    assert("ffcc33"@[2] != "ffff00"@[2]);
    assert("ffcc33"@[2] != "ffffff"@[2]);
    assert("ffff00"@[4] != "ffffff"@[4]);
    assert(color_of("660000"@) == ColorOption::Color660000);
    assert(color_of("990000"@) == ColorOption::Color990000);
    assert(color_of("cc0000"@) == ColorOption::ColorCC0000);
    assert(color_of("cc3333"@) == ColorOption::ColorCC3333);
    assert(color_of("ea4c88"@) == ColorOption::ColorEA4C88);
    assert(color_of("993399"@) == ColorOption::Color993399);
    assert(color_of("663399"@) == ColorOption::Color663399);
    assert(color_of("333399"@) == ColorOption::Color333399);
    assert(color_of("0066cc"@) == ColorOption::Color0066CC);
    assert(color_of("0099cc"@) == ColorOption::Color0099CC);
    assert(color_of("66cccc"@) == ColorOption::Color66CCCC);
    assert(color_of("77cc33"@) == ColorOption::Color77CC33);
    assert(color_of("669900"@) == ColorOption::Color669900);
    assert(color_of("336600"@) == ColorOption::Color336600);
    assert(color_of("666600"@) == ColorOption::Color666600);
    assert(color_of("999900"@) == ColorOption::Color999900);
    assert(color_of("cccc33"@) == ColorOption::ColorCCCC33);
    assert(color_of("ffff00"@) == ColorOption::ColorFFFF00);
    assert(color_of("ffcc33"@) == ColorOption::ColorFFCC33);
    assert(color_of("ff9900"@) == ColorOption::ColorFF9900);
    assert(color_of("ff6600"@) == ColorOption::ColorFF6600);
    assert(color_of("cc6633"@) == ColorOption::ColorCC6633);
    assert(color_of("996633"@) == ColorOption::Color996633);
    assert(color_of("663300"@) == ColorOption::Color663300);
    assert(color_of("000000"@) == ColorOption::Color000000);
    assert(color_of("999999"@) == ColorOption::Color999999);
    assert(color_of("cccccc"@) == ColorOption::ColorCCCCCC);
    assert(color_of("ffffff"@) == ColorOption::ColorFFFFFF);
    assert(color_of("424153"@) == ColorOption::Color424153);
}

/// Screen resolution filter value (`Any` for no restriction).
#[derive(Debug, Clone, Copy, PartialEq, Eq, Structural)]
pub enum Resolution {
    Any,
    R2560x1080,
    R2560x1440U,
    R3840x1600,
    R1280x720,
    R1600x900,
    R1920x1080,
    R2560x1440,
    R3840x2160,
    R1280x800,
    R1600x1000,
    R1920x1200,
    R2560x1600,
    R3840x2400,
    R1280x960,
    R1600x1200_4_3,
    R1920x1440,
    R2560x1920,
    R3840x2880,
    R1280x1024,
    R1600x1280,
    R1920x1536,
    R2560x2048,
    R3840x3072,
}

/// The name a `Resolution` is written with in the API and in the configuration.
pub open spec fn resolution_name(x: Resolution) -> Seq<char> {
    match x {
        Resolution::Any => ""@,
        Resolution::R2560x1080 => "2560x1080"@,
        Resolution::R2560x1440U => "2560x1440"@,
        Resolution::R3840x1600 => "3840x1600"@,
        Resolution::R1280x720 => "1280x720"@,
        Resolution::R1600x900 => "1600x900"@,
        Resolution::R1920x1080 => "1920x1080"@,
        Resolution::R2560x1440 => "2560x1440"@,
        Resolution::R3840x2160 => "3840x2160"@,
        Resolution::R1280x800 => "1280x800"@,
        Resolution::R1600x1000 => "1600x1000"@,
        Resolution::R1920x1200 => "1920x1200"@,
        Resolution::R2560x1600 => "2560x1600"@,
        Resolution::R3840x2400 => "3840x2400"@,
        Resolution::R1280x960 => "1280x960"@,
        Resolution::R1600x1200_4_3 => "1600x1200"@,
        Resolution::R1920x1440 => "1920x1440"@,
        Resolution::R2560x1920 => "2560x1920"@,
        Resolution::R3840x2880 => "3840x2880"@,
        Resolution::R1280x1024 => "1280x1024"@,
        Resolution::R1600x1280 => "1600x1280"@,
        Resolution::R1920x1536 => "1920x1536"@,
        Resolution::R2560x2048 => "2560x2048"@,
        Resolution::R3840x3072 => "3840x3072"@,
    }
}

/// The `Resolution` a stored name denotes, if any.
pub open spec fn resolution_of(s: Seq<char>) -> Option<Resolution> {
    if s == "2560x1080"@ {
        Some(Resolution::R2560x1080)
    } else if s == "2560x1440"@ {
        Some(Resolution::R2560x1440U)
    } else if s == "3840x1600"@ {
        Some(Resolution::R3840x1600)
    } else if s == "1280x720"@ {
        Some(Resolution::R1280x720)
    } else if s == "1600x900"@ {
        Some(Resolution::R1600x900)
    } else if s == "1920x1080"@ {
        Some(Resolution::R1920x1080)
    } else if s == "3840x2160"@ {
        Some(Resolution::R3840x2160)
    } else if s == "1280x800"@ {
        Some(Resolution::R1280x800)
    } else if s == "1600x1000"@ {
        Some(Resolution::R1600x1000)
    } else if s == "1920x1200"@ {
        Some(Resolution::R1920x1200)
    } else if s == "2560x1600"@ {
        Some(Resolution::R2560x1600)
    } else if s == "3840x2400"@ {
        Some(Resolution::R3840x2400)
    } else if s == "1280x960"@ {
        Some(Resolution::R1280x960)
    } else if s == "1600x1200"@ {
        Some(Resolution::R1600x1200_4_3)
    } else if s == "1920x1440"@ {
        Some(Resolution::R1920x1440)
    } else if s == "2560x1920"@ {
        Some(Resolution::R2560x1920)
    } else if s == "3840x2880"@ {
        Some(Resolution::R3840x2880)
    } else if s == "1280x1024"@ {
        Some(Resolution::R1280x1024)
    } else if s == "1600x1280"@ {
        Some(Resolution::R1600x1280)
    } else if s == "1920x1536"@ {
        Some(Resolution::R1920x1536)
    } else if s == "2560x2048"@ {
        Some(Resolution::R2560x2048)
    } else if s == "3840x3072"@ {
        Some(Resolution::R3840x3072)
    } else {
        None
    }
}

impl Resolution {
    /// The name this value is written with.
    pub fn value(&self) -> (r: &'static str)
        ensures
            r@ == resolution_name(*self),
    {
        match self {
            Resolution::Any => "",
            Resolution::R2560x1080 => "2560x1080",
            Resolution::R2560x1440U => "2560x1440",
            Resolution::R3840x1600 => "3840x1600",
            Resolution::R1280x720 => "1280x720",
            Resolution::R1600x900 => "1600x900",
            Resolution::R1920x1080 => "1920x1080",
            Resolution::R2560x1440 => "2560x1440",
            Resolution::R3840x2160 => "3840x2160",
            Resolution::R1280x800 => "1280x800",
            Resolution::R1600x1000 => "1600x1000",
            Resolution::R1920x1200 => "1920x1200",
            Resolution::R2560x1600 => "2560x1600",
            Resolution::R3840x2400 => "3840x2400",
            Resolution::R1280x960 => "1280x960",
            Resolution::R1600x1200_4_3 => "1600x1200",
            Resolution::R1920x1440 => "1920x1440",
            Resolution::R2560x1920 => "2560x1920",
            Resolution::R3840x2880 => "3840x2880",
            Resolution::R1280x1024 => "1280x1024",
            Resolution::R1600x1280 => "1600x1280",
            Resolution::R1920x1536 => "1920x1536",
            Resolution::R2560x2048 => "2560x2048",
            Resolution::R3840x3072 => "3840x3072",
        }
    }

    /// Reads a stored name.
    pub fn parse(s: &str) -> (r: Option<Resolution>)
        ensures
            r == resolution_of(s@),
    {
        if str_eq(s, "2560x1080") {
            Some(Resolution::R2560x1080)
        } else if str_eq(s, "2560x1440") {
            Some(Resolution::R2560x1440U)
        } else if str_eq(s, "3840x1600") {
            Some(Resolution::R3840x1600)
        } else if str_eq(s, "1280x720") {
            Some(Resolution::R1280x720)
        } else if str_eq(s, "1600x900") {
            Some(Resolution::R1600x900)
        } else if str_eq(s, "1920x1080") {
            Some(Resolution::R1920x1080)
        } else if str_eq(s, "3840x2160") {
            Some(Resolution::R3840x2160)
        } else if str_eq(s, "1280x800") {
            Some(Resolution::R1280x800)
        } else if str_eq(s, "1600x1000") {
            Some(Resolution::R1600x1000)
        } else if str_eq(s, "1920x1200") {
            Some(Resolution::R1920x1200)
        } else if str_eq(s, "2560x1600") {
            Some(Resolution::R2560x1600)
        } else if str_eq(s, "3840x2400") {
            Some(Resolution::R3840x2400)
        } else if str_eq(s, "1280x960") {
            Some(Resolution::R1280x960)
        } else if str_eq(s, "1600x1200") {
            Some(Resolution::R1600x1200_4_3)
        } else if str_eq(s, "1920x1440") {
            Some(Resolution::R1920x1440)
        } else if str_eq(s, "2560x1920") {
            Some(Resolution::R2560x1920)
        } else if str_eq(s, "3840x2880") {
            Some(Resolution::R3840x2880)
        } else if str_eq(s, "1280x1024") {
            Some(Resolution::R1280x1024)
        } else if str_eq(s, "1600x1280") {
            Some(Resolution::R1600x1280)
        } else if str_eq(s, "1920x1536") {
            Some(Resolution::R1920x1536)
        } else if str_eq(s, "2560x2048") {
            Some(Resolution::R2560x2048)
        } else if str_eq(s, "3840x3072") {
            Some(Resolution::R3840x3072)
        } else {
            None
        }
    }
}

/// The resolution a stored name reads back as: the 16:9 `2560x1440` shares its
/// name with the ultrawide one, which the name denotes.
pub open spec fn resolution_canonical(x: Resolution) -> Resolution {
    if x == Resolution::R2560x1440 {
        Resolution::R2560x1440U
    } else {
        x
    }
}

/// Reading back the name of a resolution other than `Any` gives its canonical resolution.
pub proof fn lemma_resolution_roundtrip(x: Resolution)
    requires
        x != Resolution::Any,
    ensures
        resolution_of(resolution_name(x)) == Some(resolution_canonical(x)),
{
    reveal_strlit("");
    reveal_strlit("1280x1024");
    reveal_strlit("1280x720");
    reveal_strlit("1280x800");
    reveal_strlit("1280x960");
    reveal_strlit("1600x1000");
    reveal_strlit("1600x1200");
    reveal_strlit("1600x1280");
    reveal_strlit("1600x900");
    reveal_strlit("1920x1080");
    reveal_strlit("1920x1200");
    reveal_strlit("1920x1440");
    reveal_strlit("1920x1536");
    reveal_strlit("2560x1080");
    reveal_strlit("2560x1440");
    reveal_strlit("2560x1600");
    reveal_strlit("2560x1920");
    reveal_strlit("2560x2048");
    reveal_strlit("3840x1600");
    reveal_strlit("3840x2160");
    reveal_strlit("3840x2400");
    reveal_strlit("3840x2880");
    reveal_strlit("3840x3072");
    assert(""@.len() == 0 && "1280x1024"@.len() == 9 && "1280x720"@.len() == 8 && "1280x800"@.len() == 8 && "1280x960"@.len() == 8 && "1600x1000"@.len() == 9 && "1600x1200"@.len() == 9 && "1600x1280"@.len() == 9 && "1600x900"@.len() == 8 && "1920x1080"@.len() == 9 && "1920x1200"@.len() == 9 && "1920x1440"@.len() == 9 && "1920x1536"@.len() == 9 && "2560x1080"@.len() == 9 && "2560x1440"@.len() == 9 && "2560x1600"@.len() == 9 && "2560x1920"@.len() == 9 && "2560x2048"@.len() == 9 && "3840x1600"@.len() == 9 && "3840x2160"@.len() == 9 && "3840x2400"@.len() == 9 && "3840x2880"@.len() == 9 && "3840x3072"@.len() == 9);
    assert("1280x1024"@[1] != "1600x1000"@[1]);
    assert("1280x1024"@[1] != "1600x1200"@[1]);
    assert("1280x1024"@[1] != "1600x1280"@[1]);
    assert("1280x1024"@[1] != "1920x1080"@[1]);
    assert("1280x1024"@[1] != "1920x1200"@[1]);
    assert("1280x1024"@[1] != "1920x1440"@[1]);
    assert("1280x1024"@[1] != "1920x1536"@[1]);
    assert("1280x1024"@[0] != "2560x1080"@[0]);
    assert("1280x1024"@[0] != "2560x1440"@[0]);
    assert("1280x1024"@[0] != "2560x1600"@[0]);
    assert("1280x1024"@[0] != "2560x1920"@[0]);
    assert("1280x1024"@[0] != "2560x2048"@[0]);
    assert("1280x1024"@[0] != "3840x1600"@[0]);
    assert("1280x1024"@[0] != "3840x2160"@[0]);
    assert("1280x1024"@[0] != "3840x2400"@[0]);
    assert("1280x1024"@[0] != "3840x2880"@[0]);
    assert("1280x1024"@[0] != "3840x3072"@[0]);
    assert("1280x720"@[5] != "1280x800"@[5]);
    assert("1280x720"@[5] != "1280x960"@[5]);
    assert("1280x720"@[1] != "1600x900"@[1]);
    assert("1280x800"@[5] != "1280x960"@[5]);
    assert("1280x800"@[1] != "1600x900"@[1]);
    assert("1280x960"@[1] != "1600x900"@[1]);
    assert("1600x1000"@[6] != "1600x1200"@[6]);
    assert("1600x1000"@[6] != "1600x1280"@[6]);
    assert("1600x1000"@[1] != "1920x1080"@[1]);
    assert("1600x1000"@[1] != "1920x1200"@[1]);
    assert("1600x1000"@[1] != "1920x1440"@[1]);
    assert("1600x1000"@[1] != "1920x1536"@[1]);
    assert("1600x1000"@[0] != "2560x1080"@[0]);
    assert("1600x1000"@[0] != "2560x1440"@[0]);
    assert("1600x1000"@[0] != "2560x1600"@[0]);
    assert("1600x1000"@[0] != "2560x1920"@[0]);
    assert("1600x1000"@[0] != "2560x2048"@[0]);
    assert("1600x1000"@[0] != "3840x1600"@[0]);
    assert("1600x1000"@[0] != "3840x2160"@[0]);
    assert("1600x1000"@[0] != "3840x2400"@[0]);
    assert("1600x1000"@[0] != "3840x2880"@[0]);
    assert("1600x1000"@[0] != "3840x3072"@[0]);
    assert("1600x1200"@[7] != "1600x1280"@[7]);
    assert("1600x1200"@[1] != "1920x1080"@[1]);
    assert("1600x1200"@[1] != "1920x1200"@[1]);
    assert("1600x1200"@[1] != "1920x1440"@[1]);
    assert("1600x1200"@[1] != "1920x1536"@[1]);
    assert("1600x1200"@[0] != "2560x1080"@[0]);
    assert("1600x1200"@[0] != "2560x1440"@[0]);
    assert("1600x1200"@[0] != "2560x1600"@[0]);
    assert("1600x1200"@[0] != "2560x1920"@[0]);
    assert("1600x1200"@[0] != "2560x2048"@[0]);
    assert("1600x1200"@[0] != "3840x1600"@[0]);
    assert("1600x1200"@[0] != "3840x2160"@[0]);
    assert("1600x1200"@[0] != "3840x2400"@[0]);
    assert("1600x1200"@[0] != "3840x2880"@[0]);
    assert("1600x1200"@[0] != "3840x3072"@[0]);
    assert("1600x1280"@[1] != "1920x1080"@[1]);
    assert("1600x1280"@[1] != "1920x1200"@[1]);
    assert("1600x1280"@[1] != "1920x1440"@[1]);
    assert("1600x1280"@[1] != "1920x1536"@[1]);
    assert("1600x1280"@[0] != "2560x1080"@[0]);
    assert("1600x1280"@[0] != "2560x1440"@[0]);
    assert("1600x1280"@[0] != "2560x1600"@[0]);
    assert("1600x1280"@[0] != "2560x1920"@[0]);
    assert("1600x1280"@[0] != "2560x2048"@[0]);
    assert("1600x1280"@[0] != "3840x1600"@[0]);
    assert("1600x1280"@[0] != "3840x2160"@[0]);
    assert("1600x1280"@[0] != "3840x2400"@[0]);
    assert("1600x1280"@[0] != "3840x2880"@[0]);
    assert("1600x1280"@[0] != "3840x3072"@[0]);
    assert("1920x1080"@[6] != "1920x1200"@[6]);
    assert("1920x1080"@[6] != "1920x1440"@[6]);
    assert("1920x1080"@[6] != "1920x1536"@[6]);
    assert("1920x1080"@[0] != "2560x1080"@[0]);
    assert("1920x1080"@[0] != "2560x1440"@[0]);
    assert("1920x1080"@[0] != "2560x1600"@[0]);
    assert("1920x1080"@[0] != "2560x1920"@[0]);
    assert("1920x1080"@[0] != "2560x2048"@[0]);
    assert("1920x1080"@[0] != "3840x1600"@[0]);
    assert("1920x1080"@[0] != "3840x2160"@[0]);
    assert("1920x1080"@[0] != "3840x2400"@[0]);
    assert("1920x1080"@[0] != "3840x2880"@[0]);
    assert("1920x1080"@[0] != "3840x3072"@[0]);
    assert("1920x1200"@[6] != "1920x1440"@[6]);
    assert("1920x1200"@[6] != "1920x1536"@[6]);
    assert("1920x1200"@[0] != "2560x1080"@[0]);
    assert("1920x1200"@[0] != "2560x1440"@[0]);
    assert("1920x1200"@[0] != "2560x1600"@[0]);
    assert("1920x1200"@[0] != "2560x1920"@[0]);
    assert("1920x1200"@[0] != "2560x2048"@[0]);
    assert("1920x1200"@[0] != "3840x1600"@[0]);
    assert("1920x1200"@[0] != "3840x2160"@[0]);
    assert("1920x1200"@[0] != "3840x2400"@[0]);
    assert("1920x1200"@[0] != "3840x2880"@[0]);
    assert("1920x1200"@[0] != "3840x3072"@[0]);
    assert("1920x1440"@[6] != "1920x1536"@[6]);
    assert("1920x1440"@[0] != "2560x1080"@[0]);
    assert("1920x1440"@[0] != "2560x1440"@[0]);
    assert("1920x1440"@[0] != "2560x1600"@[0]);
    assert("1920x1440"@[0] != "2560x1920"@[0]);
    assert("1920x1440"@[0] != "2560x2048"@[0]);
    assert("1920x1440"@[0] != "3840x1600"@[0]);
    assert("1920x1440"@[0] != "3840x2160"@[0]);
    assert("1920x1440"@[0] != "3840x2400"@[0]);
    assert("1920x1440"@[0] != "3840x2880"@[0]);
    assert("1920x1440"@[0] != "3840x3072"@[0]);
    assert("1920x1536"@[0] != "2560x1080"@[0]);
    assert("1920x1536"@[0] != "2560x1440"@[0]);
    assert("1920x1536"@[0] != "2560x1600"@[0]);
    assert("1920x1536"@[0] != "2560x1920"@[0]);
    assert("1920x1536"@[0] != "2560x2048"@[0]);
    assert("1920x1536"@[0] != "3840x1600"@[0]);
    assert("1920x1536"@[0] != "3840x2160"@[0]);
    assert("1920x1536"@[0] != "3840x2400"@[0]);
    assert("1920x1536"@[0] != "3840x2880"@[0]);
    assert("1920x1536"@[0] != "3840x3072"@[0]);
    assert("2560x1080"@[6] != "2560x1440"@[6]);
    assert("2560x1080"@[6] != "2560x1600"@[6]);
    assert("2560x1080"@[6] != "2560x1920"@[6]);
    assert("2560x1080"@[5] != "2560x2048"@[5]);
    assert("2560x1080"@[0] != "3840x1600"@[0]);
    assert("2560x1080"@[0] != "3840x2160"@[0]);
    assert("2560x1080"@[0] != "3840x2400"@[0]);
    assert("2560x1080"@[0] != "3840x2880"@[0]);
    assert("2560x1080"@[0] != "3840x3072"@[0]);
    assert("2560x1440"@[6] != "2560x1600"@[6]);
    assert("2560x1440"@[6] != "2560x1920"@[6]);
    assert("2560x1440"@[5] != "2560x2048"@[5]);
    assert("2560x1440"@[0] != "3840x1600"@[0]);
    assert("2560x1440"@[0] != "3840x2160"@[0]);
    assert("2560x1440"@[0] != "3840x2400"@[0]);
    assert("2560x1440"@[0] != "3840x2880"@[0]);
    assert("2560x1440"@[0] != "3840x3072"@[0]);
    assert("2560x1600"@[6] != "2560x1920"@[6]);
    assert("2560x1600"@[5] != "2560x2048"@[5]);
    assert("2560x1600"@[0] != "3840x1600"@[0]);
    assert("2560x1600"@[0] != "3840x2160"@[0]);
    assert("2560x1600"@[0] != "3840x2400"@[0]);
    assert("2560x1600"@[0] != "3840x2880"@[0]);
    assert("2560x1600"@[0] != "3840x3072"@[0]);
    assert("2560x1920"@[5] != "2560x2048"@[5]);
    assert("2560x1920"@[0] != "3840x1600"@[0]);
    assert("2560x1920"@[0] != "3840x2160"@[0]);
    assert("2560x1920"@[0] != "3840x2400"@[0]);
    assert("2560x1920"@[0] != "3840x2880"@[0]);
    assert("2560x1920"@[0] != "3840x3072"@[0]);
    assert("2560x2048"@[0] != "3840x1600"@[0]);
    assert("2560x2048"@[0] != "3840x2160"@[0]);
    assert("2560x2048"@[0] != "3840x2400"@[0]);
    assert("2560x2048"@[0] != "3840x2880"@[0]);
    assert("2560x2048"@[0] != "3840x3072"@[0]);
    assert("3840x1600"@[5] != "3840x2160"@[5]);
    assert("3840x1600"@[5] != "3840x2400"@[5]);
    assert("3840x1600"@[5] != "3840x2880"@[5]);
    assert("3840x1600"@[5] != "3840x3072"@[5]);
    assert("3840x2160"@[6] != "3840x2400"@[6]);
    assert("3840x2160"@[6] != "3840x2880"@[6]);
    assert("3840x2160"@[5] != "3840x3072"@[5]);
    assert("3840x2400"@[6] != "3840x2880"@[6]);
    assert("3840x2400"@[5] != "3840x3072"@[5]);
    assert("3840x2880"@[5] != "3840x3072"@[5]);
    assert(resolution_of("2560x1080"@) == Some(Resolution::R2560x1080));
    assert(resolution_of("2560x1440"@) == Some(Resolution::R2560x1440U));
    assert(resolution_of("3840x1600"@) == Some(Resolution::R3840x1600));
    assert(resolution_of("1280x720"@) == Some(Resolution::R1280x720));
    assert(resolution_of("1600x900"@) == Some(Resolution::R1600x900));
    assert(resolution_of("1920x1080"@) == Some(Resolution::R1920x1080));
    assert(resolution_of("3840x2160"@) == Some(Resolution::R3840x2160));
    assert(resolution_of("1280x800"@) == Some(Resolution::R1280x800));
    assert(resolution_of("1600x1000"@) == Some(Resolution::R1600x1000));
    assert(resolution_of("1920x1200"@) == Some(Resolution::R1920x1200));
    assert(resolution_of("2560x1600"@) == Some(Resolution::R2560x1600));
    assert(resolution_of("3840x2400"@) == Some(Resolution::R3840x2400));
    assert(resolution_of("1280x960"@) == Some(Resolution::R1280x960));
    assert(resolution_of("1600x1200"@) == Some(Resolution::R1600x1200_4_3));
    assert(resolution_of("1920x1440"@) == Some(Resolution::R1920x1440));
    assert(resolution_of("2560x1920"@) == Some(Resolution::R2560x1920));
    assert(resolution_of("3840x2880"@) == Some(Resolution::R3840x2880));
    assert(resolution_of("1280x1024"@) == Some(Resolution::R1280x1024));
    assert(resolution_of("1600x1280"@) == Some(Resolution::R1600x1280));
    assert(resolution_of("1920x1536"@) == Some(Resolution::R1920x1536));
    assert(resolution_of("2560x2048"@) == Some(Resolution::R2560x2048));
    assert(resolution_of("3840x3072"@) == Some(Resolution::R3840x3072));
}

/// Aspect ratio filter value.
#[derive(Debug, Clone, Copy, PartialEq, Eq, Structural)]
pub enum AspectRatio {
    R16x9,
    R16x10,
    R21x9,
    R32x9,
    R48x9,
    R9x16,
    R10x16,
    R9x18,
    R1x1,
    R3x2,
    R4x3,
    R5x4,
}

/// The name a `AspectRatio` is written with in the API and in the configuration.
pub open spec fn aspect_ratio_name(x: AspectRatio) -> Seq<char> {
    match x {
        AspectRatio::R16x9 => "16x9"@,
        AspectRatio::R16x10 => "16x10"@,
        AspectRatio::R21x9 => "21x9"@,
        AspectRatio::R32x9 => "32x9"@,
        AspectRatio::R48x9 => "48x9"@,
        AspectRatio::R9x16 => "9x16"@,
        AspectRatio::R10x16 => "10x16"@,
        AspectRatio::R9x18 => "9x18"@,
        AspectRatio::R1x1 => "1x1"@,
        AspectRatio::R3x2 => "3x2"@,
        AspectRatio::R4x3 => "4x3"@,
        AspectRatio::R5x4 => "5x4"@,
    }
}

/// The `AspectRatio` a stored name denotes, if any.
pub open spec fn aspect_ratio_of(s: Seq<char>) -> Option<AspectRatio> {
    if s == "16x9"@ {
        Some(AspectRatio::R16x9)
    } else if s == "16x10"@ {
        Some(AspectRatio::R16x10)
    } else if s == "21x9"@ {
        Some(AspectRatio::R21x9)
    } else if s == "32x9"@ {
        Some(AspectRatio::R32x9)
    } else if s == "48x9"@ {
        Some(AspectRatio::R48x9)
    } else if s == "9x16"@ {
        Some(AspectRatio::R9x16)
    } else if s == "10x16"@ {
        Some(AspectRatio::R10x16)
    } else if s == "9x18"@ {
        Some(AspectRatio::R9x18)
    } else if s == "1x1"@ {
        Some(AspectRatio::R1x1)
    } else if s == "3x2"@ {
        Some(AspectRatio::R3x2)
    } else if s == "4x3"@ {
        Some(AspectRatio::R4x3)
    } else if s == "5x4"@ {
        Some(AspectRatio::R5x4)
    } else {
        None
    }
}

impl AspectRatio {
    /// The name this value is written with.
    pub fn value(&self) -> (r: &'static str)
        ensures
            r@ == aspect_ratio_name(*self),
    {
        match self {
            AspectRatio::R16x9 => "16x9",
            AspectRatio::R16x10 => "16x10",
            AspectRatio::R21x9 => "21x9",
            AspectRatio::R32x9 => "32x9",
            AspectRatio::R48x9 => "48x9",
            AspectRatio::R9x16 => "9x16",
            AspectRatio::R10x16 => "10x16",
            AspectRatio::R9x18 => "9x18",
            AspectRatio::R1x1 => "1x1",
            AspectRatio::R3x2 => "3x2",
            AspectRatio::R4x3 => "4x3",
            AspectRatio::R5x4 => "5x4",
        }
    }

    /// Reads a stored name.
    pub fn parse(s: &str) -> (r: Option<AspectRatio>)
        ensures
            r == aspect_ratio_of(s@),
    {
        if str_eq(s, "16x9") {
            Some(AspectRatio::R16x9)
        } else if str_eq(s, "16x10") {
            Some(AspectRatio::R16x10)
        } else if str_eq(s, "21x9") {
            Some(AspectRatio::R21x9)
        } else if str_eq(s, "32x9") {
            Some(AspectRatio::R32x9)
        } else if str_eq(s, "48x9") {
            Some(AspectRatio::R48x9)
        } else if str_eq(s, "9x16") {
            Some(AspectRatio::R9x16)
        } else if str_eq(s, "10x16") {
            Some(AspectRatio::R10x16)
        } else if str_eq(s, "9x18") {
            Some(AspectRatio::R9x18)
        } else if str_eq(s, "1x1") {
            Some(AspectRatio::R1x1)
        } else if str_eq(s, "3x2") {
            Some(AspectRatio::R3x2)
        } else if str_eq(s, "4x3") {
            Some(AspectRatio::R4x3)
        } else if str_eq(s, "5x4") {
            Some(AspectRatio::R5x4)
        } else {
            None
        }
    }
}

/// Reading back the name of a value gives that value.
pub proof fn lemma_aspect_ratio_roundtrip(x: AspectRatio)
    ensures
        aspect_ratio_of(aspect_ratio_name(x)) == Some(x),
{
    reveal_strlit("10x16");
    reveal_strlit("16x10");
    reveal_strlit("16x9");
    reveal_strlit("1x1");
    reveal_strlit("21x9");
    reveal_strlit("32x9");
    reveal_strlit("3x2");
    reveal_strlit("48x9");
    reveal_strlit("4x3");
    reveal_strlit("5x4");
    reveal_strlit("9x16");
    reveal_strlit("9x18");
    assert("10x16"@.len() == 5 && "16x10"@.len() == 5 && "16x9"@.len() == 4 && "1x1"@.len() == 3 && "21x9"@.len() == 4 && "32x9"@.len() == 4 && "3x2"@.len() == 3 && "48x9"@.len() == 4 && "4x3"@.len() == 3 && "5x4"@.len() == 3 && "9x16"@.len() == 4 && "9x18"@.len() == 4);
    assert("10x16"@[1] != "16x10"@[1]);
    assert("16x9"@[0] != "21x9"@[0]);
    assert("16x9"@[0] != "32x9"@[0]);
    assert("16x9"@[0] != "48x9"@[0]);
    assert("16x9"@[0] != "9x16"@[0]);
    assert("16x9"@[0] != "9x18"@[0]);
    assert("1x1"@[0] != "3x2"@[0]);
    assert("1x1"@[0] != "4x3"@[0]);
    assert("1x1"@[0] != "5x4"@[0]);
    assert("21x9"@[0] != "32x9"@[0]);
    assert("21x9"@[0] != "48x9"@[0]);
    assert("21x9"@[0] != "9x16"@[0]);
    assert("21x9"@[0] != "9x18"@[0]);
    assert("32x9"@[0] != "48x9"@[0]);
    assert("32x9"@[0] != "9x16"@[0]);
    assert("32x9"@[0] != "9x18"@[0]);
    assert("3x2"@[0] != "4x3"@[0]);
    assert("3x2"@[0] != "5x4"@[0]);
    assert("48x9"@[0] != "9x16"@[0]);
    assert("48x9"@[0] != "9x18"@[0]);
    assert("4x3"@[0] != "5x4"@[0]);
    assert("9x16"@[3] != "9x18"@[3]);
    assert(aspect_ratio_of("16x9"@) == Some(AspectRatio::R16x9));
    assert(aspect_ratio_of("16x10"@) == Some(AspectRatio::R16x10));
    assert(aspect_ratio_of("21x9"@) == Some(AspectRatio::R21x9));
    assert(aspect_ratio_of("32x9"@) == Some(AspectRatio::R32x9));
    assert(aspect_ratio_of("48x9"@) == Some(AspectRatio::R48x9));
    assert(aspect_ratio_of("9x16"@) == Some(AspectRatio::R9x16));
    assert(aspect_ratio_of("10x16"@) == Some(AspectRatio::R10x16));
    assert(aspect_ratio_of("9x18"@) == Some(AspectRatio::R9x18));
    assert(aspect_ratio_of("1x1"@) == Some(AspectRatio::R1x1));
    assert(aspect_ratio_of("3x2"@) == Some(AspectRatio::R3x2));
    assert(aspect_ratio_of("4x3"@) == Some(AspectRatio::R4x3));
    assert(aspect_ratio_of("5x4"@) == Some(AspectRatio::R5x4));
}

/// Whether a ratio belongs to the wide and ultrawide groups that "all landscape" covers.
pub open spec fn is_landscape_ratio(r: AspectRatio) -> bool {
    r == AspectRatio::R16x9 || r == AspectRatio::R16x10 || r == AspectRatio::R21x9
        || r == AspectRatio::R32x9 || r == AspectRatio::R48x9
}

/// Whether a ratio belongs to the portrait group that "all portrait" covers.
pub open spec fn is_portrait_ratio(r: AspectRatio) -> bool {
    r == AspectRatio::R9x16 || r == AspectRatio::R10x16 || r == AspectRatio::R9x18
}

impl AspectRatio {
    pub fn is_landscape(&self) -> (b: bool)
        ensures
            b == is_landscape_ratio(*self),
    {
        match self {
            AspectRatio::R16x9 | AspectRatio::R16x10 | AspectRatio::R21x9 | AspectRatio::R32x9
            | AspectRatio::R48x9 => true,
            _ => false,
        }
    }

    pub fn is_portrait(&self) -> (b: bool)
        ensures
            b == is_portrait_ratio(*self),
    {
        match self {
            AspectRatio::R9x16 | AspectRatio::R10x16 | AspectRatio::R9x18 => true,
            _ => false,
        }
    }
}


/// The name of a resolution other than `Any` is non-empty, holds no comma and
/// neither starts nor ends with whitespace.
pub proof fn lemma_resolution_name_clean(x: Resolution)
    requires
        x != Resolution::Any,
    ensures
        resolution_name(x).len() > 0,
        !resolution_name(x).contains(','),
        !is_ws(resolution_name(x)[0]),
        !is_ws(resolution_name(x).last()),
{
    reveal_strlit("");
    reveal_strlit("1280x1024");
    reveal_strlit("1280x720");
    reveal_strlit("1280x800");
    reveal_strlit("1280x960");
    reveal_strlit("1600x1000");
    reveal_strlit("1600x1200");
    reveal_strlit("1600x1280");
    reveal_strlit("1600x900");
    reveal_strlit("1920x1080");
    reveal_strlit("1920x1200");
    reveal_strlit("1920x1440");
    reveal_strlit("1920x1536");
    reveal_strlit("2560x1080");
    reveal_strlit("2560x1440");
    reveal_strlit("2560x1600");
    reveal_strlit("2560x1920");
    reveal_strlit("2560x2048");
    reveal_strlit("3840x1600");
    reveal_strlit("3840x2160");
    reveal_strlit("3840x2400");
    reveal_strlit("3840x2880");
    reveal_strlit("3840x3072");
    assert(""@.len() == 0 && "1280x1024"@.len() == 9 && "1280x720"@.len() == 8 && "1280x800"@.len() == 8 && "1280x960"@.len() == 8 && "1600x1000"@.len() == 9 && "1600x1200"@.len() == 9 && "1600x1280"@.len() == 9 && "1600x900"@.len() == 8 && "1920x1080"@.len() == 9 && "1920x1200"@.len() == 9 && "1920x1440"@.len() == 9 && "1920x1536"@.len() == 9 && "2560x1080"@.len() == 9 && "2560x1440"@.len() == 9 && "2560x1600"@.len() == 9 && "2560x1920"@.len() == 9 && "2560x2048"@.len() == 9 && "3840x1600"@.len() == 9 && "3840x2160"@.len() == 9 && "3840x2400"@.len() == 9 && "3840x2880"@.len() == 9 && "3840x3072"@.len() == 9);
    assert("1280x1024"@[1] != "1600x1000"@[1]);
    assert("1280x1024"@[1] != "1600x1200"@[1]);
    assert("1280x1024"@[1] != "1600x1280"@[1]);
    assert("1280x1024"@[1] != "1920x1080"@[1]);
    assert("1280x1024"@[1] != "1920x1200"@[1]);
    assert("1280x1024"@[1] != "1920x1440"@[1]);
    assert("1280x1024"@[1] != "1920x1536"@[1]);
    assert("1280x1024"@[0] != "2560x1080"@[0]);
    assert("1280x1024"@[0] != "2560x1440"@[0]);
    assert("1280x1024"@[0] != "2560x1600"@[0]);
    assert("1280x1024"@[0] != "2560x1920"@[0]);
    assert("1280x1024"@[0] != "2560x2048"@[0]);
    assert("1280x1024"@[0] != "3840x1600"@[0]);
    assert("1280x1024"@[0] != "3840x2160"@[0]);
    assert("1280x1024"@[0] != "3840x2400"@[0]);
    assert("1280x1024"@[0] != "3840x2880"@[0]);
    assert("1280x1024"@[0] != "3840x3072"@[0]);
    assert("1280x720"@[5] != "1280x800"@[5]);
    assert("1280x720"@[5] != "1280x960"@[5]);
    assert("1280x720"@[1] != "1600x900"@[1]);
    assert("1280x800"@[5] != "1280x960"@[5]);
    assert("1280x800"@[1] != "1600x900"@[1]);
    assert("1280x960"@[1] != "1600x900"@[1]);
    assert("1600x1000"@[6] != "1600x1200"@[6]);
    assert("1600x1000"@[6] != "1600x1280"@[6]);
    assert("1600x1000"@[1] != "1920x1080"@[1]);
    assert("1600x1000"@[1] != "1920x1200"@[1]);
    assert("1600x1000"@[1] != "1920x1440"@[1]);
    assert("1600x1000"@[1] != "1920x1536"@[1]);
    assert("1600x1000"@[0] != "2560x1080"@[0]);
    assert("1600x1000"@[0] != "2560x1440"@[0]);
    assert("1600x1000"@[0] != "2560x1600"@[0]);
    assert("1600x1000"@[0] != "2560x1920"@[0]);
    assert("1600x1000"@[0] != "2560x2048"@[0]);
    assert("1600x1000"@[0] != "3840x1600"@[0]);
    assert("1600x1000"@[0] != "3840x2160"@[0]);
    assert("1600x1000"@[0] != "3840x2400"@[0]);
    assert("1600x1000"@[0] != "3840x2880"@[0]);
    assert("1600x1000"@[0] != "3840x3072"@[0]);
    assert("1600x1200"@[7] != "1600x1280"@[7]);
    assert("1600x1200"@[1] != "1920x1080"@[1]);
    assert("1600x1200"@[1] != "1920x1200"@[1]);
    assert("1600x1200"@[1] != "1920x1440"@[1]);
    assert("1600x1200"@[1] != "1920x1536"@[1]);
    assert("1600x1200"@[0] != "2560x1080"@[0]);
    assert("1600x1200"@[0] != "2560x1440"@[0]);
    assert("1600x1200"@[0] != "2560x1600"@[0]);
    assert("1600x1200"@[0] != "2560x1920"@[0]);
    assert("1600x1200"@[0] != "2560x2048"@[0]);
    assert("1600x1200"@[0] != "3840x1600"@[0]);
    assert("1600x1200"@[0] != "3840x2160"@[0]);
    assert("1600x1200"@[0] != "3840x2400"@[0]);
    assert("1600x1200"@[0] != "3840x2880"@[0]);
    assert("1600x1200"@[0] != "3840x3072"@[0]);
    assert("1600x1280"@[1] != "1920x1080"@[1]);
    assert("1600x1280"@[1] != "1920x1200"@[1]);
    assert("1600x1280"@[1] != "1920x1440"@[1]);
    assert("1600x1280"@[1] != "1920x1536"@[1]);
    assert("1600x1280"@[0] != "2560x1080"@[0]);
    assert("1600x1280"@[0] != "2560x1440"@[0]);
    assert("1600x1280"@[0] != "2560x1600"@[0]);
    assert("1600x1280"@[0] != "2560x1920"@[0]);
    assert("1600x1280"@[0] != "2560x2048"@[0]);
    assert("1600x1280"@[0] != "3840x1600"@[0]);
    assert("1600x1280"@[0] != "3840x2160"@[0]);
    assert("1600x1280"@[0] != "3840x2400"@[0]);
    assert("1600x1280"@[0] != "3840x2880"@[0]);
    assert("1600x1280"@[0] != "3840x3072"@[0]);
    assert("1920x1080"@[6] != "1920x1200"@[6]);
    assert("1920x1080"@[6] != "1920x1440"@[6]);
    assert("1920x1080"@[6] != "1920x1536"@[6]);
    assert("1920x1080"@[0] != "2560x1080"@[0]);
    assert("1920x1080"@[0] != "2560x1440"@[0]);
    assert("1920x1080"@[0] != "2560x1600"@[0]);
    assert("1920x1080"@[0] != "2560x1920"@[0]);
    assert("1920x1080"@[0] != "2560x2048"@[0]);
    assert("1920x1080"@[0] != "3840x1600"@[0]);
    assert("1920x1080"@[0] != "3840x2160"@[0]);
    assert("1920x1080"@[0] != "3840x2400"@[0]);
    assert("1920x1080"@[0] != "3840x2880"@[0]);
    assert("1920x1080"@[0] != "3840x3072"@[0]);
    assert("1920x1200"@[6] != "1920x1440"@[6]);
    assert("1920x1200"@[6] != "1920x1536"@[6]);
    assert("1920x1200"@[0] != "2560x1080"@[0]);
    assert("1920x1200"@[0] != "2560x1440"@[0]);
    assert("1920x1200"@[0] != "2560x1600"@[0]);
    assert("1920x1200"@[0] != "2560x1920"@[0]);
    assert("1920x1200"@[0] != "2560x2048"@[0]);
    assert("1920x1200"@[0] != "3840x1600"@[0]);
    assert("1920x1200"@[0] != "3840x2160"@[0]);
    assert("1920x1200"@[0] != "3840x2400"@[0]);
    assert("1920x1200"@[0] != "3840x2880"@[0]);
    assert("1920x1200"@[0] != "3840x3072"@[0]);
    assert("1920x1440"@[6] != "1920x1536"@[6]);
    assert("1920x1440"@[0] != "2560x1080"@[0]);
    assert("1920x1440"@[0] != "2560x1440"@[0]);
    assert("1920x1440"@[0] != "2560x1600"@[0]);
    assert("1920x1440"@[0] != "2560x1920"@[0]);
    assert("1920x1440"@[0] != "2560x2048"@[0]);
    assert("1920x1440"@[0] != "3840x1600"@[0]);
    assert("1920x1440"@[0] != "3840x2160"@[0]);
    assert("1920x1440"@[0] != "3840x2400"@[0]);
    assert("1920x1440"@[0] != "3840x2880"@[0]);
    assert("1920x1440"@[0] != "3840x3072"@[0]);
    assert("1920x1536"@[0] != "2560x1080"@[0]);
    assert("1920x1536"@[0] != "2560x1440"@[0]);
    assert("1920x1536"@[0] != "2560x1600"@[0]);
    assert("1920x1536"@[0] != "2560x1920"@[0]);
    assert("1920x1536"@[0] != "2560x2048"@[0]);
    assert("1920x1536"@[0] != "3840x1600"@[0]);
    assert("1920x1536"@[0] != "3840x2160"@[0]);
    assert("1920x1536"@[0] != "3840x2400"@[0]);
    assert("1920x1536"@[0] != "3840x2880"@[0]);
    assert("1920x1536"@[0] != "3840x3072"@[0]);
    assert("2560x1080"@[6] != "2560x1440"@[6]);
    assert("2560x1080"@[6] != "2560x1600"@[6]);
    assert("2560x1080"@[6] != "2560x1920"@[6]);
    assert("2560x1080"@[5] != "2560x2048"@[5]);
    assert("2560x1080"@[0] != "3840x1600"@[0]);
    assert("2560x1080"@[0] != "3840x2160"@[0]);
    assert("2560x1080"@[0] != "3840x2400"@[0]);
    assert("2560x1080"@[0] != "3840x2880"@[0]);
    assert("2560x1080"@[0] != "3840x3072"@[0]);
    assert("2560x1440"@[6] != "2560x1600"@[6]);
    assert("2560x1440"@[6] != "2560x1920"@[6]);
    assert("2560x1440"@[5] != "2560x2048"@[5]);
    assert("2560x1440"@[0] != "3840x1600"@[0]);
    assert("2560x1440"@[0] != "3840x2160"@[0]);
    assert("2560x1440"@[0] != "3840x2400"@[0]);
    assert("2560x1440"@[0] != "3840x2880"@[0]);
    assert("2560x1440"@[0] != "3840x3072"@[0]);
    assert("2560x1600"@[6] != "2560x1920"@[6]);
    assert("2560x1600"@[5] != "2560x2048"@[5]);
    assert("2560x1600"@[0] != "3840x1600"@[0]);
    assert("2560x1600"@[0] != "3840x2160"@[0]);
    assert("2560x1600"@[0] != "3840x2400"@[0]);
    assert("2560x1600"@[0] != "3840x2880"@[0]);
    assert("2560x1600"@[0] != "3840x3072"@[0]);
    assert("2560x1920"@[5] != "2560x2048"@[5]);
    assert("2560x1920"@[0] != "3840x1600"@[0]);
    assert("2560x1920"@[0] != "3840x2160"@[0]);
    assert("2560x1920"@[0] != "3840x2400"@[0]);
    assert("2560x1920"@[0] != "3840x2880"@[0]);
    assert("2560x1920"@[0] != "3840x3072"@[0]);
    assert("2560x2048"@[0] != "3840x1600"@[0]);
    assert("2560x2048"@[0] != "3840x2160"@[0]);
    assert("2560x2048"@[0] != "3840x2400"@[0]);
    assert("2560x2048"@[0] != "3840x2880"@[0]);
    assert("2560x2048"@[0] != "3840x3072"@[0]);
    assert("3840x1600"@[5] != "3840x2160"@[5]);
    assert("3840x1600"@[5] != "3840x2400"@[5]);
    assert("3840x1600"@[5] != "3840x2880"@[5]);
    assert("3840x1600"@[5] != "3840x3072"@[5]);
    assert("3840x2160"@[6] != "3840x2400"@[6]);
    assert("3840x2160"@[6] != "3840x2880"@[6]);
    assert("3840x2160"@[5] != "3840x3072"@[5]);
    assert("3840x2400"@[6] != "3840x2880"@[6]);
    assert("3840x2400"@[5] != "3840x3072"@[5]);
    assert("3840x2880"@[5] != "3840x3072"@[5]);
}

/// No resolution is named by the empty text.
pub proof fn lemma_resolution_of_empty()
    ensures
        resolution_of(Seq::<char>::empty()) == None::<Resolution>,
{
    reveal_strlit("");
    reveal_strlit("1280x1024");
    reveal_strlit("1280x720");
    reveal_strlit("1280x800");
    reveal_strlit("1280x960");
    reveal_strlit("1600x1000");
    reveal_strlit("1600x1200");
    reveal_strlit("1600x1280");
    reveal_strlit("1600x900");
    reveal_strlit("1920x1080");
    reveal_strlit("1920x1200");
    reveal_strlit("1920x1440");
    reveal_strlit("1920x1536");
    reveal_strlit("2560x1080");
    reveal_strlit("2560x1440");
    reveal_strlit("2560x1600");
    reveal_strlit("2560x1920");
    reveal_strlit("2560x2048");
    reveal_strlit("3840x1600");
    reveal_strlit("3840x2160");
    reveal_strlit("3840x2400");
    reveal_strlit("3840x2880");
    reveal_strlit("3840x3072");
    assert(""@.len() == 0 && "1280x1024"@.len() == 9 && "1280x720"@.len() == 8 && "1280x800"@.len() == 8 && "1280x960"@.len() == 8 && "1600x1000"@.len() == 9 && "1600x1200"@.len() == 9 && "1600x1280"@.len() == 9 && "1600x900"@.len() == 8 && "1920x1080"@.len() == 9 && "1920x1200"@.len() == 9 && "1920x1440"@.len() == 9 && "1920x1536"@.len() == 9 && "2560x1080"@.len() == 9 && "2560x1440"@.len() == 9 && "2560x1600"@.len() == 9 && "2560x1920"@.len() == 9 && "2560x2048"@.len() == 9 && "3840x1600"@.len() == 9 && "3840x2160"@.len() == 9 && "3840x2400"@.len() == 9 && "3840x2880"@.len() == 9 && "3840x3072"@.len() == 9);
    assert("1280x1024"@[1] != "1600x1000"@[1]);
    assert("1280x1024"@[1] != "1600x1200"@[1]);
    assert("1280x1024"@[1] != "1600x1280"@[1]);
    assert("1280x1024"@[1] != "1920x1080"@[1]);
    assert("1280x1024"@[1] != "1920x1200"@[1]);
    assert("1280x1024"@[1] != "1920x1440"@[1]);
    assert("1280x1024"@[1] != "1920x1536"@[1]);
    assert("1280x1024"@[0] != "2560x1080"@[0]);
    assert("1280x1024"@[0] != "2560x1440"@[0]);
    assert("1280x1024"@[0] != "2560x1600"@[0]);
    assert("1280x1024"@[0] != "2560x1920"@[0]);
    assert("1280x1024"@[0] != "2560x2048"@[0]);
    assert("1280x1024"@[0] != "3840x1600"@[0]);
    assert("1280x1024"@[0] != "3840x2160"@[0]);
    assert("1280x1024"@[0] != "3840x2400"@[0]);
    assert("1280x1024"@[0] != "3840x2880"@[0]);
    assert("1280x1024"@[0] != "3840x3072"@[0]);
    assert("1280x720"@[5] != "1280x800"@[5]);
    assert("1280x720"@[5] != "1280x960"@[5]);
    assert("1280x720"@[1] != "1600x900"@[1]);
    assert("1280x800"@[5] != "1280x960"@[5]);
    assert("1280x800"@[1] != "1600x900"@[1]);
    assert("1280x960"@[1] != "1600x900"@[1]);
    assert("1600x1000"@[6] != "1600x1200"@[6]);
    assert("1600x1000"@[6] != "1600x1280"@[6]);
    assert("1600x1000"@[1] != "1920x1080"@[1]);
    assert("1600x1000"@[1] != "1920x1200"@[1]);
    assert("1600x1000"@[1] != "1920x1440"@[1]);
    assert("1600x1000"@[1] != "1920x1536"@[1]);
    assert("1600x1000"@[0] != "2560x1080"@[0]);
    assert("1600x1000"@[0] != "2560x1440"@[0]);
    assert("1600x1000"@[0] != "2560x1600"@[0]);
    assert("1600x1000"@[0] != "2560x1920"@[0]);
    assert("1600x1000"@[0] != "2560x2048"@[0]);
    assert("1600x1000"@[0] != "3840x1600"@[0]);
    assert("1600x1000"@[0] != "3840x2160"@[0]);
    assert("1600x1000"@[0] != "3840x2400"@[0]);
    assert("1600x1000"@[0] != "3840x2880"@[0]);
    assert("1600x1000"@[0] != "3840x3072"@[0]);
    assert("1600x1200"@[7] != "1600x1280"@[7]);
    assert("1600x1200"@[1] != "1920x1080"@[1]);
    assert("1600x1200"@[1] != "1920x1200"@[1]);
    assert("1600x1200"@[1] != "1920x1440"@[1]);
    assert("1600x1200"@[1] != "1920x1536"@[1]);
    assert("1600x1200"@[0] != "2560x1080"@[0]);
    assert("1600x1200"@[0] != "2560x1440"@[0]);
    assert("1600x1200"@[0] != "2560x1600"@[0]);
    assert("1600x1200"@[0] != "2560x1920"@[0]);
    assert("1600x1200"@[0] != "2560x2048"@[0]);
    assert("1600x1200"@[0] != "3840x1600"@[0]);
    assert("1600x1200"@[0] != "3840x2160"@[0]);
    assert("1600x1200"@[0] != "3840x2400"@[0]);
    assert("1600x1200"@[0] != "3840x2880"@[0]);
    assert("1600x1200"@[0] != "3840x3072"@[0]);
    assert("1600x1280"@[1] != "1920x1080"@[1]);
    assert("1600x1280"@[1] != "1920x1200"@[1]);
    assert("1600x1280"@[1] != "1920x1440"@[1]);
    assert("1600x1280"@[1] != "1920x1536"@[1]);
    assert("1600x1280"@[0] != "2560x1080"@[0]);
    assert("1600x1280"@[0] != "2560x1440"@[0]);
    assert("1600x1280"@[0] != "2560x1600"@[0]);
    assert("1600x1280"@[0] != "2560x1920"@[0]);
    assert("1600x1280"@[0] != "2560x2048"@[0]);
    assert("1600x1280"@[0] != "3840x1600"@[0]);
    assert("1600x1280"@[0] != "3840x2160"@[0]);
    assert("1600x1280"@[0] != "3840x2400"@[0]);
    assert("1600x1280"@[0] != "3840x2880"@[0]);
    assert("1600x1280"@[0] != "3840x3072"@[0]);
    assert("1920x1080"@[6] != "1920x1200"@[6]);
    assert("1920x1080"@[6] != "1920x1440"@[6]);
    assert("1920x1080"@[6] != "1920x1536"@[6]);
    assert("1920x1080"@[0] != "2560x1080"@[0]);
    assert("1920x1080"@[0] != "2560x1440"@[0]);
    assert("1920x1080"@[0] != "2560x1600"@[0]);
    assert("1920x1080"@[0] != "2560x1920"@[0]);
    assert("1920x1080"@[0] != "2560x2048"@[0]);
    assert("1920x1080"@[0] != "3840x1600"@[0]);
    assert("1920x1080"@[0] != "3840x2160"@[0]);
    assert("1920x1080"@[0] != "3840x2400"@[0]);
    assert("1920x1080"@[0] != "3840x2880"@[0]);
    assert("1920x1080"@[0] != "3840x3072"@[0]);
    assert("1920x1200"@[6] != "1920x1440"@[6]);
    assert("1920x1200"@[6] != "1920x1536"@[6]);
    assert("1920x1200"@[0] != "2560x1080"@[0]);
    assert("1920x1200"@[0] != "2560x1440"@[0]);
    assert("1920x1200"@[0] != "2560x1600"@[0]);
    assert("1920x1200"@[0] != "2560x1920"@[0]);
    assert("1920x1200"@[0] != "2560x2048"@[0]);
    assert("1920x1200"@[0] != "3840x1600"@[0]);
    assert("1920x1200"@[0] != "3840x2160"@[0]);
    assert("1920x1200"@[0] != "3840x2400"@[0]);
    assert("1920x1200"@[0] != "3840x2880"@[0]);
    assert("1920x1200"@[0] != "3840x3072"@[0]);
    assert("1920x1440"@[6] != "1920x1536"@[6]);
    assert("1920x1440"@[0] != "2560x1080"@[0]);
    assert("1920x1440"@[0] != "2560x1440"@[0]);
    assert("1920x1440"@[0] != "2560x1600"@[0]);
    assert("1920x1440"@[0] != "2560x1920"@[0]);
    assert("1920x1440"@[0] != "2560x2048"@[0]);
    assert("1920x1440"@[0] != "3840x1600"@[0]);
    assert("1920x1440"@[0] != "3840x2160"@[0]);
    assert("1920x1440"@[0] != "3840x2400"@[0]);
    assert("1920x1440"@[0] != "3840x2880"@[0]);
    assert("1920x1440"@[0] != "3840x3072"@[0]);
    assert("1920x1536"@[0] != "2560x1080"@[0]);
    assert("1920x1536"@[0] != "2560x1440"@[0]);
    assert("1920x1536"@[0] != "2560x1600"@[0]);
    assert("1920x1536"@[0] != "2560x1920"@[0]);
    assert("1920x1536"@[0] != "2560x2048"@[0]);
    assert("1920x1536"@[0] != "3840x1600"@[0]);
    assert("1920x1536"@[0] != "3840x2160"@[0]);
    assert("1920x1536"@[0] != "3840x2400"@[0]);
    assert("1920x1536"@[0] != "3840x2880"@[0]);
    assert("1920x1536"@[0] != "3840x3072"@[0]);
    assert("2560x1080"@[6] != "2560x1440"@[6]);
    assert("2560x1080"@[6] != "2560x1600"@[6]);
    assert("2560x1080"@[6] != "2560x1920"@[6]);
    assert("2560x1080"@[5] != "2560x2048"@[5]);
    assert("2560x1080"@[0] != "3840x1600"@[0]);
    assert("2560x1080"@[0] != "3840x2160"@[0]);
    assert("2560x1080"@[0] != "3840x2400"@[0]);
    assert("2560x1080"@[0] != "3840x2880"@[0]);
    assert("2560x1080"@[0] != "3840x3072"@[0]);
    assert("2560x1440"@[6] != "2560x1600"@[6]);
    assert("2560x1440"@[6] != "2560x1920"@[6]);
    assert("2560x1440"@[5] != "2560x2048"@[5]);
    assert("2560x1440"@[0] != "3840x1600"@[0]);
    assert("2560x1440"@[0] != "3840x2160"@[0]);
    assert("2560x1440"@[0] != "3840x2400"@[0]);
    assert("2560x1440"@[0] != "3840x2880"@[0]);
    assert("2560x1440"@[0] != "3840x3072"@[0]);
    assert("2560x1600"@[6] != "2560x1920"@[6]);
    assert("2560x1600"@[5] != "2560x2048"@[5]);
    assert("2560x1600"@[0] != "3840x1600"@[0]);
    assert("2560x1600"@[0] != "3840x2160"@[0]);
    assert("2560x1600"@[0] != "3840x2400"@[0]);
    assert("2560x1600"@[0] != "3840x2880"@[0]);
    assert("2560x1600"@[0] != "3840x3072"@[0]);
    assert("2560x1920"@[5] != "2560x2048"@[5]);
    assert("2560x1920"@[0] != "3840x1600"@[0]);
    assert("2560x1920"@[0] != "3840x2160"@[0]);
    assert("2560x1920"@[0] != "3840x2400"@[0]);
    assert("2560x1920"@[0] != "3840x2880"@[0]);
    assert("2560x1920"@[0] != "3840x3072"@[0]);
    assert("2560x2048"@[0] != "3840x1600"@[0]);
    assert("2560x2048"@[0] != "3840x2160"@[0]);
    assert("2560x2048"@[0] != "3840x2400"@[0]);
    assert("2560x2048"@[0] != "3840x2880"@[0]);
    assert("2560x2048"@[0] != "3840x3072"@[0]);
    assert("3840x1600"@[5] != "3840x2160"@[5]);
    assert("3840x1600"@[5] != "3840x2400"@[5]);
    assert("3840x1600"@[5] != "3840x2880"@[5]);
    assert("3840x1600"@[5] != "3840x3072"@[5]);
    assert("3840x2160"@[6] != "3840x2400"@[6]);
    assert("3840x2160"@[6] != "3840x2880"@[6]);
    assert("3840x2160"@[5] != "3840x3072"@[5]);
    assert("3840x2400"@[6] != "3840x2880"@[6]);
    assert("3840x2400"@[5] != "3840x3072"@[5]);
    assert("3840x2880"@[5] != "3840x3072"@[5]);
    assert(Seq::<char>::empty() =~= ""@);
}

/// Ratio names are non-empty, hold no comma and neither start nor end with
/// whitespace; they differ from the group words `landscape`, `portrait` and
/// `all`, which are clean too and denote no ratio.
pub proof fn lemma_ratio_names_clean(x: AspectRatio)
    ensures
        aspect_ratio_name(x).len() > 0,
        !aspect_ratio_name(x).contains(','),
        !is_ws(aspect_ratio_name(x)[0]),
        !is_ws(aspect_ratio_name(x).last()),
        aspect_ratio_name(x) != "landscape"@,
        aspect_ratio_name(x) != "portrait"@,
        aspect_ratio_name(x) != "all"@,
        aspect_ratio_of("landscape"@) == None::<AspectRatio>,
        aspect_ratio_of("portrait"@) == None::<AspectRatio>,
        "landscape"@ != "portrait"@,
        "landscape"@ != "all"@,
        "portrait"@ != "all"@,
        !"landscape"@.contains(','),
        !"portrait"@.contains(','),
        !"all"@.contains(','),
        !is_ws("landscape"@[0]),
        !is_ws("landscape"@.last()),
        !is_ws("portrait"@[0]),
        !is_ws("portrait"@.last()),
{
    reveal_strlit("16x9");
    reveal_strlit("16x10");
    reveal_strlit("21x9");
    reveal_strlit("32x9");
    reveal_strlit("48x9");
    reveal_strlit("9x16");
    reveal_strlit("10x16");
    reveal_strlit("9x18");
    reveal_strlit("1x1");
    reveal_strlit("3x2");
    reveal_strlit("4x3");
    reveal_strlit("5x4");
    reveal_strlit("landscape");
    reveal_strlit("portrait");
    reveal_strlit("all");
    assert("16x9"@.len() == 4 && "16x10"@.len() == 5 && "21x9"@.len() == 4 && "32x9"@.len() == 4 && "48x9"@.len() == 4 && "9x16"@.len() == 4 && "10x16"@.len() == 5 && "9x18"@.len() == 4 && "1x1"@.len() == 3 && "3x2"@.len() == 3 && "4x3"@.len() == 3 && "5x4"@.len() == 3 && "landscape"@.len() == 9 && "portrait"@.len() == 8 && "all"@.len() == 3);
    assert("16x9"@[0] != "21x9"@[0]);
    assert("16x9"@[0] != "32x9"@[0]);
    assert("16x9"@[0] != "48x9"@[0]);
    assert("16x9"@[0] != "9x16"@[0]);
    assert("16x9"@[0] != "9x18"@[0]);
    assert("16x10"@[1] != "10x16"@[1]);
    assert("21x9"@[0] != "32x9"@[0]);
    assert("21x9"@[0] != "48x9"@[0]);
    assert("21x9"@[0] != "9x16"@[0]);
    assert("21x9"@[0] != "9x18"@[0]);
    assert("32x9"@[0] != "48x9"@[0]);
    assert("32x9"@[0] != "9x16"@[0]);
    assert("32x9"@[0] != "9x18"@[0]);
    assert("48x9"@[0] != "9x16"@[0]);
    assert("48x9"@[0] != "9x18"@[0]);
    assert("9x16"@[3] != "9x18"@[3]);
    assert("1x1"@[0] != "3x2"@[0]);
    assert("1x1"@[0] != "4x3"@[0]);
    assert("1x1"@[0] != "5x4"@[0]);
    assert("1x1"@[0] != "all"@[0]);
    assert("3x2"@[0] != "4x3"@[0]);
    assert("3x2"@[0] != "5x4"@[0]);
    assert("3x2"@[0] != "all"@[0]);
    assert("4x3"@[0] != "5x4"@[0]);
    assert("4x3"@[0] != "all"@[0]);
    assert("5x4"@[0] != "all"@[0]);
}

} // verus!
