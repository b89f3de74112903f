//! The filter selection of the online page, its persisted form in the
//! `[wallhaven]` configuration section, and the reading and writing of it.

use vstd::prelude::*;
use crate::mask::{mask_of, mask_text};
use crate::text::{
    chars_of, join, lemma_join_shape, lemma_split_join, lemma_trim_clean, split, str_eq, string_of,
    trim, trimmed,
};
use crate::wallhaven::{
    AspectRatio, ColorOption, Purity, Resolution, Sorting, TimeRange, aspect_ratio_name,
    aspect_ratio_of, color_name, color_of, is_landscape_ratio, is_portrait_ratio,
    lemma_aspect_ratio_roundtrip, lemma_color_roundtrip, lemma_ratio_names_clean,
    lemma_resolution_name_clean, lemma_resolution_of_empty, lemma_resolution_roundtrip,
    lemma_sorting_roundtrip, lemma_time_range_roundtrip, purity_bit, resolution_canonical,
    resolution_name, resolution_of, sorting_name, sorting_of, time_range_name, time_range_of,
};
use crate::mask::lemma_mask_roundtrip;

verus! {

/// How the resolution filter is applied.
#[derive(Debug, Clone, Copy, PartialEq, Eq, Structural)]
pub enum ResolutionMode {
    /// No resolution parameter.
    All,
    /// The `atleast` parameter.
    AtLeast,
    /// The `resolutions` parameter.
    Exactly,
}

pub open spec fn mode_name(m: ResolutionMode) -> Seq<char> {
    match m {
        ResolutionMode::All => "all"@,
        ResolutionMode::AtLeast => "atleast"@,
        ResolutionMode::Exactly => "exactly"@,
    }
}

/// The mode a stored name selects; unknown names select `All`.
pub open spec fn mode_of(s: Seq<char>) -> ResolutionMode {
    if s == "all"@ {
        ResolutionMode::All
    } else if s == "atleast"@ {
        ResolutionMode::AtLeast
    } else if s == "exactly"@ {
        ResolutionMode::Exactly
    } else {
        ResolutionMode::All
    }
}

impl ResolutionMode {
    pub fn value(&self) -> (r: &'static str)
        ensures
            r@ == mode_name(*self),
    {
        match self {
            ResolutionMode::All => "all",
            ResolutionMode::AtLeast => "atleast",
            ResolutionMode::Exactly => "exactly",
        }
    }

    pub fn parse(s: &str) -> (r: ResolutionMode)
        ensures
            r == mode_of(s@),
    {
        if str_eq(s, "all") {
            ResolutionMode::All
        } else if str_eq(s, "atleast") {
            ResolutionMode::AtLeast
        } else if str_eq(s, "exactly") {
            ResolutionMode::Exactly
        } else {
            ResolutionMode::All
        }
    }
}

/// The `[wallhaven]` section of the configuration file.
pub struct WallhavenConfig {
    /// Category mask in binary, such as `100`.
    pub category: String,
    /// Purity mask in binary, such as `110`.
    pub purity: String,
    pub sorting: String,
    pub color: String,
    pub top_range: String,
    pub resolution_mode: String,
    pub atleast_resolution: String,
    /// Comma-separated resolutions of the exact mode.
    pub resolutions: String,
    /// Comma-separated ratios, with `landscape`, `portrait` or `all` for the group options.
    pub ratios: String,
    pub api_key: String,
}

pub struct WallhavenConfigView {
    pub category: Seq<char>,
    pub purity: Seq<char>,
    pub sorting: Seq<char>,
    pub color: Seq<char>,
    pub top_range: Seq<char>,
    pub resolution_mode: Seq<char>,
    pub atleast_resolution: Seq<char>,
    pub resolutions: Seq<char>,
    pub ratios: Seq<char>,
    pub api_key: Seq<char>,
}

impl View for WallhavenConfig {
    type V = WallhavenConfigView;

    open spec fn view(&self) -> WallhavenConfigView {
        WallhavenConfigView {
            category: self.category@,
            purity: self.purity@,
            sorting: self.sorting@,
            color: self.color@,
            top_range: self.top_range@,
            resolution_mode: self.resolution_mode@,
            atleast_resolution: self.atleast_resolution@,
            resolutions: self.resolutions@,
            ratios: self.ratios@,
            api_key: self.api_key@,
        }
    }
}

/// The filter selection, as a mathematical value.
pub struct FilterModel {
    pub categories: u32,
    pub purities: u32,
    pub sorting: Sorting,
    pub color: ColorOption,
    pub time_range: TimeRange,
    pub resolution_mode: ResolutionMode,
    pub atleast_resolution: Option<Resolution>,
    pub selected_resolutions: Seq<Resolution>,
    pub selected_ratios: Seq<AspectRatio>,
    pub ratio_landscape_selected: bool,
    pub ratio_portrait_selected: bool,
    pub ratio_all_selected: bool,
}

/// The mask both the category and the purity filter start with, and that an
/// unreadable stored mask falls back to: only the first bit (general, safe).
pub open spec fn default_mask() -> u32 {
    4
}

pub open spec fn resolution_names(rs: Seq<Resolution>) -> Seq<Seq<char>> {
    rs.map_values(|r: Resolution| resolution_name(r))
}

pub open spec fn ratio_names(rs: Seq<AspectRatio>) -> Seq<Seq<char>> {
    rs.map_values(|r: AspectRatio| aspect_ratio_name(r))
}

/// The parts the ratio selection is written as: `landscape` and `portrait`
/// for the group options, then the selected ratios in order.
pub open spec fn ratio_parts(f: FilterModel) -> Seq<Seq<char>> {
    (if f.ratio_landscape_selected {
        seq!["landscape"@]
    } else {
        Seq::<Seq<char>>::empty()
    }) + (if f.ratio_portrait_selected {
        seq!["portrait"@]
    } else {
        Seq::<Seq<char>>::empty()
    }) + ratio_names(f.selected_ratios)
}

/// The stored ratio list: `all` for "all ratios", else the ratio parts
/// separated by commas.
pub open spec fn saved_ratios(f: FilterModel) -> Seq<char> {
    if f.ratio_all_selected {
        "all"@
    } else {
        join(ratio_parts(f), ',')
    }
}

/// The configuration section after the filters are written into `c`.
pub open spec fn saved_config(f: FilterModel, c: WallhavenConfigView) -> WallhavenConfigView {
    WallhavenConfigView {
        category: mask_text(f.categories),
        purity: mask_text(f.purities),
        sorting: sorting_name(f.sorting),
        color: color_name(f.color),
        top_range: time_range_name(f.time_range),
        resolution_mode: mode_name(f.resolution_mode),
        atleast_resolution: match f.atleast_resolution {
            Some(r) => resolution_name(r),
            None => Seq::<char>::empty(),
        },
        resolutions: join(resolution_names(f.selected_resolutions), ','),
        ratios: saved_ratios(f),
        api_key: c.api_key,
    }
}

/// The resolutions that the pieces of a stored list denote, in order; pieces
/// are trimmed, and pieces that denote no resolution are skipped.
pub open spec fn parsed_resolutions(ps: Seq<Seq<char>>) -> Seq<Resolution>
    decreases ps.len(),
{
    if ps.len() == 0 {
        Seq::<Resolution>::empty()
    } else {
        let r = parsed_resolutions(ps.drop_last());
        match resolution_of(trim(ps.last())) {
            Some(x) => r.push(x),
            None => r,
        }
    }
}

/// The ratios that the pieces of a stored list denote, in order.
pub open spec fn parsed_ratios(ps: Seq<Seq<char>>) -> Seq<AspectRatio>
    decreases ps.len(),
{
    if ps.len() == 0 {
        Seq::<AspectRatio>::empty()
    } else {
        let r = parsed_ratios(ps.drop_last());
        match aspect_ratio_of(trim(ps.last())) {
            Some(x) => r.push(x),
            None => r,
        }
    }
}

/// Whether some piece reads `name` once trimmed.
pub open spec fn has_piece(ps: Seq<Seq<char>>, name: Seq<char>) -> bool {
    exists|i: int| 0 <= i < ps.len() && trim(#[trigger] ps[i]) == name
}

/// `rs` without the landscape-group ratios (when `landscape`) and without the
/// portrait-group ratios (when `portrait`).
pub open spec fn without_groups(rs: Seq<AspectRatio>, landscape: bool, portrait: bool) -> Seq<
    AspectRatio,
>
    decreases rs.len(),
{
    if rs.len() == 0 {
        rs
    } else {
        let r = without_groups(rs.drop_last(), landscape, portrait);
        let x = rs.last();
        if (landscape && is_landscape_ratio(x)) || (portrait && is_portrait_ratio(x)) {
            r
        } else {
            r.push(x)
        }
    }
}

pub open spec fn loaded_resolutions(s: Seq<char>) -> Seq<Resolution> {
    if s.len() == 0 {
        Seq::<Resolution>::empty()
    } else {
        parsed_resolutions(split(s, ','))
    }
}

/// Whether the stored ratio list names ratios (rather than being empty or `all`).
pub open spec fn ratio_list_active(s: Seq<char>) -> bool {
    s != "all"@ && s.len() > 0
}

pub open spec fn loaded_landscape(s: Seq<char>) -> bool {
    ratio_list_active(s) && has_piece(split(s, ','), "landscape"@)
}

pub open spec fn loaded_portrait(s: Seq<char>) -> bool {
    ratio_list_active(s) && has_piece(split(s, ','), "portrait"@)
}

pub open spec fn loaded_ratios(s: Seq<char>) -> Seq<AspectRatio> {
    if ratio_list_active(s) {
        without_groups(
            parsed_ratios(split(s, ',')),
            loaded_landscape(s),
            loaded_portrait(s),
        )
    } else {
        Seq::<AspectRatio>::empty()
    }
}

/// The filters a configuration section denotes. Without an API key the NSFW
/// purity is dropped.
pub open spec fn config_filters(c: WallhavenConfigView) -> FilterModel {
    let p = mask_of(c.purity, default_mask());
    FilterModel {
        categories: mask_of(c.category, default_mask()),
        purities: if c.api_key.len() == 0 {
            p & !purity_bit(Purity::NSFW)
        } else {
            p
        },
        sorting: sorting_of(c.sorting),
        color: color_of(c.color),
        time_range: time_range_of(c.top_range),
        resolution_mode: mode_of(c.resolution_mode),
        atleast_resolution: resolution_of(c.atleast_resolution),
        selected_resolutions: loaded_resolutions(c.resolutions),
        selected_ratios: loaded_ratios(c.ratios),
        ratio_landscape_selected: loaded_landscape(c.ratios),
        ratio_portrait_selected: loaded_portrait(c.ratios),
        ratio_all_selected: c.ratios == "all"@,
    }
}

/// Appends the characters of `s` to `v`.
pub fn push_str(v: &mut Vec<char>, s: &str)
    ensures
        final(v)@ == old(v)@ + s@,
{
    let c = chars_of(s);
    let ghost start = v@;
    let mut i: usize = 0;
    while i < c.len()
        invariant
            c@ == s@,
            i <= c@.len(),
            v@ == start + c@.take(i as int),
        decreases c@.len() - i,
    {
        v.push(c[i]);
        i = i + 1;
        assert(v@ =~= start + c@.take(i as int));
    }
    assert(c@.take(c@.len() as int) =~= c@);
}

/// Joins resolution names with commas.
pub fn join_resolutions(rs: &Vec<Resolution>) -> (r: String)
    ensures
        r@ == join(resolution_names(rs@), ','),
{
    let ghost names = resolution_names(rs@);
    let mut acc: Vec<char> = Vec::new();
    let mut i: usize = 0;
    while i < rs.len()
        invariant
            i <= rs@.len(),
            names == resolution_names(rs@),
            acc@ == join(names.take(i as int), ','),
        decreases rs@.len() - i,
    {
        if i > 0 {
            acc.push(',');
        }
        push_str(&mut acc, rs[i].value());
        proof {
            let t = names.take(i + 1);
            assert(t.drop_last() =~= names.take(i as int));
            assert(t.last() == resolution_name(rs@[i as int]));
            if i == 0 {
                assert(names.take(0) =~= Seq::<Seq<char>>::empty());
            }
        }
        i = i + 1;
    }
    assert(names.take(rs@.len() as int) =~= names);
    string_of(acc.as_slice())
}

/// Writes the ratio options the way the configuration and the API take them.
pub fn join_ratio_parts(landscape: bool, portrait: bool, rs: &Vec<AspectRatio>) -> (r: String)
    ensures
        r@ == join(
            (if landscape {
                seq!["landscape"@]
            } else {
                Seq::<Seq<char>>::empty()
            }) + (if portrait {
                seq!["portrait"@]
            } else {
                Seq::<Seq<char>>::empty()
            }) + ratio_names(rs@),
            ',',
        ),
{
    let ghost parts = (if landscape {
        seq!["landscape"@]
    } else {
        Seq::<Seq<char>>::empty()
    }) + (if portrait {
        seq!["portrait"@]
    } else {
        Seq::<Seq<char>>::empty()
    }) + ratio_names(rs@);
    let ghost k: int = (if landscape { 1int } else { 0int }) + (if portrait { 1int } else { 0int });
    let mut acc: Vec<char> = Vec::new();
    let mut n: usize = 0;
    if landscape {
        push_str(&mut acc, "landscape");
        n = 1;
        assert(parts.take(1) =~= seq!["landscape"@]);
        assert(acc@ =~= "landscape"@);
        assert(join(parts.take(1), ',') == "landscape"@);
    }
    if portrait {
        if n > 0 {
            acc.push(',');
        }
        push_str(&mut acc, "portrait");
        proof {
            let t = parts.take(n + 1);
            assert(t.drop_last() =~= parts.take(n as int));
            assert(t.last() == "portrait"@);
            if n == 0 {
                assert(parts.take(0) =~= Seq::<Seq<char>>::empty());
            }
        }
        n = n + 1;
    }
    assert(n == k);
    if n == 0 {
        assert(parts.take(0) =~= Seq::<Seq<char>>::empty());
    }
    let mut i: usize = 0;
    while i < rs.len()
        invariant
            i <= rs@.len(),
            n == k,
            0 <= k <= 2,
            parts.len() == k + rs@.len(),
            forall|j: int| 0 <= j < rs@.len() ==> parts[k + j] == aspect_ratio_name(#[trigger] rs@[j]),
            acc@ == join(parts.take(k + i), ','),
        decreases rs@.len() - i,
    {
        if n > 0 || i > 0 {
            acc.push(',');
        }
        push_str(&mut acc, rs[i].value());
        proof {
            let t = parts.take(k + i + 1);
            assert(t.drop_last() =~= parts.take(k + i));
            assert(t.last() == parts[k + i]);
            if k + i == 0 {
                assert(parts.take(0) =~= Seq::<Seq<char>>::empty());
            }
        }
        i = i + 1;
    }
    assert(parts.take(k + rs@.len()) =~= parts);
    string_of(acc.as_slice())
}

/// Reads the stored resolution list of the exact mode.
pub fn load_resolutions(s: &str) -> (r: Vec<Resolution>)
    ensures
        r@ == loaded_resolutions(s@),
{
    let c = chars_of(s);
    let mut out: Vec<Resolution> = Vec::new();
    if c.len() == 0 {
        return out;
    }
    let mut cur: Vec<char> = Vec::new();
    let mut i: usize = 0;
    assert(c@.take(0) =~= Seq::<char>::empty());
    while i < c.len()
        invariant
            c@ == s@,
            i <= c@.len(),
            split(c@.take(i as int), ',').len() >= 1,
            out@ == parsed_resolutions(split(c@.take(i as int), ',').drop_last()),
            cur@ == split(c@.take(i as int), ',').last(),
        decreases c@.len() - i,
    {
        let ch = c[i];
        let ghost before = split(c@.take(i as int), ',');
        proof {
            assert(c@.take(i + 1).drop_last() =~= c@.take(i as int));
            assert(c@.take(i + 1).last() == ch);
        }
        if ch == ',' {
            let t = trimmed(&cur);
            match Resolution::parse(t.as_str()) {
                Some(x) => out.push(x),
                None => {},
            }
            cur = Vec::new();
            proof {
                let after = before.push(Seq::<char>::empty());
                assert(after.drop_last() =~= before);
                assert(before =~= before.drop_last().push(before.last()));
            }
        } else {
            cur.push(ch);
            proof {
                let after = before.update(before.len() - 1, before.last().push(ch));
                assert(after.drop_last() =~= before.drop_last());
            }
        }
        i = i + 1;
    }
    assert(c@.take(c@.len() as int) =~= c@);
    let ghost all = split(c@, ',');
    assert(all =~= all.drop_last().push(all.last()));
    let t = trimmed(&cur);
    match Resolution::parse(t.as_str()) {
        Some(x) => out.push(x),
        None => {},
    }
    out
}

/// Whether the pieces mentioned so far include one that reads `name`, after one more piece.
proof fn lemma_has_piece_push(ps: Seq<Seq<char>>, p: Seq<char>, name: Seq<char>)
    ensures
        has_piece(ps.push(p), name) == (has_piece(ps, name) || trim(p) == name),
{
    let q = ps.push(p);
    if has_piece(ps, name) {
        let k = choose|k: int| 0 <= k < ps.len() && trim(#[trigger] ps[k]) == name;
        assert(q[k] == ps[k]);
    }
    if trim(p) == name {
        assert(q[ps.len() as int] == p);
    }
    if has_piece(q, name) {
        let k = choose|k: int| 0 <= k < q.len() && trim(#[trigger] q[k]) == name;
        if k < ps.len() {
            assert(q[k] == ps[k]);
        }
    }
}

/// Drops the landscape-group and portrait-group ratios as the flags ask.
pub fn remove_groups(rs: &Vec<AspectRatio>, landscape: bool, portrait: bool) -> (r: Vec<
    AspectRatio,
>)
    ensures
        r@ == without_groups(rs@, landscape, portrait),
{
    let mut out: Vec<AspectRatio> = Vec::new();
    let mut i: usize = 0;
    assert(rs@.take(0) =~= Seq::<AspectRatio>::empty());
    while i < rs.len()
        invariant
            i <= rs@.len(),
            out@ == without_groups(rs@.take(i as int), landscape, portrait),
        decreases rs@.len() - i,
    {
        let x = rs[i];
        proof {
            assert(rs@.take(i + 1).drop_last() =~= rs@.take(i as int));
            assert(rs@.take(i + 1).last() == x);
        }
        if !((landscape && x.is_landscape()) || (portrait && x.is_portrait())) {
            out.push(x);
        }
        i = i + 1;
    }
    assert(rs@.take(rs@.len() as int) =~= rs@);
    out
}

/// Reads the stored ratio list: the ratios it selects and whether it selects
/// all landscape, all portrait, and all ratios.
pub fn load_ratios(s: &str) -> (r: (Vec<AspectRatio>, bool, bool, bool))
    ensures
        r.0@ == loaded_ratios(s@),
        r.1 == loaded_landscape(s@),
        r.2 == loaded_portrait(s@),
        r.3 == (s@ == "all"@),
{
    let all = str_eq(s, "all");
    let c = chars_of(s);
    if all || c.len() == 0 {
        return (Vec::new(), false, false, all);
    }
    let mut parsed: Vec<AspectRatio> = Vec::new();
    let mut landscape = false;
    let mut portrait = false;
    let mut cur: Vec<char> = Vec::new();
    let mut i: usize = 0;
    assert(c@.take(0) =~= Seq::<char>::empty());
    while i < c.len()
        invariant
            c@ == s@,
            i <= c@.len(),
            split(c@.take(i as int), ',').len() >= 1,
            parsed@ == parsed_ratios(split(c@.take(i as int), ',').drop_last()),
            landscape == has_piece(split(c@.take(i as int), ',').drop_last(), "landscape"@),
            portrait == has_piece(split(c@.take(i as int), ',').drop_last(), "portrait"@),
            cur@ == split(c@.take(i as int), ',').last(),
        decreases c@.len() - i,
    {
        let ch = c[i];
        let ghost before = split(c@.take(i as int), ',');
        proof {
            assert(c@.take(i + 1).drop_last() =~= c@.take(i as int));
            assert(c@.take(i + 1).last() == ch);
        }
        if ch == ',' {
            let t = trimmed(&cur);
            if str_eq(t.as_str(), "landscape") {
                landscape = true;
            }
            if str_eq(t.as_str(), "portrait") {
                portrait = true;
            }
            match AspectRatio::parse(t.as_str()) {
                Some(x) => parsed.push(x),
                None => {},
            }
            cur = Vec::new();
            proof {
                let after = before.push(Seq::<char>::empty());
                assert(after.drop_last() =~= before);
                assert(before =~= before.drop_last().push(before.last()));
                lemma_has_piece_push(before.drop_last(), before.last(), "landscape"@);
                lemma_has_piece_push(before.drop_last(), before.last(), "portrait"@);
            }
        } else {
            cur.push(ch);
            proof {
                let after = before.update(before.len() - 1, before.last().push(ch));
                assert(after.drop_last() =~= before.drop_last());
            }
        }
        i = i + 1;
    }
    assert(c@.take(c@.len() as int) =~= c@);
    let ghost ps = split(c@, ',');
    assert(ps =~= ps.drop_last().push(ps.last()));
    let t = trimmed(&cur);
    if str_eq(t.as_str(), "landscape") {
        landscape = true;
    }
    if str_eq(t.as_str(), "portrait") {
        portrait = true;
    }
    match AspectRatio::parse(t.as_str()) {
        Some(x) => parsed.push(x),
        None => {},
    }
    proof {
        lemma_has_piece_push(ps.drop_last(), ps.last(), "landscape"@);
        lemma_has_piece_push(ps.drop_last(), ps.last(), "portrait"@);
    }
    let kept = remove_groups(&parsed, landscape, portrait);
    (kept, landscape, portrait, false)
}

/// Reading back the name of a resolution mode gives that mode.
pub proof fn lemma_mode_roundtrip(m: ResolutionMode)
    ensures
        mode_of(mode_name(m)) == m,
{
    reveal_strlit("all");
    reveal_strlit("atleast");
    reveal_strlit("exactly");
    assert("all"@.len() == 3 && "atleast"@.len() == 7 && "exactly"@.len() == 7);
    assert("atleast"@[0] != "exactly"@[0]);
}

/// The filters with each resolution replaced by the one its name reads back as.
pub open spec fn canonical_filters(f: FilterModel) -> FilterModel {
    FilterModel {
        atleast_resolution: match f.atleast_resolution {
            Some(r) => Some(resolution_canonical(r)),
            None => None,
        },
        selected_resolutions: f.selected_resolutions.map_values(
            |r: Resolution| resolution_canonical(r),
        ),
        ..f
    }
}

proof fn lemma_parsed_resolution_names(rs: Seq<Resolution>)
    requires
        forall|i: int| 0 <= i < rs.len() ==> rs[i] != Resolution::Any,
    ensures
        parsed_resolutions(resolution_names(rs)) == rs.map_values(
            |r: Resolution| resolution_canonical(r),
        ),
    decreases rs.len(),
{
    let ns = resolution_names(rs);
    if rs.len() > 0 {
        let front = rs.drop_last();
        assert(ns.drop_last() =~= resolution_names(front));
        lemma_parsed_resolution_names(front);
        let x = rs.last();
        assert(x == rs[rs.len() - 1]);
        assert(ns.last() == resolution_name(x));
        lemma_resolution_name_clean(x);
        lemma_trim_clean(resolution_name(x));
        lemma_resolution_roundtrip(x);
        assert(rs.map_values(|r: Resolution| resolution_canonical(r)) =~= front.map_values(
            |r: Resolution| resolution_canonical(r),
        ).push(resolution_canonical(x)));
    } else {
        assert(ns =~= Seq::<Seq<char>>::empty());
        assert(rs.map_values(|r: Resolution| resolution_canonical(r)) =~= Seq::<Resolution>::empty());
    }
}

proof fn lemma_parsed_ratio_names(rs: Seq<AspectRatio>)
    ensures
        parsed_ratios(ratio_names(rs)) == rs,
    decreases rs.len(),
{
    let ns = ratio_names(rs);
    if rs.len() > 0 {
        let front = rs.drop_last();
        assert(ns.drop_last() =~= ratio_names(front));
        lemma_parsed_ratio_names(front);
        let x = rs.last();
        assert(x == rs[rs.len() - 1]);
        assert(ns.last() == aspect_ratio_name(x));
        lemma_ratio_names_clean(x);
        lemma_trim_clean(aspect_ratio_name(x));
        lemma_aspect_ratio_roundtrip(x);
        assert(front.push(x) =~= rs);
    } else {
        assert(ns =~= Seq::<Seq<char>>::empty());
        assert(rs =~= Seq::<AspectRatio>::empty());
    }
}

/// Pieces that denote no ratio add nothing in front of others.
proof fn lemma_parsed_ratios_concat(a: Seq<Seq<char>>, b: Seq<Seq<char>>)
    requires
        parsed_ratios(a) == Seq::<AspectRatio>::empty(),
    ensures
        parsed_ratios(a + b) == parsed_ratios(b),
    decreases b.len(),
{
    if b.len() == 0 {
        assert(a + b =~= a);
    } else {
        lemma_parsed_ratios_concat(a, b.drop_last());
        assert((a + b).drop_last() =~= a + b.drop_last());
        assert((a + b).last() == b.last());
    }
}

proof fn lemma_without_groups_keeps(rs: Seq<AspectRatio>, landscape: bool, portrait: bool)
    requires
        landscape ==> forall|i: int| 0 <= i < rs.len() ==> !is_landscape_ratio(#[trigger] rs[i]),
        portrait ==> forall|i: int| 0 <= i < rs.len() ==> !is_portrait_ratio(#[trigger] rs[i]),
    ensures
        without_groups(rs, landscape, portrait) == rs,
    decreases rs.len(),
{
    if rs.len() > 0 {
        let front = rs.drop_last();
        assert forall|i: int| 0 <= i < front.len() implies (landscape ==> !is_landscape_ratio(
            #[trigger] front[i],
        )) && (portrait ==> !is_portrait_ratio(front[i])) by {
            assert(front[i] == rs[i]);
        }
        lemma_without_groups_keeps(front, landscape, portrait);
        assert(rs.last() == rs[rs.len() - 1]);
        assert(front.push(rs.last()) =~= rs);
    }
}

/// The group flags a written ratio list reads back as.
proof fn lemma_ratio_parts_flags(f: FilterModel)
    ensures
        has_piece(ratio_parts(f), "landscape"@) == f.ratio_landscape_selected,
        has_piece(ratio_parts(f), "portrait"@) == f.ratio_portrait_selected,
        forall|i: int|
            0 <= i < ratio_parts(f).len() ==> (#[trigger] ratio_parts(f)[i]).len() > 0 && !ratio_parts(
                f,
            )[i].contains(',') && trim(ratio_parts(f)[i]) == ratio_parts(f)[i],
        parsed_ratios(ratio_parts(f)) == f.selected_ratios,
{
    let parts = ratio_parts(f);
    let l = if f.ratio_landscape_selected {
        seq!["landscape"@]
    } else {
        Seq::<Seq<char>>::empty()
    };
    let p = if f.ratio_portrait_selected {
        seq!["portrait"@]
    } else {
        Seq::<Seq<char>>::empty()
    };
    let ns = ratio_names(f.selected_ratios);
    let pre = l + p;
    assert(parts == pre + ns);
    lemma_ratio_names_clean(AspectRatio::R1x1);
    reveal_strlit("landscape");
    reveal_strlit("portrait");
    assert("landscape"@.len() == 9 && "portrait"@.len() == 8);
    lemma_trim_clean("landscape"@);
    lemma_trim_clean("portrait"@);
    assert forall|i: int| 0 <= i < parts.len() implies (#[trigger] parts[i]).len() > 0
        && !parts[i].contains(',') && trim(parts[i]) == parts[i] && parts[i] != "all"@ && (
    parts[i] == "landscape"@ ==> f.ratio_landscape_selected) && (parts[i] == "portrait"@
        ==> f.ratio_portrait_selected) by {
        if i >= pre.len() {
            let x = f.selected_ratios[i - pre.len()];
            assert(parts[i] == aspect_ratio_name(x));
            lemma_ratio_names_clean(x);
            lemma_trim_clean(aspect_ratio_name(x));
        } else if i < l.len() {
            assert(parts[i] == "landscape"@);
        } else {
            assert(parts[i] == "portrait"@);
        }
    }
    if f.ratio_landscape_selected {
        assert(parts[0] == "landscape"@);
    }
    if f.ratio_portrait_selected {
        assert(parts[l.len() as int] == "portrait"@);
    }
    assert(parsed_ratios(pre) == Seq::<AspectRatio>::empty()) by {
        let el = Seq::<Seq<char>>::empty();
        assert(trim("landscape"@) == "landscape"@);
        assert(trim("portrait"@) == "portrait"@);
        let sl = seq!["landscape"@];
        let sp = seq!["portrait"@];
        assert(sl.drop_last() =~= el && sl.last() == "landscape"@);
        assert(sp.drop_last() =~= el && sp.last() == "portrait"@);
        assert(parsed_ratios(el) == Seq::<AspectRatio>::empty());
        assert(parsed_ratios(sl) == Seq::<AspectRatio>::empty());
        assert(parsed_ratios(sp) == Seq::<AspectRatio>::empty());
        if f.ratio_landscape_selected && f.ratio_portrait_selected {
            assert(pre =~= seq!["landscape"@, "portrait"@]);
            assert(pre.drop_last() =~= sl && pre.last() == "portrait"@);
        } else if f.ratio_landscape_selected {
            assert(pre =~= sl);
        } else if f.ratio_portrait_selected {
            assert(pre =~= sp);
        } else {
            assert(pre =~= el);
        }
    }
    lemma_parsed_ratios_concat(pre, ns);
    lemma_parsed_ratio_names(f.selected_ratios);
}

/// Writing the filters into the configuration and reading them back gives
/// the same filters, with each resolution replaced by the one its name reads
/// back as (the 16:9 `2560x1440` reads back as the ultrawide one), provided
/// that the NSFW purity survives the API-key check, no resolution is `Any`,
/// "all ratios" comes alone (as turning it on leaves it), and no ratio is
/// selected that its selected group option already covers.
pub proof fn lemma_config_roundtrip(f: FilterModel, c: WallhavenConfigView)
    requires
        c.api_key.len() > 0 || f.purities & purity_bit(Purity::NSFW) == 0,
        f.atleast_resolution != Some(Resolution::Any),
        forall|i: int|
            0 <= i < f.selected_resolutions.len() ==> #[trigger] f.selected_resolutions[i]
                != Resolution::Any,
        f.ratio_all_selected ==> !f.ratio_landscape_selected && !f.ratio_portrait_selected
            && f.selected_ratios.len() == 0,
        f.ratio_landscape_selected ==> forall|i: int|
            0 <= i < f.selected_ratios.len() ==> !is_landscape_ratio(#[trigger] f.selected_ratios[i]),
        f.ratio_portrait_selected ==> forall|i: int|
            0 <= i < f.selected_ratios.len() ==> !is_portrait_ratio(#[trigger] f.selected_ratios[i]),
    ensures
        config_filters(saved_config(f, c)) == canonical_filters(f),
{
    let s = saved_config(f, c);
    let g = config_filters(s);
    reveal_strlit("all");
    assert("all"@.len() == 3);
    lemma_mask_roundtrip(f.categories, default_mask());
    lemma_mask_roundtrip(f.purities, default_mask());
    let p = f.purities;
    assert(p & 1u32 == 0 ==> p & !1u32 == p) by (bit_vector);
    lemma_sorting_roundtrip(f.sorting);
    lemma_color_roundtrip(f.color);
    lemma_time_range_roundtrip(f.time_range);
    lemma_mode_roundtrip(f.resolution_mode);
    match f.atleast_resolution {
        Some(r) => lemma_resolution_roundtrip(r),
        None => lemma_resolution_of_empty(),
    }
    // Resolutions.
    let rs = f.selected_resolutions;
    let ns = resolution_names(rs);
    if rs.len() == 0 {
        assert(ns =~= Seq::<Seq<char>>::empty());
        assert(rs.map_values(|r: Resolution| resolution_canonical(r)) =~= Seq::<Resolution>::empty());
    } else {
        assert forall|i: int| 0 <= i < ns.len() implies !(#[trigger] ns[i]).contains(',') by {
            lemma_resolution_name_clean(rs[i]);
        }
        lemma_resolution_name_clean(rs[0]);
        lemma_join_shape(ns, ',');
        lemma_split_join(ns, ',');
        lemma_parsed_resolution_names(rs);
    }
    // Ratios.
    let parts = ratio_parts(f);
    lemma_ratio_parts_flags(f);
    lemma_ratio_names_clean(AspectRatio::R1x1);
    if f.ratio_all_selected {
        assert(s.ratios == "all"@);
        assert(f.selected_ratios =~= Seq::<AspectRatio>::empty());
    } else if parts.len() == 0 {
        assert(join(parts, ',') =~= Seq::<char>::empty());
        assert(f.selected_ratios =~= Seq::<AspectRatio>::empty()) by {
            assert(ratio_names(f.selected_ratios).len() == f.selected_ratios.len());
        }
        assert(!f.ratio_landscape_selected && !f.ratio_portrait_selected);
    } else {
        assert(parts[0].len() > 0);
        lemma_join_shape(parts, ',');
        lemma_split_join(parts, ',');
        assert(join(parts, ',') != "all"@) by {
            if parts.len() == 1 {
                assert(join(parts, ',') == parts[0]);
                if parts[0] == "all"@ {
                    if f.ratio_landscape_selected {
                        assert(parts[0] == "landscape"@);
                    } else if f.ratio_portrait_selected {
                        assert(parts[0] == "portrait"@);
                    } else {
                        assert(parts[0] == aspect_ratio_name(f.selected_ratios[0]));
                        lemma_ratio_names_clean(f.selected_ratios[0]);
                    }
                }
            }
        }
        lemma_without_groups_keeps(
            f.selected_ratios,
            f.ratio_landscape_selected,
            f.ratio_portrait_selected,
        );
    }
    assert(g.categories == f.categories);
    assert(g.purities == f.purities);
    assert(g.sorting == f.sorting);
    assert(g.color == f.color);
    assert(g.time_range == f.time_range);
    assert(g.resolution_mode == f.resolution_mode);
    assert(g.atleast_resolution == canonical_filters(f).atleast_resolution);
    assert(g.selected_resolutions == canonical_filters(f).selected_resolutions);
    assert(g.ratio_all_selected == f.ratio_all_selected);
    assert(g.ratio_landscape_selected == f.ratio_landscape_selected);
    assert(g.ratio_portrait_selected == f.ratio_portrait_selected);
    assert(g.selected_ratios == f.selected_ratios);
}

} // verus!
