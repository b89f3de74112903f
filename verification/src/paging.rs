//! Searching and paging: the search parameters, the page requests and what
//! their outcomes do to the list.

use vstd::prelude::*;
use crate::filters::{
    ResolutionMode, WallhavenConfig, join_ratio_parts, join_resolutions, ratio_parts,
    resolution_names,
};
use crate::state::{OnlineState, OnlineWallpaper, PageInfo, WallpaperLoadStatus, pages_fit};
use crate::tasks::{
    Notification, NotificationText, NotificationType, OnlineTask, SearchParams, ThumbFailure,
    ThumbLoad,
};
use crate::text::{clone_opt, contains_text, has_infix, join};
use crate::wallhaven::resolution_name;

verus! {

/// The network and cache settings that requests and loads are made with.
pub struct NetworkSettings {
    /// The proxy address as configured.
    pub proxy: String,
    pub proxy_enabled: bool,
    /// The proxy in effect: the configured one or, failing that, the system's.
    pub resolved_proxy: Option<String>,
    /// Directory of the image cache.
    pub cache_path: String,
}

/// The configured proxy address, if one is written.
pub open spec fn configured_proxy(net: NetworkSettings) -> Option<String> {
    if net.proxy@.len() == 0 {
        None
    } else {
        Some(net.proxy)
    }
}

/// Whether an optional string holds the optional text `t`.
pub open spec fn text_is(o: Option<String>, t: Option<Seq<char>>) -> bool {
    match (o, t) {
        (Some(a), Some(b)) => a@ == b,
        (None, None) => true,
        _ => false,
    }
}

/// The `atleast` parameter: the minimum resolution, in the minimum mode.
pub open spec fn atleast_param<H, T, C>(s: OnlineState<H, T, C>) -> Option<Seq<char>> {
    if s.resolution_mode == ResolutionMode::AtLeast {
        match s.atleast_resolution {
            Some(r) => Some(resolution_name(r)),
            None => None,
        }
    } else {
        None
    }
}

/// The `resolutions` parameter: the exact resolutions, in the exact mode when there are some.
pub open spec fn resolutions_param<H, T, C>(s: OnlineState<H, T, C>) -> Option<Seq<char>> {
    if s.resolution_mode == ResolutionMode::Exactly && s.selected_resolutions@.len() > 0 {
        Some(join(resolution_names(s.selected_resolutions@), ','))
    } else {
        None
    }
}

/// The `ratios` parameter: the group options and ratios, when there are some.
pub open spec fn ratios_param<H, T, C>(s: OnlineState<H, T, C>) -> Option<Seq<char>> {
    if ratio_parts(s.filters()).len() == 0 {
        None
    } else {
        Some(join(ratio_parts(s.filters()), ','))
    }
}

/// Whether `p` are the parameters of a request for the state's current page
/// under its filters, with the API key `api_key` (none when empty) and the
/// proxy in effect.
pub open spec fn is_search_params<H, T, C>(
    p: SearchParams<C>,
    s: OnlineState<H, T, C>,
    api_key: Seq<char>,
    net: NetworkSettings,
) -> bool {
    &&& p.categories == s.categories
    &&& p.sorting == s.sorting
    &&& p.purities == s.purities
    &&& p.color == s.color
    &&& p.query@ == s.search_text@
    &&& p.time_range == s.time_range
    &&& text_is(p.atleast, atleast_param(s))
    &&& text_is(p.resolutions, resolutions_param(s))
    &&& text_is(p.ratios, ratios_param(s))
    &&& p.page == s.current_page
    &&& text_is(
        p.api_key,
        if api_key.len() == 0 {
            None
        } else {
            Some(api_key)
        },
    )
    &&& p.proxy == net.resolved_proxy
    &&& p.proxy_enabled == net.proxy_enabled
    &&& p.use_env_fallback
}

/// Whether `s1` and `tasks` are what starting a search in `s0` gives: the
/// thumbnail loads and the requests in flight cancelled, an empty list, a
/// new request context, and a request for the current page.
pub open spec fn is_search_start<H, T: Clone, C: Clone>(
    s0: OnlineState<H, T, C>,
    s1: OnlineState<H, T, C>,
    tasks: Seq<OnlineTask<T, C>>,
    api_key: Seq<char>,
    net: NetworkSettings,
) -> bool {
    &&& s1.wf()
    &&& s1.wallpapers@.len() == 0
    &&& s1.wallpapers_data@.len() == 0
    &&& s1.page_info@.len() == 0
    &&& s1.thumb_load_cancel_tokens@.len() == 0
    &&& s1 == (OnlineState {
        loading_page: true,
        has_loaded: false,
        wallpapers: s1.wallpapers,
        wallpapers_data: s1.wallpapers_data,
        page_info: s1.page_info,
        thumb_load_cancel_tokens: s1.thumb_load_cancel_tokens,
        request_context: s1.request_context,
        ..s0
    })
    &&& tasks.len() >= 1
    &&& cancels(tasks.drop_last(), s0.thumb_load_cancel_tokens@, s0.request_context)
    &&& tasks.last() matches OnlineTask::LoadWallpapers(p) && is_search_params(p, s1, api_key, net)
        && cloned(s1.request_context, p.context)
}

/// Whether `s1` and `tasks` are what requesting the next page in `s0` gives:
/// the page number advanced, a page in flight under a new request context,
/// the old context cancelled.
pub open spec fn is_page_request<H, T, C: Clone>(
    s0: OnlineState<H, T, C>,
    s1: OnlineState<H, T, C>,
    tasks: Seq<OnlineTask<T, C>>,
    api_key: Seq<char>,
    net: NetworkSettings,
) -> bool {
    &&& s1.wf()
    &&& s1 == (OnlineState {
        current_page: (s0.current_page + 1) as usize,
        loading_page: true,
        request_context: s1.request_context,
        ..s0
    })
    &&& tasks.len() == 2
    &&& tasks[0] == OnlineTask::<T, C>::CancelContext(s0.request_context)
    &&& tasks[1] matches OnlineTask::LoadPage(p) && is_search_params(p, s1, api_key, net) && cloned(
        s1.request_context,
        p.context,
    )
}

/// The tasks that cancel `tokens`, in order, then the request context `ctx`.
pub open spec fn cancels<T, C>(tasks: Seq<OnlineTask<T, C>>, tokens: Seq<T>, ctx: C) -> bool {
    &&& tasks.len() == tokens.len() + 1
    &&& forall|i: int| 0 <= i < tokens.len() ==> tasks[i] == OnlineTask::<T, C>::CancelToken(tokens[i])
    &&& tasks[tokens.len() as int] == OnlineTask::<T, C>::CancelContext(ctx)
}

/// Whether `tasks` load the thumbnails of the entries from `start` on of
/// `data`, one task per entry in order, each with a clone of the matching
/// token of `tokens`.
pub open spec fn loads_thumbs<H, T: Clone, C>(
    tasks: Seq<OnlineTask<T, C>>,
    data: Seq<OnlineWallpaper<H>>,
    start: int,
    tokens: Seq<T>,
    cache_path: String,
    proxy: Option<String>,
    failure: ThumbFailure,
) -> bool {
    &&& tasks.len() == data.len() - start
    &&& tokens.len() == tasks.len()
    &&& forall|k: int|
        0 <= k < tasks.len() ==> (#[trigger] tasks[k] matches OnlineTask::LoadThumb(l) && l.index
            == start + k && l.url == data[start + k].thumb_large && l.file_size == data[start
            + k].file_size && l.cache_path == cache_path && l.proxy == proxy && l.failure == failure
            && cloned(l.token, tokens[k]))
}

fn cancel_tasks<T, C>(tokens: Vec<T>, ctx: C) -> (r: Vec<OnlineTask<T, C>>)
    ensures
        cancels(r@, tokens@, ctx),
{
    let ghost orig = tokens@;
    let mut rest = tokens;
    let mut out: Vec<OnlineTask<T, C>> = Vec::new();
    while rest.len() > 0
        invariant
            out@.len() + rest@.len() == orig.len(),
            rest@ == orig.skip(out@.len() as int),
            forall|i: int| 0 <= i < out@.len() ==> out@[i] == OnlineTask::<T, C>::CancelToken(orig[i]),
        decreases rest@.len(),
    {
        let ghost k = out@.len();
        let t = rest.remove(0);
        assert(t == orig[k as int]);
        out.push(OnlineTask::CancelToken(t));
        assert(rest@ =~= orig.skip(out@.len() as int));
    }
    out.push(OnlineTask::CancelContext(ctx));
    out
}

impl<H, T, C> OnlineState<H, T, C> {
    /// The parameters of a request for the current page under the current
    /// filters.
    pub fn build_online_search_params(
        &self,
        context: C,
        config: &WallhavenConfig,
        net: &NetworkSettings,
    ) -> (p: SearchParams<C>)
        ensures
            is_search_params(p, *self, config.api_key@, *net),
            p.context == context,
    {
        let api_key = if config.api_key.as_str().unicode_len() == 0 {
            None
        } else {
            Some(config.api_key.clone())
        };
        let atleast = if self.resolution_mode == ResolutionMode::AtLeast {
            match self.atleast_resolution {
                Some(r) => Some(r.value().to_owned()),
                None => None,
            }
        } else {
            None
        };
        let resolutions = if self.resolution_mode == ResolutionMode::Exactly
            && self.selected_resolutions.len() > 0 {
            Some(join_resolutions(&self.selected_resolutions))
        } else {
            None
        };
        let ratios = if !self.ratio_landscape_selected && !self.ratio_portrait_selected
            && self.selected_ratios.len() == 0 {
            assert(ratio_parts(self.filters()) =~= Seq::<Seq<char>>::empty());
            None
        } else {
            assert(ratio_parts(self.filters()).len() > 0);
            Some(
                join_ratio_parts(
                    self.ratio_landscape_selected,
                    self.ratio_portrait_selected,
                    &self.selected_ratios,
                ),
            )
        };
        SearchParams {
            categories: self.categories,
            sorting: self.sorting,
            purities: self.purities,
            color: self.color,
            query: self.search_text.clone(),
            time_range: self.time_range,
            atleast,
            resolutions,
            ratios,
            page: self.current_page,
            api_key,
            proxy: clone_opt(&net.resolved_proxy),
            proxy_enabled: net.proxy_enabled,
            use_env_fallback: true,
            context,
        }
    }
}

impl<H, T: Default + Clone, C: Default + Clone> OnlineState<H, T, C> {
    /// Starts a new search: cancels the thumbnail loads and the requests in
    /// flight, empties the list and requests the current page.
    pub fn load_online_wallpapers(&mut self, config: &WallhavenConfig, net: &NetworkSettings) -> (tasks: Vec<
        OnlineTask<T, C>,
    >)
        requires
            old(self).wf(),
        ensures
            is_search_start(*old(self), *final(self), tasks@, config.api_key@, *net),
    {
        self.loading_page = true;
        let tokens = self.cancel_thumb_loads();
        self.wallpapers = Vec::new();
        self.wallpapers_data = Vec::new();
        self.page_info = Vec::new();
        self.has_loaded = false;
        let old_context = self.cancel_and_new_context(C::default());
        let context = self.request_context.clone();
        let params = self.build_online_search_params(context, config, net);
        let mut tasks = cancel_tasks(tokens, old_context);
        let ghost prefix = tasks@;
        tasks.push(OnlineTask::LoadWallpapers(params));
        assert(tasks@.drop_last() =~= prefix);
        tasks
    }

    /// Requests the next page.
    pub fn load_online_page(&mut self, config: &WallhavenConfig, net: &NetworkSettings) -> (tasks: Vec<
        OnlineTask<T, C>,
    >)
        requires
            old(self).wf(),
            old(self).current_page < usize::MAX,
        ensures
            is_page_request(*old(self), *final(self), tasks@, config.api_key@, *net),
    {
        self.current_page = self.current_page + 1;
        self.loading_page = true;
        let old_context = self.cancel_and_new_context(C::default());
        let context = self.request_context.clone();
        let params = self.build_online_search_params(context, config, net);
        let mut tasks: Vec<OnlineTask<T, C>> = Vec::new();
        tasks.push(OnlineTask::CancelContext(old_context));
        tasks.push(OnlineTask::LoadPage(params));
        tasks
    }

    /// Registers a cancel token for each entry from `start` on and loads its thumbnail.
    fn start_thumb_loads(
        &mut self,
        start: usize,
        cache_path: &String,
        proxy: &Option<String>,
        failure: ThumbFailure,
    ) -> (tasks: Vec<OnlineTask<T, C>>)
        requires
            start <= old(self).wallpapers_data@.len(),
        ensures
            final(self).thumb_load_cancel_tokens@.len() == old(
                self,
            ).thumb_load_cancel_tokens@.len() + tasks@.len(),
            final(self).thumb_load_cancel_tokens@.take(
                old(self).thumb_load_cancel_tokens@.len() as int,
            ) == old(self).thumb_load_cancel_tokens@,
            loads_thumbs(
                tasks@,
                old(self).wallpapers_data@,
                start as int,
                final(self).thumb_load_cancel_tokens@.skip(
                    old(self).thumb_load_cancel_tokens@.len() as int,
                ),
                *cache_path,
                *proxy,
                failure,
            ),
            *final(self) == (OnlineState {
                thumb_load_cancel_tokens: final(self).thumb_load_cancel_tokens,
                ..*old(self)
            }),
    {
        let ghost base = self.thumb_load_cancel_tokens@;
        let n = self.wallpapers_data.len();
        let mut tasks: Vec<OnlineTask<T, C>> = Vec::new();
        let mut idx = start;
        while idx < n
            invariant
                n == self.wallpapers_data@.len(),
                start <= idx <= n,
                tasks@.len() == idx - start,
                self.thumb_load_cancel_tokens@.len() == base.len() + tasks@.len(),
                self.thumb_load_cancel_tokens@.take(base.len() as int) == base,
                *self == (OnlineState {
                    thumb_load_cancel_tokens: self.thumb_load_cancel_tokens,
                    ..*old(self)
                }),
                forall|k: int|
                    0 <= k < tasks@.len() ==> (#[trigger] tasks@[k] matches OnlineTask::LoadThumb(
                        l,
                    ) && l.index == start + k && l.url == self.wallpapers_data@[start + k].thumb_large
                        && l.file_size == self.wallpapers_data@[start + k].file_size && l.cache_path
                        == *cache_path && l.proxy == *proxy && l.failure == failure && cloned(
                        l.token,
                        self.thumb_load_cancel_tokens@[base.len() + k],
                    )),
            decreases n - idx,
        {
            let token = T::default();
            let kept = token.clone();
            let ghost before = self.thumb_load_cancel_tokens@;
            self.thumb_load_cancel_tokens.push(kept);
            assert(self.thumb_load_cancel_tokens@.take(base.len() as int) =~= base) by {
                assert(before.take(base.len() as int) == base);
            }
            let w = &self.wallpapers_data[idx];
            tasks.push(
                OnlineTask::LoadThumb(
                    ThumbLoad {
                        index: idx,
                        url: w.thumb_large.clone(),
                        file_size: w.file_size,
                        cache_path: cache_path.clone(),
                        proxy: clone_opt(proxy),
                        token,
                        failure,
                    },
                ),
            );
            assert forall|k: int| 0 <= k < tasks@.len() - 1 implies (#[trigger] tasks@[k] matches OnlineTask::LoadThumb(l) && cloned(
                l.token,
                self.thumb_load_cancel_tokens@[base.len() + k],
            )) by {
                assert(self.thumb_load_cancel_tokens@[base.len() + k] == before[base.len() + k]);
            }
            idx = idx + 1;
        }
        let ghost added = self.thumb_load_cancel_tokens@.skip(base.len() as int);
        assert forall|k: int| 0 <= k < tasks@.len() implies added[k] == self.thumb_load_cancel_tokens@[base.len() + k] by {}
        tasks
    }
}

/// Whether a page result with no entries still has later pages to look at.
pub open spec fn skips_empty_page(empty: bool, last_page: bool, total_pages: usize, current_page: usize) -> bool {
    empty && !last_page && current_page < total_pages
}

/// The "last page" flag a page result sets: an empty single-page result is
/// no last page (a later search may find entries); otherwise the result says.
pub open spec fn last_page_after(empty: bool, last_page: bool, total_pages: usize, current_page: usize) -> bool {
    if empty && current_page == 1 && total_pages == 1 {
        false
    } else {
        last_page
    }
}

/// `n` entries that are loading.
fn loading_statuses(n: usize) -> (r: Vec<WallpaperLoadStatus>)
    ensures
        r@ == Seq::new(n as nat, |i: int| WallpaperLoadStatus::Loading),
{
    let mut v: Vec<WallpaperLoadStatus> = Vec::new();
    let mut k: usize = 0;
    while k < n
        invariant
            k <= n,
            v@ == Seq::new(k as nat, |i: int| WallpaperLoadStatus::Loading),
        decreases n - k,
    {
        v.push(WallpaperLoadStatus::Loading);
        k = k + 1;
        assert(v@ =~= Seq::new(k as nat, |i: int| WallpaperLoadStatus::Loading));
    }
    v
}


proof fn lemma_pages_push(p: Seq<PageInfo>, len: nat, end: usize, page: usize)
    requires
        pages_fit(p, len),
        len < end,
    ensures
        pages_fit(p.push(PageInfo { end_index: end, page_num: page }), end as nat),
{
    let q = p.push(PageInfo { end_index: end, page_num: page });
    assert forall|i: int, j: int| 0 <= i < j < q.len() implies (#[trigger] q[i]).end_index
        < (#[trigger] q[j]).end_index by {
        assert(q[i] == p[i]);
        if j < q.len() - 1 {
            assert(q[j] == p[j]);
        }
    }
    assert forall|i: int| 0 <= i < q.len() implies 0 < (#[trigger] q[i]).end_index <= end by {
        if i < q.len() - 1 {
            assert(q[i] == p[i]);
        }
    }
}

impl<H, T: Default + Clone, C: Default + Clone> OnlineState<H, T, C> {
    /// Appends a page of entries, records where the page ends and loads the
    /// thumbnails of the new entries.
    #[verifier::rlimit(60)]
    fn append_page(
        &mut self,
        wallpapers: Vec<OnlineWallpaper<H>>,
        current_page: usize,
        net: &NetworkSettings,
    ) -> (tasks: Vec<OnlineTask<T, C>>)
        requires
            old(self).wf(),
        ensures
            final(self).wf(),
            ({
                let start = old(self).wallpapers@.len();
                let n = wallpapers@.len();
                &&& final(self).wallpapers_data@ == old(self).wallpapers_data@ + wallpapers@
                &&& final(self).wallpapers@ == old(self).wallpapers@ + Seq::new(
                    n,
                    |i: int| WallpaperLoadStatus::Loading,
                )
                &&& final(self).page_info@ == if n == 0 {
                    old(self).page_info@
                } else {
                    old(self).page_info@.push(
                        PageInfo { end_index: (start + n) as usize, page_num: current_page },
                    )
                }
                &&& final(self).thumb_load_cancel_tokens@.len() == old(
                    self,
                ).thumb_load_cancel_tokens@.len() + tasks@.len()
                &&& final(self).thumb_load_cancel_tokens@.take(
                    old(self).thumb_load_cancel_tokens@.len() as int,
                ) == old(self).thumb_load_cancel_tokens@
                &&& loads_thumbs(
                    tasks@,
                    final(self).wallpapers_data@,
                    start as int,
                    final(self).thumb_load_cancel_tokens@.skip(
                        old(self).thumb_load_cancel_tokens@.len() as int,
                    ),
                    net.cache_path,
                    configured_proxy(*net),
                    ThumbFailure::EmptyImage,
                )
                &&& *final(self) == (OnlineState {
                    wallpapers: final(self).wallpapers,
                    wallpapers_data: final(self).wallpapers_data,
                    page_info: final(self).page_info,
                    thumb_load_cancel_tokens: final(self).thumb_load_cancel_tokens,
                    ..*old(self)
                })
            }),
    {
        let proxy = if net.proxy.as_str().unicode_len() == 0 {
            None
        } else {
            Some(net.proxy.clone())
        };
        let start = self.wallpapers_data.len();
        let n = wallpapers.len();
        let mut incoming = wallpapers;
        let ghost old_pages = self.page_info@;
        self.wallpapers_data.append(&mut incoming);
        let end = self.wallpapers_data.len();
        let mut statuses = loading_statuses(n);
        self.wallpapers.append(&mut statuses);
        let tasks = self.start_thumb_loads(start, &net.cache_path, &proxy, ThumbFailure::EmptyImage);
        if n > 0 {
            proof {
                lemma_pages_push(old_pages, start as nat, end, current_page);
            }
            self.page_info.push(PageInfo { end_index: self.wallpapers.len(), page_num: current_page });
        }
        tasks
    }
}

impl<H, T: Default + Clone, C: Default + Clone> OnlineState<H, T, C> {
    /// A later page arrived: appends its entries, records where the page
    /// ends and loads their thumbnails. An empty page that is not the last
    /// one is skipped by requesting the next.
    #[verifier::rlimit(60)]
    pub fn load_online_page_success(
        &mut self,
        wallpapers: Vec<OnlineWallpaper<H>>,
        last_page: bool,
        total_pages: usize,
        current_page: usize,
        config: &WallhavenConfig,
        net: &NetworkSettings,
    ) -> (tasks: Vec<OnlineTask<T, C>>)
        requires
            old(self).wf(),
        ensures
            final(self).wf(),
            final(self).total_pages == total_pages,
            final(self).last_page == last_page_after(
                wallpapers@.len() == 0,
                last_page,
                total_pages,
                current_page,
            ),
            final(self).has_loaded,
            skips_empty_page(wallpapers@.len() == 0, last_page, total_pages, current_page)
                ==> is_page_request(
                (OnlineState {
                    current_page,
                    total_pages,
                    last_page: final(self).last_page,
                    has_loaded: true,
                    loading_page: false,
                    ..*old(self)
                }),
                *final(self),
                tasks@,
                config.api_key@,
                *net,
            ),
            !skips_empty_page(wallpapers@.len() == 0, last_page, total_pages, current_page) ==> {
                let start = old(self).wallpapers@.len();
                let n = wallpapers@.len();
                &&& final(self).wallpapers_data@ == old(self).wallpapers_data@ + wallpapers@
                &&& final(self).wallpapers@ == old(self).wallpapers@ + Seq::new(
                    n,
                    |i: int| WallpaperLoadStatus::Loading,
                )
                &&& final(self).page_info@ == if n == 0 {
                    old(self).page_info@
                } else {
                    old(self).page_info@.push(
                        PageInfo { end_index: (start + n) as usize, page_num: current_page },
                    )
                }
                &&& final(self).thumb_load_cancel_tokens@.len() == old(
                    self,
                ).thumb_load_cancel_tokens@.len() + tasks@.len()
                &&& final(self).thumb_load_cancel_tokens@.take(
                    old(self).thumb_load_cancel_tokens@.len() as int,
                ) == old(self).thumb_load_cancel_tokens@
                &&& loads_thumbs(
                    tasks@,
                    final(self).wallpapers_data@,
                    start as int,
                    final(self).thumb_load_cancel_tokens@.skip(
                        old(self).thumb_load_cancel_tokens@.len() as int,
                    ),
                    net.cache_path,
                    configured_proxy(*net),
                    ThumbFailure::EmptyImage,
                )
                &&& *final(self) == (OnlineState {
                    current_page,
                    total_pages,
                    last_page: final(self).last_page,
                    has_loaded: true,
                    loading_page: false,
                    wallpapers: final(self).wallpapers,
                    wallpapers_data: final(self).wallpapers_data,
                    page_info: final(self).page_info,
                    thumb_load_cancel_tokens: final(self).thumb_load_cancel_tokens,
                    ..*old(self)
                })
            },
    {
        self.current_page = current_page;
        self.total_pages = total_pages;
        let is_empty_data = wallpapers.len() == 0;
        let is_first_and_last_page = current_page == 1 && total_pages == 1;
        self.last_page = if is_empty_data && is_first_and_last_page {
            false
        } else {
            last_page
        };
        self.has_loaded = true;
        if is_empty_data && !last_page && current_page < total_pages {
            self.loading_page = false;
            return self.load_online_page(config, net);
        }
        self.loading_page = false;
        self.append_page(wallpapers, current_page, net)
    }

    /// The first page of a search arrived: replaces the list with its
    /// entries, records where the page ends and loads their thumbnails. An
    /// empty page that is not the last one is skipped by requesting the next.
    #[verifier::rlimit(60)]
    pub fn load_online_wallpapers_success(
        &mut self,
        wallpapers: Vec<OnlineWallpaper<H>>,
        last_page: bool,
        total_pages: usize,
        current_page: usize,
        config: &WallhavenConfig,
        net: &NetworkSettings,
    ) -> (tasks: Vec<OnlineTask<T, C>>)
        requires
            old(self).wf(),
        ensures
            final(self).wf(),
            final(self).total_pages == total_pages,
            final(self).last_page == last_page_after(
                wallpapers@.len() == 0,
                last_page,
                total_pages,
                current_page,
            ),
            final(self).has_loaded,
            skips_empty_page(wallpapers@.len() == 0, last_page, total_pages, current_page)
                ==> is_page_request(
                (OnlineState {
                    current_page,
                    total_pages,
                    last_page: final(self).last_page,
                    has_loaded: true,
                    loading_page: false,
                    ..*old(self)
                }),
                *final(self),
                tasks@,
                config.api_key@,
                *net,
            ),
            !skips_empty_page(wallpapers@.len() == 0, last_page, total_pages, current_page) ==> {
                let n = wallpapers@.len();
                &&& final(self).wallpapers_data@ == wallpapers@
                &&& final(self).wallpapers@ == Seq::new(n, |i: int| WallpaperLoadStatus::Loading)
                &&& final(self).page_info@ == if n == 0 {
                    Seq::<PageInfo>::empty()
                } else {
                    seq![PageInfo { end_index: n as usize, page_num: current_page }]
                }
                &&& final(self).thumb_load_cancel_tokens@.len() == old(
                    self,
                ).thumb_load_cancel_tokens@.len() + tasks@.len()
                &&& final(self).thumb_load_cancel_tokens@.take(
                    old(self).thumb_load_cancel_tokens@.len() as int,
                ) == old(self).thumb_load_cancel_tokens@
                &&& loads_thumbs(
                    tasks@,
                    final(self).wallpapers_data@,
                    0,
                    final(self).thumb_load_cancel_tokens@.skip(
                        old(self).thumb_load_cancel_tokens@.len() as int,
                    ),
                    net.cache_path,
                    configured_proxy(*net),
                    ThumbFailure::EmptyImage,
                )
                &&& *final(self) == (OnlineState {
                    current_page,
                    total_pages,
                    total_count: n as usize,
                    last_page: final(self).last_page,
                    has_loaded: true,
                    loading_page: false,
                    wallpapers: final(self).wallpapers,
                    wallpapers_data: final(self).wallpapers_data,
                    page_info: final(self).page_info,
                    thumb_load_cancel_tokens: final(self).thumb_load_cancel_tokens,
                    ..*old(self)
                })
            },
    {
        self.current_page = current_page;
        self.total_pages = total_pages;
        let is_empty_data = wallpapers.len() == 0;
        let is_first_and_last_page = current_page == 1 && total_pages == 1;
        self.last_page = if is_empty_data && is_first_and_last_page {
            false
        } else {
            last_page
        };
        self.has_loaded = true;
        if is_empty_data && !last_page && current_page < total_pages {
            self.loading_page = false;
            return self.load_online_page(config, net);
        }
        self.total_count = wallpapers.len();
        self.wallpapers_data = Vec::new();
        self.wallpapers = Vec::new();
        self.page_info = Vec::new();
        self.loading_page = false;
        let tasks = self.append_page(wallpapers, current_page, net);
        proof {
            assert(Seq::<OnlineWallpaper<H>>::empty() + wallpapers@ =~= wallpapers@);
            assert(Seq::<WallpaperLoadStatus>::empty() + Seq::new(
                wallpapers@.len(),
                |i: int| WallpaperLoadStatus::Loading,
            ) =~= Seq::new(wallpapers@.len(), |i: int| WallpaperLoadStatus::Loading));
            assert(Seq::<PageInfo>::empty().push(
                PageInfo { end_index: wallpapers@.len() as usize, page_num: current_page },
            ) =~= seq![PageInfo { end_index: wallpapers@.len() as usize, page_num: current_page }]);
        }
        tasks
    }

    /// The list is scrolled to its bottom: requests the next page unless the
    /// last page is loaded or a page is in flight.
    pub fn online_scroll_to_bottom(&mut self, config: &WallhavenConfig, net: &NetworkSettings) -> (tasks: Vec<
        OnlineTask<T, C>,
    >)
        requires
            old(self).wf(),
            !old(self).last_page && !old(self).loading_page ==> old(self).current_page
                < usize::MAX,
        ensures
            !old(self).last_page && !old(self).loading_page ==> is_page_request(
                *old(self),
                *final(self),
                tasks@,
                config.api_key@,
                *net,
            ),
            old(self).last_page || old(self).loading_page ==> *final(self) == *old(self)
                && tasks@.len() == 0,
    {
        if !self.last_page && !self.loading_page {
            self.load_online_page(config, net)
        } else {
            Vec::new()
        }
    }

    /// After a change of the list or the window: when the list is not empty
    /// and its estimated content is shorter than the window (so that no
    /// scroll bar could ask for more), requests the next page, unless the
    /// last page is loaded or a page is in flight.
    pub fn online_check_and_load_next_page(
        &mut self,
        content_shorter_than_window: bool,
        config: &WallhavenConfig,
        net: &NetworkSettings,
    ) -> (tasks: Vec<OnlineTask<T, C>>)
        requires
            old(self).wf(),
            !old(self).last_page && !old(self).loading_page ==> old(self).current_page
                < usize::MAX,
        ensures
            ({
                let loads = !old(self).last_page && !old(self).loading_page
                    && old(self).wallpapers@.len() > 0 && content_shorter_than_window;
                &&& loads ==> is_page_request(
                    *old(self),
                    *final(self),
                    tasks@,
                    config.api_key@,
                    *net,
                )
                &&& !loads ==> *final(self) == *old(self) && tasks@.len() == 0
            }),
    {
        if !self.last_page && !self.loading_page {
            if self.wallpapers.len() == 0 {
                return Vec::new();
            }
            if content_shorter_than_window {
                self.load_online_page(config, net)
            } else {
                Vec::new()
            }
        } else {
            Vec::new()
        }
    }

    /// Searches from the first page: cancels the waiting downloads, starts
    /// the search and scrolls the list to its top.
    pub fn online_search(&mut self, config: &WallhavenConfig, net: &NetworkSettings) -> (tasks: Vec<
        OnlineTask<T, C>,
    >)
        requires
            old(self).wf(),
        ensures
            tasks@.len() >= 3,
            tasks@[0] is CancelPendingDownloads,
            tasks@.last() is ScrollToTop,
            is_search_start(
                (OnlineState { current_page: 1, ..*old(self) }),
                *final(self),
                tasks@.subrange(1, tasks@.len() - 1),
                config.api_key@,
                *net,
            ),
    {
        self.current_page = 1;
        let mut tasks: Vec<OnlineTask<T, C>> = Vec::new();
        tasks.push(OnlineTask::CancelPendingDownloads);
        let mut search = self.load_online_wallpapers(config, net);
        let ghost middle = search@;
        tasks.append(&mut search);
        tasks.push(OnlineTask::ScrollToTop);
        assert(tasks@.subrange(1, tasks@.len() - 1) =~= middle);
        tasks
    }

    /// Clears the search text and searches from the first page, scrolling
    /// the list to its top.
    pub fn online_refresh(&mut self, config: &WallhavenConfig, net: &NetworkSettings) -> (tasks: Vec<
        OnlineTask<T, C>,
    >)
        requires
            old(self).wf(),
        ensures
            final(self).search_text@.len() == 0,
            tasks@.len() >= 2,
            tasks@.last() is ScrollToTop,
            is_search_start(
                (OnlineState { current_page: 1, search_text: final(self).search_text, ..*old(self) }),
                *final(self),
                tasks@.drop_last(),
                config.api_key@,
                *net,
            ),
    {
        self.search_text = String::new();
        self.current_page = 1;
        let mut tasks = self.load_online_wallpapers(config, net);
        let ghost search = tasks@;
        tasks.push(OnlineTask::ScrollToTop);
        assert(tasks@.drop_last() =~= search);
        tasks
    }
}

/// Request errors that are shown to the user: timeouts and failed connections.
pub open spec fn is_reported_error(error: Seq<char>) -> bool {
    has_infix(error, "请求超时"@) || has_infix(error, "连接失败"@)
}

impl<H, T, C> OnlineState<H, T, C> {
    /// The first page of a search failed: the search is over.
    pub fn load_online_wallpapers_failed(&mut self, error: String)
        ensures
            *final(self) == (OnlineState { loading_page: false, has_loaded: true, ..*old(self) }),
    {
        self.loading_page = false;
        self.has_loaded = true;
    }

    /// A later page failed: the request is over; a timeout or failed
    /// connection is shown as an error notification with the error's text.
    pub fn load_online_page_failed(&mut self, error: String) -> (tasks: Vec<OnlineTask<T, C>>)
        ensures
            *final(self) == (OnlineState { loading_page: false, has_loaded: true, ..*old(self) }),
            is_reported_error(error@) ==> tasks@ == seq![
                OnlineTask::<T, C>::Notify(
                    Notification { text: NotificationText::Raw(error), kind: NotificationType::Error },
                ),
            ],
            !is_reported_error(error@) ==> tasks@.len() == 0,
    {
        self.loading_page = false;
        self.has_loaded = true;
        let mut tasks: Vec<OnlineTask<T, C>> = Vec::new();
        if contains_text(error.as_str(), "请求超时") || contains_text(error.as_str(), "连接失败") {
            tasks.push(
                OnlineTask::Notify(
                    Notification { text: NotificationText::Raw(error), kind: NotificationType::Error },
                ),
            );
        }
        tasks
    }
}

} // verus!