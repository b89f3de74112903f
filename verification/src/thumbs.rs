//! Thumbnails of the list: their arrival, their failure, and reloading the
//! ones whose cached file is gone.

use vstd::prelude::*;
use crate::paging::NetworkSettings;
use crate::state::{OnlineState, OnlineWallpaper, WallpaperLoadStatus};
use crate::tasks::{OnlineTask, ThumbFailure, ThumbLoad};
use crate::text::clone_opt;

verus! {

/// Whether entry `i` must be reloaded: its thumbnail is loaded, and either
/// all are to be reloaded or its image is held and its cached file is
/// reported missing.
pub open spec fn is_stale<H, T, C>(s: OnlineState<H, T, C>, force: bool, missing: Seq<bool>, i: int) -> bool {
    &&& s.wallpapers@[i] == WallpaperLoadStatus::Loaded
    &&& (force || (s.wallpapers_data@[i].image_handle is Some && i < missing.len() && missing[i]))
}

/// The entries below `n` that must be reloaded, in order.
pub open spec fn stale_indices<H, T, C>(s: OnlineState<H, T, C>, force: bool, missing: Seq<bool>, n: nat) -> Seq<
    int,
>
    decreases n,
{
    if n == 0 {
        Seq::<int>::empty()
    } else {
        let r = stale_indices(s, force, missing, (n - 1) as nat);
        if is_stale(s, force, missing, n - 1) {
            r.push(n - 1)
        } else {
            r
        }
    }
}

/// Whether `tasks` reload the thumbnails of `indices` of `data`, one task per
/// index in order, reporting failures as failures, each with a clone of the
/// matching token of `tokens`.
pub open spec fn reloads_thumbs<H, T: Clone, C>(
    tasks: Seq<OnlineTask<T, C>>,
    data: Seq<OnlineWallpaper<H>>,
    indices: Seq<int>,
    tokens: Seq<T>,
    net: NetworkSettings,
) -> bool {
    &&& tasks.len() == indices.len()
    &&& tokens.len() == tasks.len()
    &&& forall|k: int|
        0 <= k < tasks.len() ==> (#[trigger] tasks[k] matches OnlineTask::LoadThumb(l) && l.index
            == indices[k] && l.url == data[indices[k]].thumb_large && l.file_size
            == data[indices[k]].file_size && l.cache_path == net.cache_path && l.proxy
            == net.resolved_proxy && l.failure == ThumbFailure::Failed && cloned(
            l.token,
            tokens[k],
        ))
}

/// Whether `f` and `tasks` are what reloading the stale thumbnails of `s`
/// gives: those entries loading again without images, one reload task each,
/// and their cancel tokens kept after the existing ones.
#[verifier::opaque]
pub open spec fn is_thumb_reload<H, T: Clone, C>(
    s: OnlineState<H, T, C>,
    f: OnlineState<H, T, C>,
    tasks: Seq<OnlineTask<T, C>>,
    force: bool,
    missing: Seq<bool>,
    net: NetworkSettings,
) -> bool {
    let n = s.wallpapers@.len();
    let base = s.thumb_load_cancel_tokens@.len();
    &&& f.wallpapers@.len() == n
    &&& f.wallpapers_data@.len() == n
    &&& forall|i: int|
        0 <= i < n ==> #[trigger] f.wallpapers@[i] == if is_stale(s, force, missing, i) {
            WallpaperLoadStatus::Loading
        } else {
            s.wallpapers@[i]
        }
    &&& forall|i: int|
        0 <= i < n ==> #[trigger] f.wallpapers_data@[i] == if is_stale(s, force, missing, i) {
            OnlineWallpaper { image_handle: None, ..s.wallpapers_data@[i] }
        } else {
            s.wallpapers_data@[i]
        }
    &&& f.thumb_load_cancel_tokens@.len() == base + tasks.len()
    &&& f.thumb_load_cancel_tokens@.take(base as int) == s.thumb_load_cancel_tokens@
    &&& reloads_thumbs(
        tasks,
        s.wallpapers_data@,
        stale_indices(s, force, missing, n),
        f.thumb_load_cancel_tokens@.skip(base as int),
        net,
    )
    &&& f == (OnlineState {
        wallpapers: f.wallpapers,
        wallpapers_data: f.wallpapers_data,
        thumb_load_cancel_tokens: f.thumb_load_cancel_tokens,
        ..s
    })
}

/// Whether the preview is closed on entering the page: it is open on an
/// image whose cached file is gone.
pub open spec fn closes_modal<H, T, C>(s: OnlineState<H, T, C>, modal_image_missing: bool) -> bool {
    s.modal_visible && s.modal_image_handle is Some && modal_image_missing
}

/// The state after the preview check on entering the page.
pub open spec fn modal_checked<H, T, C>(s: OnlineState<H, T, C>, modal_image_missing: bool) -> OnlineState<H, T, C> {
    if closes_modal(s, modal_image_missing) {
        OnlineState {
            modal_visible: false,
            modal_image_handle: None,
            modal_download_cancel_token: None,
            modal_download_progress: None,
            modal_downloaded_bytes: 0,
            modal_total_bytes: 0,
            ..s
        }
    } else {
        s
    }
}

/// The tasks of the preview check: cancelling its download when it is closed.
pub open spec fn modal_check_tasks<H, T, C>(s: OnlineState<H, T, C>, modal_image_missing: bool) -> Seq<OnlineTask<T, C>> {
    match s.modal_download_cancel_token {
        Some(t) => if closes_modal(s, modal_image_missing) {
            seq![OnlineTask::<T, C>::CancelToken(t)]
        } else {
            Seq::<OnlineTask<T, C>>::empty()
        },
        None => Seq::<OnlineTask<T, C>>::empty(),
    }
}

impl<H, T, C> OnlineState<H, T, C> {
    /// Closes the preview when its cached image is gone.
    fn check_modal_image(&mut self, modal_image_missing: bool) -> (tasks: Vec<OnlineTask<T, C>>)
        requires
            old(self).wf(),
        ensures
            final(self).wf(),
            *final(self) == modal_checked(*old(self), modal_image_missing),
            tasks@ == modal_check_tasks(*old(self), modal_image_missing),
    {
        let mut tasks: Vec<OnlineTask<T, C>> = Vec::new();
        if self.modal_visible && self.modal_image_handle.is_some() && modal_image_missing {
            self.modal_visible = false;
            self.modal_image_handle = None;
            match self.cancel_modal_download() {
                Some(t) => tasks.push(OnlineTask::CancelToken(t)),
                None => {},
            }
        }
        tasks
    }

    /// A thumbnail arrived: the entry keeps its image and is loaded. Results
    /// for entries no longer in the list are dropped.
    pub fn online_thumb_loaded(&mut self, idx: usize, handle: H)
        requires
            old(self).wf(),
        ensures
            final(self).wf(),
            idx < old(self).wallpapers@.len() ==> {
                &&& final(self).wallpapers@ == old(self).wallpapers@.update(
                    idx as int,
                    WallpaperLoadStatus::Loaded,
                )
                &&& final(self).wallpapers_data@ == old(self).wallpapers_data@.update(
                    idx as int,
                    OnlineWallpaper { image_handle: Some(handle), ..old(self).wallpapers_data@[idx as int] },
                )
                &&& *final(self) == (OnlineState {
                    wallpapers: final(self).wallpapers,
                    wallpapers_data: final(self).wallpapers_data,
                    ..*old(self)
                })
            },
            idx >= old(self).wallpapers@.len() ==> *final(self) == *old(self),
    {
        if idx < self.wallpapers.len() {
            self.wallpapers_data[idx].image_handle = Some(handle);
            self.wallpapers.set(idx, WallpaperLoadStatus::Loaded);
        }
    }

    /// A thumbnail failed: the entry shows as failed. Results for entries no
    /// longer in the list are dropped.
    pub fn online_thumb_load_failed(&mut self, idx: usize)
        requires
            old(self).wf(),
        ensures
            final(self).wf(),
            idx < old(self).wallpapers@.len() ==> *final(self) == (OnlineState {
                wallpapers: final(self).wallpapers,
                ..*old(self)
            }) && final(self).wallpapers@ == old(self).wallpapers@.update(
                idx as int,
                WallpaperLoadStatus::Failed,
            ),
            idx >= old(self).wallpapers@.len() ==> *final(self) == *old(self),
    {
        if idx < self.wallpapers.len() {
            self.wallpapers.set(idx, WallpaperLoadStatus::Failed);
        }
    }
}

impl<H, T: Default + Clone, C> OnlineState<H, T, C> {
    /// Sets the entries that must be reloaded back to loading, forgets their
    /// images and reloads their thumbnails.
    #[verifier::rlimit(60)]
    fn reload_stale_thumbs(&mut self, force: bool, missing: &Vec<bool>, net: &NetworkSettings) -> (tasks: Vec<
        OnlineTask<T, C>,
    >)
        requires
            old(self).wf(),
        ensures
            final(self).wf(),
            is_thumb_reload(*old(self), *final(self), tasks@, force, missing@, *net),
    {
        let ghost s = *self;
        let ghost base = self.thumb_load_cancel_tokens@;
        let n = self.wallpapers.len();
        let mut tasks: Vec<OnlineTask<T, C>> = Vec::new();
        let mut idx: usize = 0;
        while idx < n
            invariant
                n == s.wallpapers@.len(),
                n == s.wallpapers_data@.len(),
                idx <= n,
                self.wallpapers@.len() == n,
                self.wallpapers_data@.len() == n,
                forall|i: int|
                    0 <= i < n ==> #[trigger] self.wallpapers@[i] == if i < idx && is_stale(
                        s,
                        force,
                        missing@,
                        i,
                    ) {
                        WallpaperLoadStatus::Loading
                    } else {
                        s.wallpapers@[i]
                    },
                forall|i: int|
                    0 <= i < n ==> #[trigger] self.wallpapers_data@[i] == if i < idx && is_stale(
                        s,
                        force,
                        missing@,
                        i,
                    ) {
                        OnlineWallpaper { image_handle: None, ..s.wallpapers_data@[i] }
                    } else {
                        s.wallpapers_data@[i]
                    },
                self.thumb_load_cancel_tokens@.len() == base.len() + tasks@.len(),
                self.thumb_load_cancel_tokens@.take(base.len() as int) == base,
                tasks@.len() == stale_indices(s, force, missing@, idx as nat).len(),
                forall|k: int|
                    0 <= k < tasks@.len() ==> (#[trigger] tasks@[k] matches OnlineTask::LoadThumb(
                        l,
                    ) && l.index == stale_indices(s, force, missing@, idx as nat)[k] && l.url
                        == s.wallpapers_data@[stale_indices(s, force, missing@, idx as nat)[k]].thumb_large
                        && l.file_size == s.wallpapers_data@[stale_indices(
                        s,
                        force,
                        missing@,
                        idx as nat,
                    )[k]].file_size && l.cache_path == net.cache_path && l.proxy
                        == net.resolved_proxy && l.failure == ThumbFailure::Failed && cloned(
                        l.token,
                        self.thumb_load_cancel_tokens@[base.len() + k],
                    )),
                *self == (OnlineState {
                    wallpapers: self.wallpapers,
                    wallpapers_data: self.wallpapers_data,
                    thumb_load_cancel_tokens: self.thumb_load_cancel_tokens,
                    ..s
                }),
                s.thumb_load_cancel_tokens@ == base,
            decreases n - idx,
        {
            let stale = self.wallpapers[idx] == WallpaperLoadStatus::Loaded && (force || (
            self.wallpapers_data[idx].image_handle.is_some() && idx < missing.len() && missing[idx]));
            assert(stale == is_stale(s, force, missing@, idx as int));
            if stale {
                self.wallpapers.set(idx, WallpaperLoadStatus::Loading);
                self.wallpapers_data[idx].image_handle = None;
                let token = T::default();
                let ghost before = self.thumb_load_cancel_tokens@;
                self.thumb_load_cancel_tokens.push(token.clone());
                assert(self.thumb_load_cancel_tokens@.take(base.len() as int) =~= base) by {
                    assert(before.take(base.len() as int) == base);
                }
                let w = &self.wallpapers_data[idx];
                tasks.push(
                    OnlineTask::LoadThumb(
                        ThumbLoad {
                            index: idx,
                            url: w.thumb_large.clone(),
                            file_size: w.file_size,
                            cache_path: net.cache_path.clone(),
                            proxy: clone_opt(&net.resolved_proxy),
                            token,
                            failure: ThumbFailure::Failed,
                        },
                    ),
                );
                assert forall|k: int| 0 <= k < tasks@.len() - 1 implies (#[trigger] tasks@[k] matches OnlineTask::LoadThumb(l) && cloned(
                    l.token,
                    self.thumb_load_cancel_tokens@[base.len() + k],
                )) by {
                    assert(self.thumb_load_cancel_tokens@[base.len() + k] == before[base.len() + k]);
                }
            }
            idx = idx + 1;
        }
        proof {
            let added = self.thumb_load_cancel_tokens@.skip(base.len() as int);
            assert forall|k: int| 0 <= k < tasks@.len() implies added[k] == self.thumb_load_cancel_tokens@[base.len() + k] by {}
            reveal(is_thumb_reload);
        }
        tasks
    }

    /// Entering the page: closes the preview if its cached image is gone,
    /// and reloads the thumbnails whose cached file is gone (all loaded ones
    /// when they were marked stale).
    #[verifier::rlimit(100)]
    pub fn online_check_thumbs(
        &mut self,
        modal_image_missing: bool,
        thumb_missing: &Vec<bool>,
        net: &NetworkSettings,
    ) -> (tasks: Vec<OnlineTask<T, C>>)
        requires
            old(self).wf(),
        ensures
            final(self).wf(),
            ({
                let s = modal_checked(
                    OnlineState { thumbs_stale: false, ..*old(self) },
                    modal_image_missing,
                );
                let first = modal_check_tasks(*old(self), modal_image_missing);
                &&& tasks@.len() >= first.len()
                &&& tasks@.take(first.len() as int) == first
                &&& is_thumb_reload(
                    s,
                    *final(self),
                    tasks@.skip(first.len() as int),
                    old(self).thumbs_stale,
                    thumb_missing@,
                    *net,
                )
            }),
    {
        let force = self.thumbs_stale;
        self.thumbs_stale = false;
        let ghost s1 = *self;
        assert(s1 == (OnlineState { thumbs_stale: false, ..*old(self) }));
        assert(modal_check_tasks(s1, modal_image_missing) == modal_check_tasks(
            *old(self),
            modal_image_missing,
        ));
        let mut tasks = self.check_modal_image(modal_image_missing);
        let ghost first = tasks@;
        let ghost s2 = *self;
        assert(s2 == modal_checked(s1, modal_image_missing));
        let mut reloads = self.reload_stale_thumbs(force, thumb_missing, net);
        let ghost second = reloads@;
        tasks.append(&mut reloads);
        assert(tasks@.take(first.len() as int) =~= first);
        assert(tasks@.skip(first.len() as int) =~= second);
        tasks
    }
}

} // verus!
