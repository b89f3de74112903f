//! The preview modal: opening and closing it, paging through the list in
//! it, and the progress and outcome of its image download.

use vstd::prelude::*;
use crate::paging::{NetworkSettings, configured_proxy};
use crate::state::OnlineState;
use crate::tasks::{ModalImageLoad, OnlineTask};
use crate::text::clone_opt;

verus! {

/// The proxy of the preview download when it is opened: the configured one
/// when proxies are enabled.
pub open spec fn enabled_proxy(net: NetworkSettings) -> Option<String> {
    if net.proxy_enabled && net.proxy@.len() > 0 {
        Some(net.proxy)
    } else {
        None
    }
}

/// Whether `tasks` are the one streamed load of the full image of the entry
/// `index`, whose cancel token is a clone of `kept`.
pub open spec fn loads_modal_image<H, T: Clone, C>(
    tasks: Seq<OnlineTask<T, C>>,
    s: OnlineState<H, T, C>,
    index: int,
    net: NetworkSettings,
    proxy: Option<String>,
    kept: Option<T>,
) -> bool {
    &&& tasks.len() == 1
    &&& tasks[0] matches OnlineTask::LoadModalImage(l)
    &&& l.url == s.wallpapers_data@[index].path
    &&& l.file_size == s.wallpapers_data@[index].file_size
    &&& l.cache_path == net.cache_path
    &&& l.proxy == proxy
    &&& kept matches Some(k)
    &&& cloned(l.token, k)
}

/// The entry after `i` in a list of `n` entries, wrapping round to the first.
pub open spec fn next_index(i: int, n: int) -> int {
    if i + 1 < n {
        i + 1
    } else {
        0
    }
}

/// The entry before `i` in a list of `n` entries, wrapping round to the last.
pub open spec fn previous_index(i: int, n: int) -> int {
    if i > 0 {
        i - 1
    } else {
        n - 1
    }
}

impl<H, T: Default + Clone, C> OnlineState<H, T, C> {
    /// Opens the preview on the entry `index` and streams its full image.
    pub fn show_online_modal(&mut self, index: usize, net: &NetworkSettings) -> (tasks: Vec<
        OnlineTask<T, C>,
    >)
        requires
            old(self).wf(),
        ensures
            final(self).wf(),
            index < old(self).wallpapers_data@.len() ==> loads_modal_image(
                tasks@,
                *final(self),
                index as int,
                *net,
                enabled_proxy(*net),
                final(self).modal_download_cancel_token,
            ),
            index >= old(self).wallpapers_data@.len() ==> tasks@.len() == 0
                && final(self).modal_download_cancel_token == old(self).modal_download_cancel_token,
            *final(self) == (OnlineState {
                current_image_index: index,
                modal_visible: true,
                modal_image_handle: None,
                modal_download_progress: None,
                modal_downloaded_bytes: 0,
                modal_total_bytes: 0,
                modal_download_cancel_token: final(self).modal_download_cancel_token,
                ..*old(self)
            }),
    {
        self.current_image_index = index;
        self.modal_visible = true;
        self.modal_image_handle = None;
        self.modal_download_progress = None;
        self.modal_downloaded_bytes = 0;
        self.modal_total_bytes = 0;
        let mut tasks: Vec<OnlineTask<T, C>> = Vec::new();
        if index < self.wallpapers_data.len() {
            let proxy = if net.proxy_enabled && net.proxy.as_str().unicode_len() > 0 {
                Some(net.proxy.clone())
            } else {
                None
            };
            let token = T::default();
            self.modal_download_cancel_token = Some(token.clone());
            let w = &self.wallpapers_data[index];
            tasks.push(
                OnlineTask::LoadModalImage(
                    ModalImageLoad {
                        url: w.path.clone(),
                        file_size: w.file_size,
                        cache_path: net.cache_path.clone(),
                        proxy,
                        token,
                    },
                ),
            );
        }
        tasks
    }

    /// Shows the next entry in the preview, going round from the last entry
    /// to the first: stops the running download and streams the full image.
    /// Nothing happens on an empty list.
    #[verifier::rlimit(60)]
    pub fn next_online_image(&mut self, net: &NetworkSettings) -> (tasks: Vec<OnlineTask<T, C>>)
        requires
            old(self).wf(),
        ensures
            final(self).wf(),
            old(self).wallpapers@.len() > 0 ==> {
                let next = next_index(
                    old(self).current_image_index as int,
                    old(self).wallpapers@.len() as int,
                );
                &&& *final(self) == (OnlineState {
                    current_image_index: next as usize,
                    modal_image_handle: None,
                    modal_download_progress: None,
                    modal_downloaded_bytes: 0,
                    modal_total_bytes: 0,
                    modal_download_cancel_token: final(self).modal_download_cancel_token,
                    ..*old(self)
                })
                &&& match old(self).modal_download_cancel_token {
                    Some(t) => tasks@.len() == 2 && tasks@[0] == OnlineTask::<T, C>::CancelToken(t)
                        && loads_modal_image(
                        tasks@.drop_first(),
                        *final(self),
                        next,
                        *net,
                        configured_proxy(*net),
                        final(self).modal_download_cancel_token,
                    ),
                    None => loads_modal_image(
                        tasks@,
                        *final(self),
                        next,
                        *net,
                        configured_proxy(*net),
                        final(self).modal_download_cancel_token,
                    ),
                }
            },
            old(self).wallpapers@.len() == 0 ==> *final(self) == *old(self) && tasks@.len() == 0,
    {
        let len = self.wallpapers.len();
        let mut tasks: Vec<OnlineTask<T, C>> = Vec::new();
        if len > 0 {
            let next = if self.current_image_index < len - 1 {
                self.current_image_index + 1
            } else {
                0
            };
            self.current_image_index = next;
            self.modal_image_handle = None;
            match self.cancel_modal_download() {
                Some(t) => tasks.push(OnlineTask::CancelToken(t)),
                None => {},
            }
            let ghost cancels = tasks@;
            let proxy = if net.proxy.as_str().unicode_len() == 0 {
                None
            } else {
                Some(net.proxy.clone())
            };
            let token = T::default();
            self.modal_download_cancel_token = Some(token.clone());
            let w = &self.wallpapers_data[next];
            tasks.push(
                OnlineTask::LoadModalImage(
                    ModalImageLoad {
                        url: w.path.clone(),
                        file_size: w.file_size,
                        cache_path: net.cache_path.clone(),
                        proxy,
                        token,
                    },
                ),
            );
            proof {
                if cancels.len() > 0 {
                    assert(tasks@.drop_first() =~= seq![tasks@[1]]);
                }
            }
        }
        tasks
    }
}

impl<H, T, C> OnlineState<H, T, C> {
    /// Shows the previous entry in the preview, going round from the first
    /// entry to the last, and loads its full image in one request. Nothing
    /// happens on an empty list.
    #[verifier::rlimit(60)]
    pub fn previous_online_image(&mut self, net: &NetworkSettings) -> (tasks: Vec<OnlineTask<T, C>>)
        requires
            old(self).wf(),
        ensures
            final(self).wf(),
            old(self).current_image_index > 0 || old(self).wallpapers@.len() > 0 ==> {
                let prev = previous_index(
                    old(self).current_image_index as int,
                    old(self).wallpapers@.len() as int,
                );
                &&& *final(self) == (OnlineState {
                    current_image_index: prev as usize,
                    modal_image_handle: None,
                    ..*old(self)
                })
                &&& prev < old(self).wallpapers_data@.len() ==> tasks@.len() == 1 && (
                tasks@[0] matches OnlineTask::LoadPreviewImage { url, proxy } && url == old(
                    self,
                ).wallpapers_data@[prev].path && proxy == configured_proxy(*net))
                &&& prev >= old(self).wallpapers_data@.len() ==> tasks@.len() == 0
            },
            old(self).current_image_index == 0 && old(self).wallpapers@.len() == 0 ==> *final(self)
                == *old(self) && tasks@.len() == 0,
    {
        let mut tasks: Vec<OnlineTask<T, C>> = Vec::new();
        let len = self.wallpapers.len();
        if self.current_image_index > 0 || len > 0 {
            let prev = if self.current_image_index > 0 {
                self.current_image_index - 1
            } else {
                len - 1
            };
            self.current_image_index = prev;
            self.modal_image_handle = None;
            if prev < self.wallpapers_data.len() {
                let proxy = if net.proxy.as_str().unicode_len() == 0 {
                    None
                } else {
                    Some(net.proxy.clone())
                };
                tasks.push(
                    OnlineTask::LoadPreviewImage {
                        url: self.wallpapers_data[prev].path.clone(),
                        proxy,
                    },
                );
            }
        }
        tasks
    }

    /// The preview image arrived in one piece.
    pub fn online_modal_image_loaded(&mut self, handle: H)
        ensures
            *final(self) == (OnlineState { modal_image_handle: Some(handle), ..*old(self) }),
    {
        self.modal_image_handle = Some(handle);
    }

    /// Closes the preview, drops its image and stops its download.
    pub fn close_online_modal(&mut self) -> (tasks: Vec<OnlineTask<T, C>>)
        ensures
            *final(self) == (OnlineState {
                modal_visible: false,
                modal_image_handle: None,
                modal_download_cancel_token: None,
                modal_download_progress: None,
                modal_downloaded_bytes: 0,
                modal_total_bytes: 0,
                ..*old(self)
            }),
            match old(self).modal_download_cancel_token {
                Some(t) => tasks@ == seq![OnlineTask::<T, C>::CancelToken(t)],
                None => tasks@.len() == 0,
            },
    {
        self.modal_visible = false;
        self.modal_image_handle = None;
        let mut tasks: Vec<OnlineTask<T, C>> = Vec::new();
        match self.cancel_modal_download() {
            Some(t) => tasks.push(OnlineTask::CancelToken(t)),
            None => {},
        }
        tasks
    }

    /// The preview download finished: the image is shown if the preview is
    /// still open (otherwise dropped). The progress stays, so that the ring
    /// remains until the image is on screen.
    pub fn modal_image_downloaded(&mut self, handle: H)
        ensures
            old(self).modal_visible ==> *final(self) == (OnlineState {
                modal_image_handle: Some(handle),
                modal_download_cancel_token: None,
                ..*old(self)
            }),
            !old(self).modal_visible ==> *final(self) == (OnlineState {
                modal_download_cancel_token: None,
                ..*old(self)
            }),
    {
        if self.modal_visible {
            self.modal_image_handle = Some(handle);
        }
        self.modal_download_cancel_token = None;
    }

    /// The preview download failed. A cancellation that arrives while a newer
    /// download runs (the user moved on) changes nothing; otherwise the
    /// progress is cleared and the download forgotten.
    pub fn modal_image_download_failed(&mut self, cancelled: bool)
        ensures
            cancelled && old(self).modal_download_cancel_token is Some ==> *final(self) == *old(self),
            !(cancelled && old(self).modal_download_cancel_token is Some) ==> *final(self) == (OnlineState {
                modal_download_progress: None,
                modal_downloaded_bytes: 0,
                modal_total_bytes: 0,
                modal_download_cancel_token: None,
                ..*old(self)
            }),
    {
        if cancelled && self.modal_download_cancel_token.is_some() {
            return;
        }
        self.modal_download_progress = None;
        self.modal_downloaded_bytes = 0;
        self.modal_total_bytes = 0;
        self.modal_download_cancel_token = None;
    }

    /// Progress of the preview download, ignored once the preview is closed.
    /// The progress fraction is taken only when the total is known (non-zero).
    #[verifier::rlimit(40)]
    pub fn modal_image_progress(&mut self, downloaded: u64, total: u64)
        requires
            old(self).wf(),
        ensures
            final(self).wf(),
            !old(self).modal_visible ==> *final(self) == *old(self),
            old(self).modal_visible && total > 0 ==> *final(self) == (OnlineState {
                modal_downloaded_bytes: downloaded,
                modal_total_bytes: total,
                modal_download_progress: Some((downloaded, total)),
                ..*old(self)
            }),
            old(self).modal_visible && total == 0 ==> *final(self) == (OnlineState {
                modal_downloaded_bytes: downloaded,
                modal_total_bytes: total,
                ..*old(self)
            }),
    {
        if self.modal_visible {
            self.modal_downloaded_bytes = downloaded;
            self.modal_total_bytes = total;
            if total > 0 {
                self.modal_download_progress = Some((downloaded, total));
            }
        }
    }
}

} // verus!
