//! Downloading and setting online wallpapers: the library file name of a
//! result, where its file already is, and what the download, save and
//! set-as-wallpaper actions do; copying a result's link.

use vstd::prelude::*;
use crate::filters::push_str;
use crate::state::{OnlineState, OnlineWallpaper};
use crate::tasks::{Notification, NotificationText, NotificationType, OnlineTask};
use crate::text::{after_last_slash, chars_of, str_eq, string_of};

verus! {

/// The library file name of a wallpaper: `wallhaven-<id>.<extension>`.
pub open spec fn file_name_of(id: Seq<char>, ext: Seq<char>) -> Seq<char> {
    "wallhaven-"@ + id + "."@ + ext
}

/// The library file name of a result, its extension taken from its MIME type
/// (the part after the last `/`).
pub open spec fn wallpaper_file_name<H>(w: OnlineWallpaper<H>) -> Seq<char> {
    file_name_of(w.id@, after_last_slash(w.file_type@))
}

/// The part of a MIME type after its last `/`.
pub fn file_extension(file_type: &str) -> (r: String)
    ensures
        r@ == after_last_slash(file_type@),
{
    let c = chars_of(file_type);
    let mut cur: Vec<char> = Vec::new();
    let mut i: usize = 0;
    assert(c@.take(0) =~= Seq::<char>::empty());
    while i < c.len()
        invariant
            c@ == file_type@,
            i <= c@.len(),
            cur@ == after_last_slash(c@.take(i as int)),
        decreases c@.len() - i,
    {
        proof {
            assert(c@.take(i + 1).drop_last() =~= c@.take(i as int));
            assert(c@.take(i + 1).last() == c@[i as int]);
        }
        if c[i] == '/' {
            cur = Vec::new();
        } else {
            cur.push(c[i]);
        }
        i = i + 1;
    }
    assert(c@.take(c@.len() as int) =~= c@);
    string_of(cur.as_slice())
}

/// `wallhaven-<id>.<ext>`.
pub fn generate_file_name(id: &str, ext: &str) -> (r: String)
    ensures
        r@ == file_name_of(id@, ext@),
{
    let mut v: Vec<char> = Vec::new();
    push_str(&mut v, "wallhaven-");
    push_str(&mut v, id);
    push_str(&mut v, ".");
    push_str(&mut v, ext);
    assert(v@ =~= file_name_of(id@, ext@));
    string_of(v.as_slice())
}

/// The library file name of a result.
pub fn online_file_name<H>(w: &OnlineWallpaper<H>) -> (r: String)
    ensures
        r@ == wallpaper_file_name(*w),
{
    let ext = file_extension(w.file_type.as_str());
    generate_file_name(w.id.as_str(), ext.as_str())
}

/// Where a result's file already is.
pub enum OnlineFileHit {
    /// In the wallpaper library, under its library file name.
    InData,
    /// Fully downloaded in the cache, at the given path.
    InCache(String),
}

/// Where the file of a result of `file_size` bytes already is: in the library
/// when the library file has that size, else in the cache when the cached
/// file has that size, else nowhere. `library_size` is the size of the
/// library file and `cached` the path and size of the cached file, for those
/// that exist.
pub fn resolve_online_file(file_size: u64, library_size: Option<u64>, cached: Option<(String, u64)>) -> (r: Option<
    OnlineFileHit,
>)
    ensures
        library_size == Some(file_size) ==> r matches Some(OnlineFileHit::InData),
        library_size != Some(file_size) ==> match cached {
            Some((path, size)) => if size == file_size {
                r == Some(OnlineFileHit::InCache(path))
            } else {
                r is None
            },
            None => r is None,
        },
{
    if library_size == Some(file_size) {
        return Some(OnlineFileHit::InData);
    }
    match cached {
        Some((path, size)) => if size == file_size {
            Some(OnlineFileHit::InCache(path))
        } else {
            None
        },
        None => None,
    }
}

/// State of a download task.
pub enum DownloadStatus {
    Pending,
    Downloading,
    Paused,
    Completed,
    Cancelled,
    Failed(String),
}

/// A task of the download queue.
pub struct DownloadTaskInfo {
    pub url: String,
    pub status: DownloadStatus,
}

/// Whether a download is still to finish: neither completed, cancelled nor failed.
pub open spec fn is_active(s: DownloadStatus) -> bool {
    !(s is Completed || s is Cancelled || s is Failed)
}

/// Whether the queue holds a download of `url` that is still to finish.
pub open spec fn queued(tasks: Seq<DownloadTaskInfo>, url: Seq<char>) -> bool {
    exists|i: int| 0 <= i < tasks.len() && (#[trigger] tasks[i]).url@ == url && is_active(tasks[i].status)
}

/// Whether the download queue holds a download of `url` that is still to finish.
pub fn has_active_download_for(tasks: &Vec<DownloadTaskInfo>, url: &str) -> (r: bool)
    ensures
        r == queued(tasks@, url@),
{
    let mut i: usize = 0;
    while i < tasks.len()
        invariant
            i <= tasks@.len(),
            forall|j: int| 0 <= j < i ==> !((#[trigger] tasks@[j]).url@ == url@ && is_active(tasks@[j].status)),
        decreases tasks@.len() - i,
    {
        let t = &tasks[i];
        let active = match t.status {
            DownloadStatus::Completed | DownloadStatus::Cancelled | DownloadStatus::Failed(_) => false,
            _ => true,
        };
        if active && str_eq(t.url.as_str(), url) {
            return true;
        }
        i = i + 1;
    }
    false
}

/// A notification with a key and the file name as detail.
pub open spec fn notifies_file<T, C>(t: OnlineTask<T, C>, key: Seq<char>, name: Seq<char>, kind: NotificationType) -> bool {
    match t {
        OnlineTask::Notify(n) => n.kind == kind && match n.text {
            NotificationText::KeyWithDetail(k, d) => k@ == key && d@ == name,
            _ => false,
        },
        _ => false,
    }
}

/// A notification with just a key.
pub open spec fn notifies<T, C>(t: OnlineTask<T, C>, key: Seq<char>, kind: NotificationType) -> bool {
    match t {
        OnlineTask::Notify(n) => n.kind == kind && match n.text {
            NotificationText::Key(k) => k@ == key,
            _ => false,
        },
        _ => false,
    }
}

/// A download of the result `w` into the library.
pub open spec fn starts_download<H, T, C>(t: OnlineTask<T, C>, w: OnlineWallpaper<H>) -> bool {
    t matches OnlineTask::StartDownload { url, id, file_type } && url == w.path && id == w.id
        && file_type == w.file_type
}

fn notify_key<T, C>(key: &'static str, kind: NotificationType) -> (t: OnlineTask<T, C>)
    ensures
        notifies(t, key@, kind),
{
    OnlineTask::Notify(Notification { text: NotificationText::Key(key), kind })
}

fn notify_file<T, C>(key: &'static str, name: String, kind: NotificationType) -> (t: OnlineTask<T, C>)
    ensures
        notifies_file(t, key@, name@, kind),
{
    OnlineTask::Notify(Notification { text: NotificationText::KeyWithDetail(key, name), kind })
}

impl<H, T, C> OnlineState<H, T, C> {
    /// Puts the full-image link of the result `index` on the clipboard.
    pub fn copy_online_image_link(&self, index: usize) -> (tasks: Vec<OnlineTask<T, C>>)
        ensures
            index < self.wallpapers_data@.len() ==> tasks@.len() == 1 && (tasks@[0] matches OnlineTask::CopyToClipboard {
                text,
                success_key,
                failure_key,
            } && text == self.wallpapers_data@[index as int].path && success_key@
                == "download-tasks.copy-link-success"@ && failure_key@
                == "download-tasks.copy-link-failed"@),
            index >= self.wallpapers_data@.len() ==> tasks@.len() == 0,
    {
        let mut tasks: Vec<OnlineTask<T, C>> = Vec::new();
        if index < self.wallpapers_data.len() {
            tasks.push(
                OnlineTask::CopyToClipboard {
                    text: self.wallpapers_data[index].path.clone(),
                    success_key: "download-tasks.copy-link-success",
                    failure_key: "download-tasks.copy-link-failed",
                },
            );
        }
        tasks
    }

    /// Saves the result `index` into the library: reports a file already
    /// there, copies a complete cached file, or queues a download unless one
    /// of the same link is already under way. `hit` is where the file of the
    /// result already is (see `resolve_online_file`).
    pub fn download_online_wallpaper(
        &self,
        index: usize,
        hit: Option<OnlineFileHit>,
        downloads: &Vec<DownloadTaskInfo>,
    ) -> (tasks: Vec<OnlineTask<T, C>>)
        ensures
            index >= self.wallpapers_data@.len() ==> tasks@.len() == 0,
            index < self.wallpapers_data@.len() ==> {
                let w = self.wallpapers_data@[index as int];
                let name = wallpaper_file_name(w);
                match hit {
                    Some(OnlineFileHit::InData) => tasks@.len() == 1 && notifies_file(
                        tasks@[0],
                        "download-tasks.file-already-exists"@,
                        name,
                        NotificationType::Info,
                    ),
                    Some(OnlineFileHit::InCache(path)) => tasks@.len() == 2 && tasks@[0] is InvalidateLocalList
                        && (tasks@[1] matches OnlineTask::CopyFromCache { from, file_name, success, failure_key }
                        && from == path && file_name@ == name && failure_key@ == "download-tasks.copy-failed"@
                        && notifies_file(
                        OnlineTask::<T, C>::Notify(success),
                        "download-tasks.copied-from-cache"@,
                        name,
                        NotificationType::Success,
                    )),
                    None => if queued(downloads@, w.path@) {
                        tasks@.len() == 1 && notifies(
                            tasks@[0],
                            "download-tasks.task-already-in-queue"@,
                            NotificationType::Info,
                        )
                    } else {
                        tasks@.len() == 2 && starts_download(tasks@[0], w) && notifies(
                            tasks@[1],
                            "download-tasks.added-to-download-queue"@,
                            NotificationType::Info,
                        )
                    },
                }
            },
    {
        let mut tasks: Vec<OnlineTask<T, C>> = Vec::new();
        if index >= self.wallpapers_data.len() {
            return tasks;
        }
        let w = &self.wallpapers_data[index];
        match hit {
            Some(OnlineFileHit::InData) => {
                let name = online_file_name(w);
                tasks.push(notify_file("download-tasks.file-already-exists", name, NotificationType::Info));
            },
            Some(OnlineFileHit::InCache(path)) => {
                let name = online_file_name(w);
                let shown = name.clone();
                tasks.push(OnlineTask::InvalidateLocalList);
                let success = Notification {
                    text: NotificationText::KeyWithDetail("download-tasks.copied-from-cache", shown),
                    kind: NotificationType::Success,
                };
                tasks.push(
                    OnlineTask::CopyFromCache {
                        from: path,
                        file_name: name,
                        success,
                        failure_key: "download-tasks.copy-failed",
                    },
                );
            },
            None => {
                if has_active_download_for(downloads, w.path.as_str()) {
                    tasks.push(notify_key("download-tasks.task-already-in-queue", NotificationType::Info));
                } else {
                    tasks.push(
                        OnlineTask::StartDownload {
                            url: w.path.clone(),
                            id: w.id.clone(),
                            file_type: w.file_type.clone(),
                        },
                    );
                    tasks.push(notify_key("download-tasks.added-to-download-queue", NotificationType::Info));
                }
            },
        }
        tasks
    }

    /// Saves the previewed result `index` into the library from the cache:
    /// reports a file already there, copies the cached file (after which the
    /// library list must be reloaded), or reports that no file is at hand.
    pub fn download_from_cache(&self, index: usize, hit: Option<OnlineFileHit>) -> (tasks: Vec<
        OnlineTask<T, C>,
    >)
        ensures
            index >= self.wallpapers_data@.len() ==> tasks@.len() == 0,
            index < self.wallpapers_data@.len() ==> {
                let name = wallpaper_file_name(self.wallpapers_data@[index as int]);
                match hit {
                    Some(OnlineFileHit::InData) => tasks@.len() == 1 && notifies_file(
                        tasks@[0],
                        "download-tasks.file-already-exists"@,
                        name,
                        NotificationType::Info,
                    ),
                    Some(OnlineFileHit::InCache(path)) => tasks@.len() == 2 && tasks@[0] is InvalidateLocalList
                        && (tasks@[1] matches OnlineTask::CopyFromCache { from, file_name, success, failure_key }
                        && from == path && file_name@ == name && failure_key@ == "download-tasks.copy-failed"@
                        && notifies_file(
                        OnlineTask::<T, C>::Notify(success),
                        "download-tasks.copied-from-cache"@,
                        name,
                        NotificationType::Success,
                    )),
                    None => tasks@.len() == 1 && notifies(
                        tasks@[0],
                        "download-tasks.cache-file-not-found"@,
                        NotificationType::Error,
                    ),
                }
            },
    {
        let mut tasks: Vec<OnlineTask<T, C>> = Vec::new();
        if index >= self.wallpapers_data.len() {
            return tasks;
        }
        let w = &self.wallpapers_data[index];
        match hit {
            Some(OnlineFileHit::InData) => {
                let name = online_file_name(w);
                tasks.push(notify_file("download-tasks.file-already-exists", name, NotificationType::Info));
            },
            Some(OnlineFileHit::InCache(path)) => {
                let name = online_file_name(w);
                let shown = name.clone();
                tasks.push(OnlineTask::InvalidateLocalList);
                let success = Notification {
                    text: NotificationText::KeyWithDetail("download-tasks.copied-from-cache", shown),
                    kind: NotificationType::Success,
                };
                tasks.push(
                    OnlineTask::CopyFromCache {
                        from: path,
                        file_name: name,
                        success,
                        failure_key: "download-tasks.copy-failed",
                    },
                );
            },
            None => {
                tasks.push(notify_key("download-tasks.cache-file-not-found", NotificationType::Error));
            },
        }
        tasks
    }

    /// Sets the result `index` as wallpaper from the library or the cache;
    /// reports that no file is at hand otherwise.
    pub fn set_wallpaper_from_cache(&self, index: usize, hit: Option<OnlineFileHit>) -> (tasks: Vec<
        OnlineTask<T, C>,
    >)
        ensures
            index >= self.wallpapers_data@.len() ==> tasks@.len() == 0,
            index < self.wallpapers_data@.len() ==> {
                let name = wallpaper_file_name(self.wallpapers_data@[index as int]);
                match hit {
                    Some(OnlineFileHit::InData) => tasks@.len() == 1 && (tasks@[0] matches OnlineTask::ApplyWallpaper { file_name } && file_name@ == name),
                    Some(OnlineFileHit::InCache(path)) => tasks@.len() == 1 && (tasks@[0] matches OnlineTask::ApplyWallpaperAfterCopy { from, file_name } && from == path
                        && file_name@ == name),
                    None => tasks@.len() == 1 && notifies(
                        tasks@[0],
                        "download-tasks.cache-file-not-found"@,
                        NotificationType::Error,
                    ),
                }
            },
    {
        let mut tasks: Vec<OnlineTask<T, C>> = Vec::new();
        if index >= self.wallpapers_data.len() {
            return tasks;
        }
        let name = online_file_name(&self.wallpapers_data[index]);
        match hit {
            Some(OnlineFileHit::InData) => tasks.push(OnlineTask::ApplyWallpaper { file_name: name }),
            Some(OnlineFileHit::InCache(path)) => tasks.push(
                OnlineTask::ApplyWallpaperAfterCopy { from: path, file_name: name },
            ),
            None => tasks.push(notify_key("download-tasks.cache-file-not-found", NotificationType::Error)),
        }
        tasks
    }

    /// Sets the result `index` as wallpaper: from the library, from the
    /// cache, or, when neither holds it, once a download completes (which is
    /// queued unless one of the same link is under way).
    pub fn set_online_wallpaper(
        &mut self,
        index: usize,
        hit: Option<OnlineFileHit>,
        downloads: &Vec<DownloadTaskInfo>,
    ) -> (tasks: Vec<OnlineTask<T, C>>)
        ensures
            index >= old(self).wallpapers_data@.len() ==> *final(self) == *old(self) && tasks@.len() == 0,
            index < old(self).wallpapers_data@.len() ==> {
                let w = old(self).wallpapers_data@[index as int];
                let name = wallpaper_file_name(w);
                match hit {
                    Some(OnlineFileHit::InData) => *final(self) == *old(self) && tasks@.len() == 1 && (
                    tasks@[0] matches OnlineTask::ApplyWallpaper { file_name } && file_name@ == name),
                    Some(OnlineFileHit::InCache(path)) => *final(self) == *old(self) && tasks@.len()
                        == 1 && (tasks@[0] matches OnlineTask::ApplyWallpaperAfterCopy { from, file_name }
                        && from == path && file_name@ == name),
                    None => {
                        &&& final(self).pending_set_wallpaper_filename matches Some(f) && f@ == name
                        &&& *final(self) == (OnlineState {
                            pending_set_wallpaper_filename: final(self).pending_set_wallpaper_filename,
                            ..*old(self)
                        })
                        &&& if queued(downloads@, w.path@) {
                            tasks@.len() == 1 && notifies(
                                tasks@[0],
                                "download-tasks.downloading-for-wallpaper"@,
                                NotificationType::Info,
                            )
                        } else {
                            tasks@.len() == 2 && starts_download(tasks@[0], w) && notifies(
                                tasks@[1],
                                "download-tasks.downloading-for-wallpaper"@,
                                NotificationType::Info,
                            )
                        }
                    },
                }
            },
    {
        let mut tasks: Vec<OnlineTask<T, C>> = Vec::new();
        if index >= self.wallpapers_data.len() {
            return tasks;
        }
        let name = online_file_name(&self.wallpapers_data[index]);
        match hit {
            Some(OnlineFileHit::InData) => tasks.push(OnlineTask::ApplyWallpaper { file_name: name }),
            Some(OnlineFileHit::InCache(path)) => tasks.push(
                OnlineTask::ApplyWallpaperAfterCopy { from: path, file_name: name },
            ),
            None => {
                self.pending_set_wallpaper_filename = Some(name);
                let w = &self.wallpapers_data[index];
                if has_active_download_for(downloads, w.path.as_str()) {
                    tasks.push(notify_key("download-tasks.downloading-for-wallpaper", NotificationType::Info));
                } else {
                    tasks.push(
                        OnlineTask::StartDownload {
                            url: w.path.clone(),
                            id: w.id.clone(),
                            file_type: w.file_type.clone(),
                        },
                    );
                    tasks.push(notify_key("download-tasks.downloading-for-wallpaper", NotificationType::Info));
                }
            },
        }
        tasks
    }
}

} // verus!
