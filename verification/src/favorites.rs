//! Marking online wallpapers as favorites and taking the mark away.

use vstd::prelude::*;
use crate::files::{online_file_name, wallpaper_file_name};
use crate::state::OnlineState;
use crate::tasks::{FavoriteRecord, Notification, NotificationText, NotificationType, OnlineTask};
use crate::text::str_eq;

verus! {

/// The favorite ids as texts.
pub open spec fn id_texts(ids: Seq<String>) -> Seq<Seq<char>> {
    ids.map_values(|s: String| s@)
}

/// Whether `id` is among the favorite ids.
pub open spec fn is_favorite_id(ids: Seq<String>, id: Seq<char>) -> bool {
    id_texts(ids).contains(id)
}

proof fn lemma_contains_push(s: Seq<Seq<char>>, y: Seq<char>)
    ensures
        forall|x: Seq<char>| #[trigger] s.push(y).contains(x) <==> (s.contains(x) || x == y),
{
    assert forall|x: Seq<char>| #[trigger] s.push(y).contains(x) <==> (s.contains(x) || x == y) by {
        if s.contains(x) {
            let k = choose|k: int| 0 <= k < s.len() && s[k] == x;
            assert(s.push(y)[k] == x);
        }
        if x == y {
            assert(s.push(y)[s.len() as int] == y);
        }
        if s.push(y).contains(x) {
            let k = choose|k: int| 0 <= k < s.push(y).len() && s.push(y)[k] == x;
            if k < s.len() {
                assert(s[k] == x);
            }
        }
    }
}

fn contains_id(ids: &Vec<String>, id: &str) -> (r: bool)
    ensures
        r == is_favorite_id(ids@, id@),
{
    let mut i: usize = 0;
    while i < ids.len()
        invariant
            i <= ids@.len(),
            forall|j: int| 0 <= j < i ==> (#[trigger] ids@[j])@ != id@,
        decreases ids@.len() - i,
    {
        if str_eq(ids[i].as_str(), id) {
            assert(id_texts(ids@)[i as int] == id@);
            return true;
        }
        i = i + 1;
    }
    assert(!id_texts(ids@).contains(id@)) by {
        if id_texts(ids@).contains(id@) {
            let k = choose|k: int| 0 <= k < id_texts(ids@).len() && id_texts(ids@)[k] == id@;
            assert(ids@[k]@ == id@);
        }
    }
    false
}

/// `ids` without the entries equal to `id`.
fn without_id(ids: &Vec<String>, id: &str) -> (r: Vec<String>)
    ensures
        forall|x: Seq<char>| is_favorite_id(r@, x) <==> (is_favorite_id(ids@, x) && x != id@),
{
    let mut out: Vec<String> = Vec::new();
    let mut i: usize = 0;
    while i < ids.len()
        invariant
            i <= ids@.len(),
            forall|x: Seq<char>|
                is_favorite_id(out@, x) <==> (is_favorite_id(ids@.take(i as int), x) && x != id@),
        decreases ids@.len() - i,
    {
        let ghost before = out@;
        let keep = !str_eq(ids[i].as_str(), id);
        if keep {
            out.push(ids[i].clone());
        }
        proof {
            let t = ids@.take(i + 1);
            assert(t =~= ids@.take(i as int).push(ids@[i as int]));
            assert forall|x: Seq<char>| is_favorite_id(out@, x) <==> (is_favorite_id(t, x) && x != id@) by {
                assert(is_favorite_id(before, x) <==> (is_favorite_id(ids@.take(i as int), x) && x != id@));
                assert(keep == (ids@[i as int]@ != id@));
                assert(id_texts(t) =~= id_texts(ids@.take(i as int)).push(ids@[i as int]@));
                lemma_contains_push(id_texts(ids@.take(i as int)), ids@[i as int]@);
                if keep {
                    assert(id_texts(out@) =~= id_texts(before).push(ids@[i as int]@));
                    lemma_contains_push(id_texts(before), ids@[i as int]@);
                } else {
                    assert(out@ == before);
                }
            }
        }
        i = i + 1;
    }
    assert(ids@.take(ids@.len() as int) =~= ids@);
    out
}

/// Adds `id` to the favorite ids unless it is there.
fn add_id(ids: &mut Vec<String>, id: String)
    ensures
        forall|x: Seq<char>|
            is_favorite_id(final(ids)@, x) <==> (is_favorite_id(old(ids)@, x) || x == id@),
{
    if !contains_id(ids, id.as_str()) {
        let ghost before = ids@;
        let ghost idv = id@;
        ids.push(id);
        assert(id_texts(ids@) =~= id_texts(before).push(idv));
        proof {
            lemma_contains_push(id_texts(before), idv);
        }
    }
}

impl<H, T, C> OnlineState<H, T, C> {
    /// Toggles the favorite mark of the result `index`: removes it when the
    /// result is a favorite, otherwise stores the result with its details and
    /// the time `created_at`. The outcome comes back to `online_favorite_toggled`.
    pub fn toggle_online_favorite(&self, index: usize, created_at: i64) -> (tasks: Vec<OnlineTask<T, C>>)
        ensures
            index >= self.wallpapers_data@.len() ==> tasks@.len() == 0,
            index < self.wallpapers_data@.len() ==> {
                let w = self.wallpapers_data@[index as int];
                tasks@.len() == 1 && if is_favorite_id(self.favorite_ids@, w.id@) {
                    tasks@[0] == OnlineTask::<T, C>::RemoveFavorite { id: w.id }
                } else {
                    tasks@[0] matches OnlineTask::UpsertFavorite(f) && f.wallhaven_id == w.id
                        && f.kind@ == "online"@ && f.title@ == wallpaper_file_name(w) && f.url == w.path
                        && f.path == w.url && f.thumb_url == w.thumb_large && f.file_type == w.file_type
                        && f.file_size == w.file_size as i64 && f.width == w.width as i64 && f.height
                        == w.height as i64 && f.purity == w.purity && f.resolution == w.resolution
                        && f.ratio == w.ratio && f.category == w.category && f.group_id is None
                        && f.created_at == created_at
                }
            },
    {
        let mut tasks: Vec<OnlineTask<T, C>> = Vec::new();
        if index >= self.wallpapers_data.len() {
            return tasks;
        }
        let w = &self.wallpapers_data[index];
        if contains_id(&self.favorite_ids, w.id.as_str()) {
            tasks.push(OnlineTask::RemoveFavorite { id: w.id.clone() });
            return tasks;
        }
        let record = FavoriteRecord {
            wallhaven_id: w.id.clone(),
            kind: "online",
            title: online_file_name(w),
            url: w.path.clone(),
            path: w.url.clone(),
            thumb_url: w.thumb_large.clone(),
            file_type: w.file_type.clone(),
            file_size: w.file_size as i64,
            width: w.width as i64,
            height: w.height as i64,
            purity: w.purity.clone(),
            resolution: w.resolution.clone(),
            ratio: w.ratio.clone(),
            category: w.category.clone(),
            group_id: None,
            created_at,
        };
        tasks.push(OnlineTask::UpsertFavorite(record));
        tasks
    }

    /// Sets the favorite mark of `id` as the store now has it.
    fn mark_favorite(&mut self, id: String, now_favorite: bool)
        ensures
            *final(self) == (OnlineState { favorite_ids: final(self).favorite_ids, ..*old(self) }),
            now_favorite ==> forall|x: Seq<char>|
                is_favorite_id(final(self).favorite_ids@, x) <==> (is_favorite_id(
                    old(self).favorite_ids@,
                    x,
                ) || x == id@),
            !now_favorite ==> forall|x: Seq<char>|
                is_favorite_id(final(self).favorite_ids@, x) <==> (is_favorite_id(
                    old(self).favorite_ids@,
                    x,
                ) && x != id@),
    {
        if now_favorite {
            add_id(&mut self.favorite_ids, id);
        } else {
            self.favorite_ids = without_id(&self.favorite_ids, id.as_str());
        }
    }

    /// The favorites store answered. On success the mark follows what the
    /// store now holds (`now_favorite`), the favorites page is to reload and
    /// a notification tells which way it went; a failure is reported with
    /// its error.
    pub fn online_favorite_toggled(
        &mut self,
        id: String,
        result: Result<(), String>,
        now_favorite: bool,
    ) -> (tasks: Vec<OnlineTask<T, C>>)
        ensures
            result is Ok ==> {
                &&& *final(self) == (OnlineState {
                    favorite_ids: final(self).favorite_ids,
                    ..*old(self)
                })
                &&& now_favorite ==> forall|x: Seq<char>|
                    is_favorite_id(final(self).favorite_ids@, x) <==> (is_favorite_id(
                        old(self).favorite_ids@,
                        x,
                    ) || x == id@)
                &&& !now_favorite ==> forall|x: Seq<char>|
                    is_favorite_id(final(self).favorite_ids@, x) <==> (is_favorite_id(
                        old(self).favorite_ids@,
                        x,
                    ) && x != id@)
                &&& tasks@.len() == 2
                &&& tasks@[0] is InvalidateFavorites
                &&& now_favorite ==> (tasks@[1] matches OnlineTask::Notify(n) && n.kind
                    == NotificationType::Success && (n.text matches NotificationText::Key(k) && k@
                    == "favorites.added"@))
                &&& !now_favorite ==> (tasks@[1] matches OnlineTask::Notify(n) && n.kind
                    == NotificationType::Info && (n.text matches NotificationText::Key(k) && k@
                    == "favorites.removed-toast"@))
            },
            result matches Err(e) ==> {
                &&& *final(self) == *old(self)
                &&& tasks@.len() == 1
                &&& tasks@[0] matches OnlineTask::Notify(n) && n.kind == NotificationType::Error
                    && (n.text matches NotificationText::KeyWithDetail(k, d) && k@
                    == "favorites.favorite-failed"@ && d == e)
            },
    {
        let mut tasks: Vec<OnlineTask<T, C>> = Vec::new();
        match result {
            Ok(()) => {
                self.mark_favorite(id, now_favorite);
                tasks.push(OnlineTask::InvalidateFavorites);
                let (key, kind) = if now_favorite {
                    ("favorites.added", NotificationType::Success)
                } else {
                    ("favorites.removed-toast", NotificationType::Info)
                };
                tasks.push(OnlineTask::Notify(Notification { text: NotificationText::Key(key), kind }));
            },
            Err(e) => {
                tasks.push(
                    OnlineTask::Notify(
                        Notification {
                            text: NotificationText::KeyWithDetail("favorites.favorite-failed", e),
                            kind: NotificationType::Error,
                        },
                    ),
                );
            },
        }
        tasks
    }
}

} // verus!
