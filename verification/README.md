# wallwarp_online

The online wallpaper page of the WallWarp desktop wallpaper manager: browsing
Wallhaven search results page by page, filtering them, previewing, saving and
setting them as wallpaper, and marking favorites.

`src/` is a Verus library that holds the page's state and every decision it
makes. Each transition takes the state and the facts it needs (configuration,
network settings, what is on disk) and returns the new state together with the
effects to carry out (`tasks::OnlineTask`): requests, thumbnail and preview
loads, cancellations, notifications, file copies, favorites-store updates.

- `wallhaven`: filter values (categories, purities, sorting, colors,
  resolutions, aspect ratios) and their text forms.
- `mask`, `text`: binary masks and the text helpers the configuration needs.
- `filters`: the persisted `[wallhaven]` configuration section and how filters
  are written to and read from it.
- `state`: the page state, its invariant, and the filter and picker handlers.
- `paging`: search parameters, searching, paging and their outcomes.
- `modal`, `thumbs`, `files`, `favorites`: the preview, thumbnails, library
  files and downloads, favorites.
- `view_model`: what the filter bar, pickers and result list show.
- `settings`: the proxy protocol of the settings page.
- `laws`: properties that span several operations.

`app/` is the iced side: the message type, the dispatcher from messages to the
library's transitions, the execution of cancellations and hand-off of the
other effects to the host application, and floating-point drawing helpers.
