//! Application state, split into one sub-struct per concern.

use vstd::prelude::*;
use crate::backend::{LyricsLine, PlayerState, PlaylistTrack, RepeatMode, SearchResult, Track};
use crate::text::str_eq;
use crate::theme::Theme;

verus! {

#[derive(Debug, Clone, Copy, PartialEq, Eq, Structural)]
pub enum Tab {
    Queue,
    Library,
    Search,
    Lyrics,
}

pub open spec fn tab_label(t: Tab) -> Seq<char> {
    match t {
        Tab::Queue => "Queue"@,
        Tab::Library => "Library"@,
        Tab::Search => "Search"@,
        Tab::Lyrics => "Lyrics"@,
    }
}

pub open spec fn tab_next(t: Tab) -> Tab {
    match t {
        Tab::Queue => Tab::Library,
        Tab::Library => Tab::Search,
        Tab::Search => Tab::Lyrics,
        Tab::Lyrics => Tab::Queue,
    }
}

pub open spec fn tab_prev(t: Tab) -> Tab {
    match t {
        Tab::Queue => Tab::Lyrics,
        Tab::Library => Tab::Queue,
        Tab::Search => Tab::Library,
        Tab::Lyrics => Tab::Search,
    }
}

/// The tab named by a config value.
pub open spec fn tab_from_name(s: Seq<char>) -> Option<Tab> {
    if s == "queue"@ {
        Some(Tab::Queue)
    } else if s == "library"@ {
        Some(Tab::Library)
    } else if s == "search"@ {
        Some(Tab::Search)
    } else if s == "lyrics"@ {
        Some(Tab::Lyrics)
    } else {
        None
    }
}

impl Tab {
    pub fn label(&self) -> (r: &'static str)
        ensures
            r@ == tab_label(*self),
    {
        match self {
            Tab::Queue => "Queue",
            Tab::Library => "Library",
            Tab::Search => "Search",
            Tab::Lyrics => "Lyrics",
        }
    }

    pub fn next(&self) -> (r: Tab)
        ensures
            r == tab_next(*self),
    {
        match self {
            Tab::Queue => Tab::Library,
            Tab::Library => Tab::Search,
            Tab::Search => Tab::Lyrics,
            Tab::Lyrics => Tab::Queue,
        }
    }

    pub fn prev(&self) -> (r: Tab)
        ensures
            r == tab_prev(*self),
    {
        match self {
            Tab::Queue => Tab::Lyrics,
            Tab::Library => Tab::Queue,
            Tab::Search => Tab::Library,
            Tab::Lyrics => Tab::Search,
        }
    }

    pub fn from_name(s: &str) -> (r: Option<Tab>)
        ensures
            r == tab_from_name(s@),
    {
        if str_eq(s, "queue") {
            Some(Tab::Queue)
        } else if str_eq(s, "library") {
            Some(Tab::Library)
        } else if str_eq(s, "search") {
            Some(Tab::Search)
        } else if str_eq(s, "lyrics") {
            Some(Tab::Lyrics)
        } else {
            None
        }
    }
}

/// Going back one tab undoes going forward one, and the other way round;
/// four steps forward visit every tab and return to the start.
pub proof fn lemma_tab_cycle(t: Tab)
    ensures
        tab_prev(tab_next(t)) == t,
        tab_next(tab_prev(t)) == t,
        tab_next(tab_next(tab_next(tab_next(t)))) == t,
        tab_next(t) != t,
{
}

/// Each tab's configuration name selects that tab.
pub proof fn lemma_tab_names(t: Tab)
    ensures
        tab_from_name(match t {
            Tab::Queue => "queue"@,
            Tab::Library => "library"@,
            Tab::Search => "search"@,
            Tab::Lyrics => "lyrics"@,
        }) == Some(t),
{
    broadcast use vstd::string::group_string_axioms;
    reveal_strlit("queue");
    reveal_strlit("library");
    reveal_strlit("search");
    reveal_strlit("lyrics");
    assert("queue"@[0] != "library"@[0]);
    assert("search"@[0] != "library"@[0]);
    assert("search"@[0] != "queue"@[0]);
    assert("lyrics"@[1] != "library"@[1]);
    assert("lyrics"@[0] != "queue"@[0]);
    assert("lyrics"@[0] != "search"@[0]);
}

pub enum LibrarySubView {
    Playlists,
    Tracks(String),
}

impl Clone for LibrarySubView {
    fn clone(&self) -> (r: Self)
        ensures
            r == *self,
    {
        match self {
            LibrarySubView::Playlists => LibrarySubView::Playlists,
            LibrarySubView::Tracks(s) => LibrarySubView::Tracks(s.clone()),
        }
    }
}

pub struct PlayerData {
    pub track: Option<Track>,
    /// Identifies the artwork currently shown ("artist\talbum").
    pub artwork_key: String,
    pub playback: PlayerState,
    pub volume: i32,
    pub shuffle_enabled: bool,
    pub repeat_mode: RepeatMode,
    pub music_running: bool,
    pub current_track_favorited: bool,
}

impl Default for PlayerData {
    fn default() -> (r: Self)
        ensures
            r.track is None,
            r.artwork_key@.len() == 0,
            r.playback == PlayerState::Stopped,
            r.volume == 50,
            !r.shuffle_enabled,
            r.repeat_mode == RepeatMode::Off,
            r.music_running,
            !r.current_track_favorited,
    {
        PlayerData {
            track: None,
            artwork_key: String::new(),
            playback: PlayerState::Stopped,
            volume: 50,
            shuffle_enabled: false,
            repeat_mode: RepeatMode::Off,
            music_running: true,
            current_track_favorited: false,
        }
    }
}

pub struct QueueData {
    pub tracks: Vec<PlaylistTrack>,
    pub selected: usize,
    pub scroll: usize,
    /// Index of the currently playing track (distinct from the cursor).
    pub playing: Option<usize>,
    pub playlist_name: String,
}

impl Default for QueueData {
    fn default() -> (r: Self)
        ensures
            r.tracks@.len() == 0,
            r.selected == 0,
            r.scroll == 0,
            r.playing is None,
            r.playlist_name@.len() == 0,
    {
        QueueData {
            tracks: Vec::new(),
            selected: 0,
            scroll: 0,
            playing: None,
            playlist_name: String::new(),
        }
    }
}

pub struct LibraryData {
    pub playlists: Vec<String>,
    pub sub_view: LibrarySubView,
    pub selected: usize,
    pub scroll: usize,
    pub tracks: Vec<PlaylistTrack>,
    pub tracks_selected: usize,
    pub tracks_scroll: usize,
}

impl Default for LibraryData {
    fn default() -> (r: Self)
        ensures
            r.playlists@.len() == 0,
            r.sub_view is Playlists,
            r.selected == 0,
            r.scroll == 0,
            r.tracks@.len() == 0,
            r.tracks_selected == 0,
            r.tracks_scroll == 0,
    {
        LibraryData {
            playlists: Vec::new(),
            sub_view: LibrarySubView::Playlists,
            selected: 0,
            scroll: 0,
            tracks: Vec::new(),
            tracks_selected: 0,
            tracks_scroll: 0,
        }
    }
}

pub struct SearchData {
    pub query: String,
    pub results: Vec<SearchResult>,
    pub selected: usize,
    pub scroll: usize,
    pub editing: bool,
}

impl Default for SearchData {
    fn default() -> (r: Self)
        ensures
            r.query@.len() == 0,
            r.results@.len() == 0,
            r.selected == 0,
            r.scroll == 0,
            r.editing,
    {
        SearchData { query: String::new(), results: Vec::new(), selected: 0, scroll: 0, editing: true }
    }
}

pub struct LyricsData {
    pub lines: Vec<LyricsLine>,
    pub synced: bool,
    pub scroll: usize,
    pub manual_scroll: bool,
    pub track_key: String,
}

impl Default for LyricsData {
    fn default() -> (r: Self)
        ensures
            r.lines@.len() == 0,
            !r.synced,
            r.scroll == 0,
            !r.manual_scroll,
            r.track_key@.len() == 0,
    {
        LyricsData {
            lines: Vec::new(),
            synced: false,
            scroll: 0,
            manual_scroll: false,
            track_key: String::new(),
        }
    }
}

pub struct ThemeData {
    pub all: Vec<(String, Theme)>,
    pub name: String,
    pub selected: usize,
    pub scroll: usize,
    pub picker_visible: bool,
}

impl Default for ThemeData {
    fn default() -> (r: Self)
        ensures
            r.all@.len() == 0,
            r.name@ == "synthwave"@,
            r.selected == 0,
            r.scroll == 0,
            !r.picker_visible,
    {
        ThemeData {
            all: Vec::new(),
            name: String::from_str("synthwave"),
            selected: 0,
            scroll: 0,
            picker_visible: false,
        }
    }
}

pub struct OverlayData {
    pub show_help: bool,
    pub playlist_picker_visible: bool,
    pub playlist_picker_selected: usize,
    pub playlist_picker_scroll: usize,
    /// Transient error overlay; dismissed by any key.
    pub error_message: Option<String>,
}

impl Default for OverlayData {
    fn default() -> (r: Self)
        ensures
            !r.show_help,
            !r.playlist_picker_visible,
            r.playlist_picker_selected == 0,
            r.playlist_picker_scroll == 0,
            r.error_message is None,
    {
        OverlayData {
            show_help: false,
            playlist_picker_visible: false,
            playlist_picker_selected: 0,
            playlist_picker_scroll: 0,
            error_message: None,
        }
    }
}

pub struct FilterData {
    /// Substring filter shared by the Queue and Library tabs.
    pub query: String,
    /// True while the user is typing into the filter.
    pub active: bool,
}

impl Default for FilterData {
    fn default() -> (r: Self)
        ensures
            r.query@.len() == 0,
            !r.active,
    {
        FilterData { query: String::new(), active: false }
    }
}

pub struct AppState {
    pub ui_width: u16,
    pub show_artwork: bool,
    pub lyrics_enabled: bool,
    pub active_tab: Tab,
    pub player: PlayerData,
    pub queue: QueueData,
    pub library: LibraryData,
    pub search: SearchData,
    pub lyrics: LyricsData,
    pub theme: ThemeData,
    pub overlays: OverlayData,
    pub filter: FilterData,
    pub lastfm_status: String,
}

impl Default for AppState {
    fn default() -> (r: Self)
        ensures
            r.ui_width == 120,
            r.show_artwork,
            r.lyrics_enabled,
            r.active_tab == Tab::Queue,
            r.player.track is None,
            r.player.volume == 50,
            r.player.playback == PlayerState::Stopped,
            r.player.music_running,
            r.queue.tracks@.len() == 0,
            r.queue.playing is None,
            r.queue.selected == 0,
            r.queue.scroll == 0,
            r.library.playlists@.len() == 0,
            r.library.sub_view is Playlists,
            r.search.query@.len() == 0,
            r.search.editing,
            r.lyrics.lines@.len() == 0,
            r.lyrics.scroll == 0,
            r.theme.name@ == "synthwave"@,
            r.theme.all@.len() == 0,
            !r.theme.picker_visible,
            !r.overlays.show_help,
            !r.overlays.playlist_picker_visible,
            r.overlays.error_message is None,
            r.filter.query@.len() == 0,
            !r.filter.active,
            r.lastfm_status@.len() == 0,
    {
        AppState {
            ui_width: 120,
            show_artwork: true,
            lyrics_enabled: true,
            active_tab: Tab::Queue,
            player: PlayerData::default(),
            queue: QueueData::default(),
            library: LibraryData::default(),
            search: SearchData::default(),
            lyrics: LyricsData::default(),
            theme: ThemeData::default(),
            overlays: OverlayData::default(),
            filter: FilterData::default(),
            lastfm_status: String::new(),
        }
    }
}

} // verus!

verus! {

// ---------------------------------------------------------------------------
// Abstract view of the state: texts as character sequences, lists as
// sequences.
// ---------------------------------------------------------------------------

pub struct PlayerView {
    pub track: Option<Track>,
    pub artwork_key: Seq<char>,
    pub playback: PlayerState,
    pub volume: i32,
    pub shuffle_enabled: bool,
    pub repeat_mode: RepeatMode,
    pub music_running: bool,
    pub current_track_favorited: bool,
}

pub struct QueueView {
    pub tracks: Seq<PlaylistTrack>,
    pub selected: usize,
    pub scroll: usize,
    pub playing: Option<usize>,
    pub playlist_name: Seq<char>,
}

pub enum SubViewView {
    Playlists,
    Tracks(Seq<char>),
}

pub struct LibraryView {
    pub playlists: Seq<String>,
    pub sub_view: SubViewView,
    pub selected: usize,
    pub scroll: usize,
    pub tracks: Seq<PlaylistTrack>,
    pub tracks_selected: usize,
    pub tracks_scroll: usize,
}

pub struct SearchView {
    pub query: Seq<char>,
    pub results: Seq<SearchResult>,
    pub selected: usize,
    pub scroll: usize,
    pub editing: bool,
}

pub struct LyricsView {
    pub lines: Seq<LyricsLine>,
    pub synced: bool,
    pub scroll: usize,
    pub manual_scroll: bool,
    pub track_key: Seq<char>,
}

pub struct ThemeView {
    pub all: Seq<(String, Theme)>,
    pub name: Seq<char>,
    pub selected: usize,
    pub scroll: usize,
    pub picker_visible: bool,
}

pub struct OverlayView {
    pub show_help: bool,
    pub playlist_picker_visible: bool,
    pub playlist_picker_selected: usize,
    pub playlist_picker_scroll: usize,
    pub error_message: Option<Seq<char>>,
}

pub struct FilterView {
    pub query: Seq<char>,
    pub active: bool,
}

pub struct AppView {
    pub ui_width: u16,
    pub show_artwork: bool,
    pub lyrics_enabled: bool,
    pub active_tab: Tab,
    pub player: PlayerView,
    pub queue: QueueView,
    pub library: LibraryView,
    pub search: SearchView,
    pub lyrics: LyricsView,
    pub theme: ThemeView,
    pub overlays: OverlayView,
    pub filter: FilterView,
    pub lastfm_status: Seq<char>,
}

impl View for PlayerData {
    type V = PlayerView;

    open spec fn view(&self) -> PlayerView {
        PlayerView {
            track: self.track,
            artwork_key: self.artwork_key@,
            playback: self.playback,
            volume: self.volume,
            shuffle_enabled: self.shuffle_enabled,
            repeat_mode: self.repeat_mode,
            music_running: self.music_running,
            current_track_favorited: self.current_track_favorited,
        }
    }
}

impl View for QueueData {
    type V = QueueView;

    open spec fn view(&self) -> QueueView {
        QueueView {
            tracks: self.tracks@,
            selected: self.selected,
            scroll: self.scroll,
            playing: self.playing,
            playlist_name: self.playlist_name@,
        }
    }
}

impl View for LibrarySubView {
    type V = SubViewView;

    open spec fn view(&self) -> SubViewView {
        match self {
            LibrarySubView::Playlists => SubViewView::Playlists,
            LibrarySubView::Tracks(s) => SubViewView::Tracks(s@),
        }
    }
}

impl View for LibraryData {
    type V = LibraryView;

    open spec fn view(&self) -> LibraryView {
        LibraryView {
            playlists: self.playlists@,
            sub_view: self.sub_view@,
            selected: self.selected,
            scroll: self.scroll,
            tracks: self.tracks@,
            tracks_selected: self.tracks_selected,
            tracks_scroll: self.tracks_scroll,
        }
    }
}

impl View for SearchData {
    type V = SearchView;

    open spec fn view(&self) -> SearchView {
        SearchView {
            query: self.query@,
            results: self.results@,
            selected: self.selected,
            scroll: self.scroll,
            editing: self.editing,
        }
    }
}

impl View for LyricsData {
    type V = LyricsView;

    open spec fn view(&self) -> LyricsView {
        LyricsView {
            lines: self.lines@,
            synced: self.synced,
            scroll: self.scroll,
            manual_scroll: self.manual_scroll,
            track_key: self.track_key@,
        }
    }
}

impl View for ThemeData {
    type V = ThemeView;

    open spec fn view(&self) -> ThemeView {
        ThemeView {
            all: self.all@,
            name: self.name@,
            selected: self.selected,
            scroll: self.scroll,
            picker_visible: self.picker_visible,
        }
    }
}

impl View for OverlayData {
    type V = OverlayView;

    open spec fn view(&self) -> OverlayView {
        OverlayView {
            show_help: self.show_help,
            playlist_picker_visible: self.playlist_picker_visible,
            playlist_picker_selected: self.playlist_picker_selected,
            playlist_picker_scroll: self.playlist_picker_scroll,
            error_message: match self.error_message {
                Some(m) => Some(m@),
                None => None,
            },
        }
    }
}

impl View for FilterData {
    type V = FilterView;

    open spec fn view(&self) -> FilterView {
        FilterView { query: self.query@, active: self.active }
    }
}

impl View for AppState {
    type V = AppView;

    open spec fn view(&self) -> AppView {
        AppView {
            ui_width: self.ui_width,
            show_artwork: self.show_artwork,
            lyrics_enabled: self.lyrics_enabled,
            active_tab: self.active_tab,
            player: self.player@,
            queue: self.queue@,
            library: self.library@,
            search: self.search@,
            lyrics: self.lyrics@,
            theme: self.theme@,
            overlays: self.overlays@,
            filter: self.filter@,
            lastfm_status: self.lastfm_status@,
        }
    }
}

} // verus!
