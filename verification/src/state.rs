//! The coordinator as a mathematical state machine: the state, the steps
//! that keys and worker messages cause, and what holds of every run.

use crate::render::{
    blit_of, cursor_cell, guard_step, inside_border, thumbnail_layout, BlitRequestView, Panes, Rect,
    ThumbRenderView,
};
use crate::text::{decimal, trimmed};
use crate::video::VideoView;
use vstd::prelude::*;

verus! {

/// Which pane takes the keys.
#[derive(Clone, Copy, Debug, PartialEq, Eq, Structural)]
pub enum Focus {
    /// The query is being typed.
    Search,
    /// The result list is being browsed.
    Results,
}

/// A key press, as far as the coordinator tells keys apart.
#[derive(Clone, Copy, Debug, PartialEq, Eq, Structural)]
pub enum Key {
    Char(char),
    Enter,
    Up,
    Down,
    Backspace,
    Left,
    Right,
    Other,
}

/// The key that ends the program.
pub open spec fn quit_char() -> char {
    'q'
}

/// What the caller has to do after a step.
pub enum CommandView {
    Nothing,
    /// Leave the loop.
    Quit,
    /// Start a search task for the query.
    Search { query: Seq<char> },
    /// Launch the player on the address.
    Play { url: Seq<char> },
    /// Start a thumbnail task for the result `index` of batch `generation`.
    FetchThumbnail { generation: u64, index: nat, url: Seq<char> },
}

/// A thumbnail file in the cache and its pixel size, if that could be read.
pub struct ThumbnailFileView {
    pub path: Seq<char>,
    pub size: Option<(u32, u32)>,
}

/// What a worker reports.
pub enum MessageView {
    Search(Result<Seq<VideoView>, Seq<char>>),
    Thumbnail { generation: u64, index: nat, result: Result<ThumbnailFileView, Seq<char>> },
}

/// Everything the coordinator keeps between steps.
pub struct AppState {
    pub query: Seq<char>,
    /// Position of the cursor in the query, counted in characters.
    pub cursor: nat,
    pub results: Seq<VideoView>,
    pub selected: nat,
    pub status: Seq<char>,
    /// A search task is under way.
    pub searching: bool,
    pub focus: Focus,
    /// Number of the batch that `results` came from.
    pub generation: u64,
    /// Where the last planned frame puts the thumbnail, if it shows one.
    pub thumb_area: Option<Rect>,
    /// The thumbnail that the terminal shows.
    pub last_thumb: Option<ThumbRenderView>,
}

impl AppState {
    /// The cursor lies within the query, the selection within the list,
    /// and an empty list is never browsed.
    pub open spec fn wf(self) -> bool {
        &&& self.cursor <= self.query.len()
        &&& self.results.len() == 0 ==> self.selected == 0 && self.focus == Focus::Search
        &&& self.results.len() > 0 ==> self.selected < self.results.len()
    }

    /// The selected result, if there is one.
    pub open spec fn current(self) -> Option<VideoView> {
        if self.selected < self.results.len() {
            Some(self.results[self.selected as int])
        } else {
            None
        }
    }
}

/// The state at start: nothing typed, nothing found.
pub open spec fn initial_state() -> AppState {
    AppState {
        query: Seq::empty(),
        cursor: 0,
        results: Seq::empty(),
        selected: 0,
        status: "Type a query and press Enter."@,
        searching: false,
        focus: Focus::Search,
        generation: 0,
        thumb_area: None,
        last_thumb: None,
    }
}

/// A thumbnail is fetched for a result that names one, has none yet and is
/// not waiting for one.
pub open spec fn wants_thumbnail(video: VideoView) -> bool {
    video.thumbnail_url is Some && video.thumbnail_path is None && !video.thumbnail_loading
}

/// Asks for the thumbnail of result `index`: where one is wanted the
/// result is marked as waiting and a task is ordered, else nothing happens.
pub open spec fn queue_step(s: AppState, index: nat) -> (AppState, CommandView) {
    if index < s.results.len() && wants_thumbnail(s.results[index as int]) {
        (
            AppState {
                results: s.results.update(
                    index as int,
                    VideoView { thumbnail_loading: true, ..s.results[index as int] },
                ),
                ..s
            },
            CommandView::FetchThumbnail {
                generation: s.generation,
                index,
                url: s.results[index as int].thumbnail_url->0,
            },
        )
    } else {
        (s, CommandView::Nothing)
    }
}

/// The status line while a search for `query` runs.
pub open spec fn searching_status(query: Seq<char>) -> Seq<char> {
    "Searching for '"@ + query + "'..."@
}

/// The status line after the player was launched.
pub open spec fn playing_status(title: Seq<char>) -> Seq<char> {
    "Playing: "@ + title
}

/// The status line after a search brought `count` results.
pub open spec fn found_status(count: nat) -> Seq<char> {
    "Found "@ + decimal(count) + " results."@
}

/// Enter during query entry: a query that is not blank starts a search,
/// unless one is already under way.
pub open spec fn submit_step(s: AppState) -> (AppState, CommandView) {
    let query = trimmed(s.query);
    if query.len() > 0 && !s.searching {
        (
            AppState { searching: true, status: searching_status(query), ..s },
            CommandView::Search { query },
        )
    } else {
        (s, CommandView::Nothing)
    }
}

/// Enter while browsing: the selected result is played.
pub open spec fn play_step(s: AppState) -> (AppState, CommandView) {
    match s.current() {
        Some(video) => (
            AppState { status: playing_status(video.title), ..s },
            CommandView::Play { url: video.url },
        ),
        None => (s, CommandView::Nothing),
    }
}

/// The step that a key causes.
pub open spec fn key_step(s: AppState, key: Key) -> (AppState, CommandView) {
    match key {
        Key::Char(c) => if c == quit_char() {
            (s, CommandView::Quit)
        } else if s.focus == Focus::Search {
            (
                AppState {
                    query: s.query.insert(s.cursor as int, c),
                    cursor: s.cursor + 1,
                    ..s
                },
                CommandView::Nothing,
            )
        } else {
            (s, CommandView::Nothing)
        },
        Key::Enter => match s.focus {
            Focus::Search => submit_step(s),
            Focus::Results => play_step(s),
        },
        Key::Up => if s.focus == Focus::Results {
            if s.selected > 0 {
                queue_step(
                    AppState { selected: (s.selected - 1) as nat, ..s },
                    (s.selected - 1) as nat,
                )
            } else {
                (AppState { focus: Focus::Search, ..s }, CommandView::Nothing)
            }
        } else {
            (s, CommandView::Nothing)
        },
        Key::Down => match s.focus {
            Focus::Search => if s.results.len() > 0 {
                queue_step(AppState { focus: Focus::Results, ..s }, s.selected)
            } else {
                (s, CommandView::Nothing)
            },
            Focus::Results => if s.selected + 1 < s.results.len() {
                queue_step(AppState { selected: s.selected + 1, ..s }, s.selected + 1)
            } else {
                (s, CommandView::Nothing)
            },
        },
        Key::Backspace => if s.focus == Focus::Search && s.cursor > 0 {
            (
                AppState {
                    query: s.query.remove(s.cursor - 1),
                    cursor: (s.cursor - 1) as nat,
                    ..s
                },
                CommandView::Nothing,
            )
        } else {
            (s, CommandView::Nothing)
        },
        Key::Left => if s.focus == Focus::Search && s.cursor > 0 {
            (AppState { cursor: (s.cursor - 1) as nat, ..s }, CommandView::Nothing)
        } else {
            (s, CommandView::Nothing)
        },
        Key::Right => if s.focus == Focus::Search && s.cursor < s.query.len() {
            (AppState { cursor: s.cursor + 1, ..s }, CommandView::Nothing)
        } else {
            (s, CommandView::Nothing)
        },
        Key::Other => (s, CommandView::Nothing),
    }
}

/// The number of the batch after batch `generation`. It starts again at
/// zero after the largest number.
pub open spec fn next_generation(generation: u64) -> u64 {
    if generation == u64::MAX {
        0
    } else {
        (generation + 1) as u64
    }
}

/// A search has brought `list`: it replaces the results as a new batch,
/// and its first result, if any, is selected, browsed and gets its
/// thumbnail ordered.
pub open spec fn results_step(s: AppState, list: Seq<VideoView>) -> (AppState, CommandView) {
    let replaced = AppState {
        results: list,
        selected: 0,
        searching: false,
        generation: next_generation(s.generation),
        status: found_status(list.len()),
        focus: if list.len() > 0 {
            Focus::Results
        } else {
            Focus::Search
        },
        ..s
    };
    queue_step(replaced, 0)
}

/// The result that a thumbnail report is about, if the report belongs to
/// the batch on show and its index lies within it.
pub open spec fn report_applies(s: AppState, generation: u64, index: nat) -> bool {
    generation == s.generation && index < s.results.len()
}

/// A thumbnail task has ended. A report that no longer applies is dropped.
/// Else the result stops waiting; a file is recorded with its size, a
/// failure goes to the status line.
pub open spec fn thumbnail_step(
    s: AppState,
    generation: u64,
    index: nat,
    result: Result<ThumbnailFileView, Seq<char>>,
) -> AppState {
    if report_applies(s, generation, index) {
        let video = s.results[index as int];
        match result {
            Ok(file) => AppState {
                results: s.results.update(
                    index as int,
                    VideoView {
                        thumbnail_loading: false,
                        thumbnail_size: file.size,
                        thumbnail_path: Some(file.path),
                        ..video
                    },
                ),
                status: "Thumbnail ready."@,
                ..s
            },
            Err(message) => AppState {
                results: s.results.update(
                    index as int,
                    VideoView { thumbnail_loading: false, ..video },
                ),
                status: message,
                ..s
            },
        }
    } else {
        s
    }
}

/// The step that a worker's message causes.
pub open spec fn message_step(s: AppState, message: MessageView) -> (AppState, CommandView) {
    match message {
        MessageView::Search(Ok(list)) => results_step(s, list),
        MessageView::Search(Err(text)) => (
            AppState { searching: false, status: text, ..s },
            CommandView::Nothing,
        ),
        MessageView::Thumbnail { generation, index, result } => (
            thumbnail_step(s, generation, index, result),
            CommandView::Nothing,
        ),
    }
}

/// What one frame shows where.
#[derive(Clone, Copy, Debug)]
pub struct FramePlan {
    pub panes: Panes,
    /// The part of the details pane that holds text.
    pub text: Rect,
    /// The cell of the cursor, during query entry.
    pub cursor: Option<(u16, u16)>,
}

/// Plans a frame on the given panes and notes where the thumbnail goes.
pub open spec fn frame_step(s: AppState, panes: Panes) -> (AppState, FramePlan) {
    let areas = thumbnail_layout(inside_border(panes.details), s.current());
    (
        AppState { thumb_area: areas.1, ..s },
        FramePlan {
            panes,
            text: areas.0,
            cursor: if s.focus == Focus::Search {
                cursor_cell(inside_border(panes.search), s.cursor)
            } else {
                None
            },
        },
    )
}

/// The thumbnail that the planned frame shows: the selected result's file
/// in the planned area, if there are both.
pub open spec fn candidate(s: AppState) -> Option<ThumbRenderView> {
    match (s.thumb_area, s.current()) {
        (Some(area), Some(video)) => match video.thumbnail_path {
            Some(path) => Some(ThumbRenderView { path, area }),
            None => None,
        },
        _ => None,
    }
}

/// Draws the thumbnail of the planned frame, unless the terminal shows it
/// already.
pub open spec fn render_step(s: AppState) -> (AppState, Option<BlitRequestView>) {
    let next = guard_step(s.last_thumb, candidate(s));
    (
        AppState { last_thumb: next.0, ..s },
        if next.1 {
            Some(blit_of(candidate(s)->0))
        } else {
            None
        },
    )
}

} // verus!
