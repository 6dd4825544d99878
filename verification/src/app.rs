//! The coordinator: the one owner of the application state. It turns keys
//! and worker messages into the next state and into a command for the
//! caller, who runs the tasks, the player and the terminal.

use crate::render::{
    blit_request, inside_margin, layout_details, opt_render, pane_inner, place_cursor,
    split_screen, BlitRequest, Panes, Rect, ThumbRender,
};
use crate::state::{
    frame_step, initial_state, key_step, message_step, queue_step, render_step, AppState,
    CommandView, Focus, FramePlan, Key, MessageView, ThumbnailFileView,
};
use crate::text::{insert_char, push_decimal, remove_char, trim};
use crate::video::{texts, videos, Video};
use vstd::prelude::*;
use vstd::string::*;

verus! {

/// A thumbnail file in the cache and its pixel size, if that could be read.
#[derive(Clone, Debug)]
pub struct ThumbnailFile {
    pub path: String,
    pub size: Option<(u32, u32)>,
}

impl View for ThumbnailFile {
    type V = ThumbnailFileView;

    open spec fn view(&self) -> ThumbnailFileView {
        ThumbnailFileView { path: self.path@, size: self.size }
    }
}

/// What a worker reports to the coordinator.
#[derive(Debug)]
pub enum AppMsg {
    /// A search task has ended with results or with a failure in words.
    Search(Result<Vec<Video>, String>),
    /// The thumbnail task for result `index` of batch `generation` has
    /// ended with a file or with a failure in words.
    Thumbnail { generation: u64, index: usize, result: Result<ThumbnailFile, String> },
}

impl View for AppMsg {
    type V = MessageView;

    open spec fn view(&self) -> MessageView {
        match *self {
            AppMsg::Search(Ok(list)) => MessageView::Search(Ok(videos(list@))),
            AppMsg::Search(Err(text)) => MessageView::Search(Err(text@)),
            AppMsg::Thumbnail { generation, index, result } => MessageView::Thumbnail {
                generation,
                index: index as nat,
                result: match result {
                    Ok(file) => Ok(file@),
                    Err(text) => Err(text@),
                },
            },
        }
    }
}

/// What the caller has to do after a step.
#[derive(Clone, Debug)]
pub enum Command {
    Nothing,
    /// Leave the loop.
    Quit,
    /// Start a search task for the query.
    Search { query: String },
    /// Launch the player on the address.
    Play { url: String },
    /// Start a thumbnail task for the result `index` of batch `generation`.
    FetchThumbnail { generation: u64, index: usize, url: String },
}

impl View for Command {
    type V = CommandView;

    open spec fn view(&self) -> CommandView {
        match *self {
            Command::Nothing => CommandView::Nothing,
            Command::Quit => CommandView::Quit,
            Command::Search { query } => CommandView::Search { query: query@ },
            Command::Play { url } => CommandView::Play { url: url@ },
            Command::FetchThumbnail { generation, index, url } => CommandView::FetchThumbnail {
                generation,
                index: index as nat,
                url: url@,
            },
        }
    }
}

/// The application state. It is changed only by the steps below, each of
/// which keeps it well-formed.
pub struct App {
    query: String,
    cursor: usize,
    results: Vec<Video>,
    selected: usize,
    status: String,
    searching: bool,
    focus: Focus,
    generation: u64,
    thumb_area: Option<Rect>,
    last_thumb: Option<ThumbRender>,
}

impl View for App {
    type V = AppState;

    closed spec fn view(&self) -> AppState {
        AppState {
            query: self.query@,
            cursor: self.cursor as nat,
            results: videos(self.results@),
            selected: self.selected as nat,
            status: self.status@,
            searching: self.searching,
            focus: self.focus,
            generation: self.generation,
            thumb_area: self.thumb_area,
            last_thumb: opt_render(self.last_thumb),
        }
    }
}

impl App {
    #[verifier::type_invariant]
    spec fn well_formed(self) -> bool {
        self@.wf()
    }

    /// The state at start.
    pub fn new() -> (app: App)
        ensures
            app@ == initial_state(),
    {
        let app = App {
            query: String::new(),
            cursor: 0,
            results: Vec::new(),
            selected: 0,
            status: String::from_str("Type a query and press Enter."),
            searching: false,
            focus: Focus::Search,
            generation: 0,
            thumb_area: None,
            last_thumb: None,
        };
        assert(videos(app.results@) =~= Seq::empty());
        app
    }

    /// Orders the thumbnail of result `index`, unless it is there, on its
    /// way or not to be had. An index outside the list orders nothing.
    pub fn queue_thumbnail(&mut self, index: usize) -> (command: Command)
        ensures
            (final(self)@, command@) == queue_step(old(self)@, index as nat),
            final(self)@.wf(),
    {
        proof {
            use_type_invariant(&*self);
        }
        if index >= self.results.len() {
            return Command::Nothing;
        }
        if self.results[index].thumbnail_path.is_some() || self.results[index].thumbnail_loading {
            return Command::Nothing;
        }
        let url = match &self.results[index].thumbnail_url {
            Some(url) => url.clone(),
            None => {
                return Command::Nothing;
            },
        };
        self.results[index].thumbnail_loading = true;
        assert(videos(self.results@) =~= queue_step(old(self)@, index as nat).0.results);
        Command::FetchThumbnail { generation: self.generation, index, url }
    }

    /// Applies a key press and says what the caller has to do.
    pub fn handle_key(&mut self, key: Key) -> (command: Command)
        ensures
            (final(self)@, command@) == key_step(old(self)@, key),
            final(self)@.wf(),
    {
        proof {
            use_type_invariant(&*self);
        }
        match key {
            Key::Char(c) => {
                if c == 'q' {
                    Command::Quit
                } else {
                    match self.focus {
                        Focus::Search => {
                            let updated = insert_char(self.query.as_str(), self.cursor, c);
                            // Counting the characters shows that the new
                            // cursor position is a number the machine has.
                            let length = updated.as_str().unicode_len();
                            assert(self.cursor < length);
                            self.query = updated;
                            self.cursor = self.cursor + 1;
                            Command::Nothing
                        },
                        Focus::Results => Command::Nothing,
                    }
                }
            },
            Key::Enter => match self.focus {
                Focus::Search => {
                    let query = trim(self.query.as_str());
                    if !query.as_str().is_empty() && !self.searching {
                        let mut status = String::from_str("Searching for '");
                        status.append(query.as_str());
                        status.append("'...");
                        self.searching = true;
                        self.status = status;
                        Command::Search { query }
                    } else {
                        Command::Nothing
                    }
                },
                Focus::Results => {
                    if self.selected < self.results.len() {
                        let mut status = String::from_str("Playing: ");
                        status.append(self.results[self.selected].title.as_str());
                        let url = self.results[self.selected].url.clone();
                        self.status = status;
                        Command::Play { url }
                    } else {
                        Command::Nothing
                    }
                },
            },
            Key::Up => match self.focus {
                Focus::Results => {
                    if self.selected > 0 {
                        self.selected = self.selected - 1;
                        let selected = self.selected;
                        self.queue_thumbnail(selected)
                    } else {
                        self.focus = Focus::Search;
                        Command::Nothing
                    }
                },
                Focus::Search => Command::Nothing,
            },
            Key::Down => match self.focus {
                Focus::Search => {
                    if self.results.len() > 0 {
                        self.focus = Focus::Results;
                        let selected = self.selected;
                        self.queue_thumbnail(selected)
                    } else {
                        Command::Nothing
                    }
                },
                Focus::Results => {
                    if self.selected < self.results.len() - 1 {
                        self.selected = self.selected + 1;
                        let selected = self.selected;
                        self.queue_thumbnail(selected)
                    } else {
                        Command::Nothing
                    }
                },
            },
            Key::Backspace => match self.focus {
                Focus::Search => {
                    if self.cursor > 0 {
                        let updated = remove_char(self.query.as_str(), self.cursor - 1);
                        self.cursor = self.cursor - 1;
                        self.query = updated;
                    }
                    Command::Nothing
                },
                Focus::Results => Command::Nothing,
            },
            Key::Left => match self.focus {
                Focus::Search => {
                    if self.cursor > 0 {
                        self.cursor = self.cursor - 1;
                    }
                    Command::Nothing
                },
                Focus::Results => Command::Nothing,
            },
            Key::Right => match self.focus {
                Focus::Search => {
                    if self.cursor < self.query.as_str().unicode_len() {
                        self.cursor = self.cursor + 1;
                    }
                    Command::Nothing
                },
                Focus::Results => Command::Nothing,
            },
            Key::Other => Command::Nothing,
        }
    }

    /// Applies a worker's message and says what the caller has to do.
    pub fn handle_message(&mut self, message: AppMsg) -> (command: Command)
        ensures
            (final(self)@, command@) == message_step(old(self)@, message@),
            final(self)@.wf(),
    {
        proof {
            use_type_invariant(&*self);
        }
        match message {
            AppMsg::Search(Ok(list)) => {
                let mut status = String::from_str("Found ");
                push_decimal(&mut status, list.len() as u64);
                status.append(" results.");
                let browse = list.len() > 0;
                self.focus = Focus::Search;
                self.selected = 0;
                self.results = list;
                if browse {
                    self.focus = Focus::Results;
                }
                self.searching = false;
                self.generation = if self.generation == u64::MAX {
                    0
                } else {
                    self.generation + 1
                };
                self.status = status;
                self.queue_thumbnail(0)
            },
            AppMsg::Search(Err(text)) => {
                self.searching = false;
                self.status = text;
                Command::Nothing
            },
            AppMsg::Thumbnail { generation, index, result } => {
                if generation == self.generation && index < self.results.len() {
                    match result {
                        Ok(file) => {
                            self.results[index].thumbnail_loading = false;
                            self.results[index].thumbnail_size = file.size;
                            self.results[index].thumbnail_path = Some(file.path);
                            self.status = String::from_str("Thumbnail ready.");
                        },
                        Err(text) => {
                            self.results[index].thumbnail_loading = false;
                            self.status = text;
                        },
                    }
                    assert(videos(self.results@) =~= message_step(
                        old(self)@,
                        message@,
                    ).0.results);
                }
                Command::Nothing
            },
        }
    }

    /// Plans a frame on the given panes and notes where the thumbnail goes.
    pub fn plan_frame_on(&mut self, panes: Panes) -> (plan: FramePlan)
        ensures
            (final(self)@, plan) == frame_step(old(self)@, panes),
            final(self)@.wf(),
    {
        proof {
            use_type_invariant(&*self);
        }
        let search_inner = pane_inner(panes.search);
        let details_inner = pane_inner(panes.details);
        let current: Option<&Video> = if self.selected < self.results.len() {
            Some(&self.results[self.selected])
        } else {
            None
        };
        let (text, thumbnail) = layout_details(details_inner, current);
        let cursor = match self.focus {
            Focus::Search => place_cursor(search_inner, self.cursor),
            Focus::Results => None,
        };
        self.thumb_area = thumbnail;
        FramePlan { panes, text, cursor }
    }

    /// Plans a frame for a terminal of the given size.
    pub fn plan_frame(&mut self, size: Rect) -> (plan: FramePlan)
        ensures
            (final(self)@, plan) == frame_step(old(self)@, plan.panes),
            plan.panes.in_columns(inside_margin(size, 1).x, inside_margin(size, 1).width),
            final(self)@.wf(),
    {
        let panes = split_screen(size);
        self.plan_frame_on(panes)
    }

    /// Decides whether the thumbnail of the planned frame has to be drawn
    /// and, if so, returns the request for it.
    pub fn render_thumbnail(&mut self) -> (request: Option<BlitRequest>)
        ensures
            final(self)@ == render_step(old(self)@).0,
            match request {
                Some(r) => Some(r@),
                None => None,
            } == render_step(old(self)@).1,
            final(self)@.wf(),
    {
        proof {
            use_type_invariant(&*self);
        }
        let area = match self.thumb_area {
            Some(area) => area,
            None => {
                self.last_thumb = None;
                return None;
            },
        };
        if self.selected >= self.results.len() {
            self.last_thumb = None;
            return None;
        }
        let path = match &self.results[self.selected].thumbnail_path {
            Some(path) => path.clone(),
            None => {
                self.last_thumb = None;
                return None;
            },
        };
        let shown = match &self.last_thumb {
            Some(last) => last.path == path && last.area == area,
            None => false,
        };
        if shown {
            return None;
        }
        let request = blit_request(&path, area);
        self.last_thumb = Some(ThumbRender { path, area });
        Some(request)
    }
}

impl App {
    /// The text of the query.
    pub fn query(&self) -> (query: &String)
        ensures
            query@ == self@.query,
    {
        &self.query
    }

    /// The position of the cursor in the query, in characters.
    pub fn cursor(&self) -> (cursor: usize)
        ensures
            cursor == self@.cursor,
            self@.wf(),
    {
        proof {
            use_type_invariant(self);
        }
        self.cursor
    }

    /// The results of the last search that succeeded.
    pub fn results(&self) -> (results: &Vec<Video>)
        ensures
            videos(results@) == self@.results,
    {
        &self.results
    }

    /// The index of the selected result; zero when there is none.
    pub fn selected(&self) -> (selected: usize)
        ensures
            selected == self@.selected,
            self@.wf(),
    {
        proof {
            use_type_invariant(self);
        }
        self.selected
    }

    /// The selected result, if there is one.
    pub fn current(&self) -> (video: Option<&Video>)
        ensures
            match video {
                Some(v) => Some(v@),
                None => None,
            } == self@.current(),
    {
        if self.selected < self.results.len() {
            Some(&self.results[self.selected])
        } else {
            None
        }
    }

    /// The status line.
    pub fn status(&self) -> (status: &String)
        ensures
            status@ == self@.status,
    {
        &self.status
    }

    /// Whether a search is under way.
    pub fn searching(&self) -> (searching: bool)
        ensures
            searching == self@.searching,
    {
        self.searching
    }

    /// The pane that takes the keys.
    pub fn focus(&self) -> (focus: Focus)
        ensures
            focus == self@.focus,
    {
        self.focus
    }

    /// The number of the batch on show.
    pub fn generation(&self) -> (generation: u64)
        ensures
            generation == self@.generation,
    {
        self.generation
    }

    /// Where the last planned frame puts the thumbnail.
    pub fn thumb_area(&self) -> (area: Option<Rect>)
        ensures
            area == self@.thumb_area,
    {
        self.thumb_area
    }

    /// The thumbnail that the terminal shows.
    pub fn last_thumb(&self) -> (last: &Option<ThumbRender>)
        ensures
            opt_render(*last) == self@.last_thumb,
    {
        &self.last_thumb
    }
}

/// The program that plays videos.
pub open spec fn player_program() -> Seq<char> {
    "mpv"@
}

/// The arguments with which the player is launched on `url`: the choice
/// of format, then the address.
pub open spec fn player_arguments(url: Seq<char>) -> Seq<Seq<char>> {
    seq!["--ytdl-format=bestvideo[height<=1080]+bestaudio/best"@, url]
}

/// The command line that plays `url`: the program and its arguments.
pub fn play_video(url: &str) -> (command: (String, Vec<String>))
    ensures
        command.0@ == player_program(),
        texts(command.1@) == player_arguments(url@),
{
    let mut arguments: Vec<String> = Vec::new();
    arguments.push(String::from_str("--ytdl-format=bestvideo[height<=1080]+bestaudio/best"));
    arguments.push(String::from_str(url));
    assert(texts(arguments@) =~= player_arguments(url@));
    (String::from_str("mpv"), arguments)
}

} // verus!
