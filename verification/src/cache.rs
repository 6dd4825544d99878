//! The thumbnail cache: where a thumbnail is kept on disk, and the steps
//! by which a worker fetches one. The worker does the file and network
//! work; what to do next is decided here.

use crate::text::{
    ascii_alphanumeric, ascii_lowercase, chars_of, is_ascii_alphanumeric, to_ascii_lowercase,
};
use vstd::prelude::*;
use vstd::string::*;

verus! {

/// The character that stands for `c` in a file name: letters and digits in
/// lower case, an underscore for anything else.
pub open spec fn safe_char(c: char) -> char {
    if ascii_alphanumeric(c) {
        ascii_lowercase(c)
    } else {
        '_'
    }
}

/// File names keep this many characters of the address.
pub const MAX_NAME_LEN: usize = 80;

/// The name of the cache file for the address `url`: its first 80
/// characters, each made safe, and the extension `.img`.
pub open spec fn safe_name(url: Seq<char>) -> Seq<char> {
    url.take(
        if url.len() > MAX_NAME_LEN {
            MAX_NAME_LEN as int
        } else {
            url.len() as int
        },
    ).map_values(|c: char| safe_char(c)) + ".img"@
}

/// Derives the name of the cache file from the address of a thumbnail.
pub fn safe_filename(url: &str) -> (name: String)
    ensures
        name@ == safe_name(url@),
{
    let chars = chars_of(url);
    let kept: usize = if chars.len() > MAX_NAME_LEN {
        MAX_NAME_LEN
    } else {
        chars.len()
    };
    let mut name = String::new();
    let mut i: usize = 0;
    while i < kept
        invariant
            i <= kept <= chars@.len(),
            name@ == chars@.take(i as int).map_values(|c: char| safe_char(c)),
        decreases kept - i,
    {
        let c = chars[i];
        if is_ascii_alphanumeric(c) {
            name.push(to_ascii_lowercase(c));
        } else {
            name.push('_');
        }
        assert(name@ =~= chars@.take(i + 1).map_values(|c: char| safe_char(c)));
        i += 1;
    }
    name.append(".img");
    name
}

/// The path of `segment` below the directory `base`, with one `/` between
/// them unless `base` is empty or ends in one.
pub open spec fn joined(base: Seq<char>, segment: Seq<char>) -> Seq<char> {
    if base.len() == 0 || base.last() == '/' {
        base + segment
    } else {
        base + seq!['/'] + segment
    }
}

/// Appends the relative path `segment` to the directory `base`.
pub fn join_path(base: &str, segment: &str) -> (path: String)
    ensures
        path@ == joined(base@, segment@),
{
    let length = base.unicode_len();
    let mut path = String::from_str(base);
    if length > 0 && base.get_char(length - 1) != '/' {
        path.push('/');
    }
    path.append(segment);
    assert(path@ =~= joined(base@, segment@));
    path
}

/// Why a thumbnail could not be fetched, with the message for the status
/// line.
#[derive(Clone, Debug)]
pub enum FetchError {
    /// The cache directory could not be found or made.
    CacheDirectory(String),
    /// The image could not be downloaded.
    Download(String),
    /// The image could not be written to the cache.
    Write(String),
}

pub enum FetchErrorView {
    CacheDirectory(Seq<char>),
    Download(Seq<char>),
    Write(Seq<char>),
}

impl View for FetchError {
    type V = FetchErrorView;

    open spec fn view(&self) -> FetchErrorView {
        match *self {
            FetchError::CacheDirectory(text) => FetchErrorView::CacheDirectory(text@),
            FetchError::Download(text) => FetchErrorView::Download(text@),
            FetchError::Write(text) => FetchErrorView::Write(text@),
        }
    }
}

impl FetchErrorView {
    /// The message of the error.
    pub open spec fn message(self) -> Seq<char> {
        match self {
            FetchErrorView::CacheDirectory(text) => text,
            FetchErrorView::Download(text) => text,
            FetchErrorView::Write(text) => text,
        }
    }
}

impl FetchError {
    /// The message for the status line.
    pub fn message(&self) -> (text: String)
        ensures
            text@ == self@.message(),
    {
        match self {
            FetchError::CacheDirectory(text) => text.clone(),
            FetchError::Download(text) => text.clone(),
            FetchError::Write(text) => text.clone(),
        }
    }
}

/// The view of an optional text.
pub open spec fn opt_str(text: Option<&str>) -> Option<Seq<char>> {
    match text {
        Some(t) => Some(t@),
        None => None,
    }
}

/// The directory of the thumbnail cache: `ytbv/thumbs` below the user's
/// cache directory, which is `cache_home` if that is set and `.cache`
/// below `home` otherwise. With neither there is no cache.
pub open spec fn cache_dir(cache_home: Option<Seq<char>>, home: Option<Seq<char>>) -> Result<
    Seq<char>,
    FetchErrorView,
> {
    match (cache_home, home) {
        (Some(dir), _) => Ok(joined(joined(dir, "ytbv"@), "thumbs"@)),
        (None, Some(dir)) => Ok(joined(joined(joined(dir, ".cache"@), "ytbv"@), "thumbs"@)),
        (None, None) => Err(FetchErrorView::CacheDirectory("HOME not set"@)),
    }
}

/// Finds the directory of the thumbnail cache from the values of the
/// environment variables `XDG_CACHE_HOME` and `HOME`.
pub fn thumbnail_cache_dir(cache_home: Option<&str>, home: Option<&str>) -> (dir: Result<
    String,
    FetchError,
>)
    ensures
        match cache_dir(opt_str(cache_home), opt_str(home)) {
            Ok(path) => dir matches Ok(d) && d@ == path,
            Err(error) => dir matches Err(e) && e@ == error,
        },
{
    match (cache_home, home) {
        (Some(base), _) => {
            let app = join_path(base, "ytbv");
            Ok(join_path(app.as_str(), "thumbs"))
        },
        (None, Some(base)) => {
            let cache = join_path(base, ".cache");
            let app = join_path(cache.as_str(), "ytbv");
            Ok(join_path(app.as_str(), "thumbs"))
        },
        (None, None) => Err(FetchError::CacheDirectory(String::from_str("HOME not set"))),
    }
}

/// The directory in which the catalog client keeps its data: `rustypipe`
/// below `data_home` if that is set, else below `.local/share` in `home`,
/// else the current directory.
pub open spec fn storage_dir(data_home: Option<Seq<char>>, home: Option<Seq<char>>) -> Seq<char> {
    match (data_home, home) {
        (Some(dir), _) => joined(dir, "rustypipe"@),
        (None, Some(dir)) => joined(joined(joined(dir, ".local"@), "share"@), "rustypipe"@),
        (None, None) => "."@,
    }
}

/// Finds the data directory of the catalog client from the values of the
/// environment variables `XDG_DATA_HOME` and `HOME`.
pub fn rustypipe_storage_dir(data_home: Option<&str>, home: Option<&str>) -> (dir: String)
    ensures
        dir@ == storage_dir(opt_str(data_home), opt_str(home)),
{
    match (data_home, home) {
        (Some(base), _) => join_path(base, "rustypipe"),
        (None, Some(base)) => {
            let local = join_path(base, ".local");
            let share = join_path(local.as_str(), "share");
            join_path(share.as_str(), "rustypipe")
        },
        (None, None) => String::from_str("."),
    }
}

/// Where the thumbnail of `url` is kept in the cache directory `dir`.
pub open spec fn cache_path(dir: Seq<char>, url: Seq<char>) -> Seq<char> {
    joined(dir, safe_name(url))
}

/// The path of the cache file for the address `url`.
pub fn resolve(dir: &str, url: &str) -> (path: String)
    ensures
        path@ == cache_path(dir@, url@),
{
    let name = safe_filename(url);
    join_path(dir, name.as_str())
}

/// The file that takes the download until it is complete.
pub open spec fn partial_path(path: Seq<char>) -> Seq<char> {
    path + ".part"@
}

/// What the worker has to do next for a fetch, or how the fetch ended.
#[derive(Debug)]
pub enum FetchStep {
    /// Make the directory and the directories above it, if they are not
    /// there.
    CreateDirectory { dir: String, url: String },
    /// See whether the file exists.
    Probe { path: String, url: String },
    /// Get the image from the network.
    Download { url: String, path: String },
    /// Write the image to `partial`, then rename that file to `path`.
    Store { partial: String, path: String },
    /// The fetch is over: the path of the file, or the failure.
    Done(Result<String, FetchError>),
}

pub enum FetchStepView {
    CreateDirectory { dir: Seq<char>, url: Seq<char> },
    Probe { path: Seq<char>, url: Seq<char> },
    Download { url: Seq<char>, path: Seq<char> },
    Store { partial: Seq<char>, path: Seq<char> },
    Done(Result<Seq<char>, FetchErrorView>),
}

impl View for FetchStep {
    type V = FetchStepView;

    open spec fn view(&self) -> FetchStepView {
        match *self {
            FetchStep::CreateDirectory { dir, url } => FetchStepView::CreateDirectory {
                dir: dir@,
                url: url@,
            },
            FetchStep::Probe { path, url } => FetchStepView::Probe { path: path@, url: url@ },
            FetchStep::Download { url, path } => FetchStepView::Download {
                url: url@,
                path: path@,
            },
            FetchStep::Store { partial, path } => FetchStepView::Store {
                partial: partial@,
                path: path@,
            },
            FetchStep::Done(Ok(path)) => FetchStepView::Done(Ok(path@)),
            FetchStep::Done(Err(error)) => FetchStepView::Done(Err(error@)),
        }
    }
}

/// What the worker reports of the step it has done; failures come with
/// the system's own words.
#[derive(Clone, Debug)]
pub enum FetchEvent {
    DirectoryReady,
    DirectoryFailed(String),
    /// The file exists.
    Present,
    /// The file does not exist.
    Absent,
    /// The image has arrived in full.
    Downloaded,
    /// The request failed.
    DownloadFailed(String),
    /// The answer broke off while it was read.
    ReadFailed(String),
    /// The file is in place under its final name.
    Stored,
    StoreFailed(String),
}

pub enum FetchEventView {
    DirectoryReady,
    DirectoryFailed(Seq<char>),
    Present,
    Absent,
    Downloaded,
    DownloadFailed(Seq<char>),
    ReadFailed(Seq<char>),
    Stored,
    StoreFailed(Seq<char>),
}

impl View for FetchEvent {
    type V = FetchEventView;

    open spec fn view(&self) -> FetchEventView {
        match *self {
            FetchEvent::DirectoryReady => FetchEventView::DirectoryReady,
            FetchEvent::DirectoryFailed(text) => FetchEventView::DirectoryFailed(text@),
            FetchEvent::Present => FetchEventView::Present,
            FetchEvent::Absent => FetchEventView::Absent,
            FetchEvent::Downloaded => FetchEventView::Downloaded,
            FetchEvent::DownloadFailed(text) => FetchEventView::DownloadFailed(text@),
            FetchEvent::ReadFailed(text) => FetchEventView::ReadFailed(text@),
            FetchEvent::Stored => FetchEventView::Stored,
            FetchEvent::StoreFailed(text) => FetchEventView::StoreFailed(text@),
        }
    }
}

/// The first step of a fetch of `url`.
pub open spec fn fetch_first(
    url: Seq<char>,
    cache_home: Option<Seq<char>>,
    home: Option<Seq<char>>,
) -> FetchStepView {
    match cache_dir(cache_home, home) {
        Ok(dir) => FetchStepView::CreateDirectory { dir, url },
        Err(error) => FetchStepView::Done(Err(error)),
    }
}

/// The step that follows `step` once the worker reports `event`. A file
/// that is present ends the fetch at once; only a file that is absent is
/// downloaded. A report that does not answer the step changes nothing.
pub open spec fn fetch_after(step: FetchStepView, event: FetchEventView) -> FetchStepView {
    match (step, event) {
        (
            FetchStepView::CreateDirectory { dir, url },
            FetchEventView::DirectoryReady,
        ) => FetchStepView::Probe { path: cache_path(dir, url), url },
        (
            FetchStepView::CreateDirectory { .. },
            FetchEventView::DirectoryFailed(detail),
        ) => FetchStepView::Done(
            Err(FetchErrorView::CacheDirectory("Cache dir error: "@ + detail)),
        ),
        (FetchStepView::Probe { path, .. }, FetchEventView::Present) => FetchStepView::Done(
            Ok(path),
        ),
        (FetchStepView::Probe { path, url }, FetchEventView::Absent) => FetchStepView::Download {
            url,
            path,
        },
        (FetchStepView::Download { path, .. }, FetchEventView::Downloaded) => FetchStepView::Store {
            partial: partial_path(path),
            path,
        },
        (FetchStepView::Download { .. }, FetchEventView::DownloadFailed(detail)) => {
            FetchStepView::Done(Err(FetchErrorView::Download("Download error: "@ + detail)))
        },
        (FetchStepView::Download { .. }, FetchEventView::ReadFailed(detail)) => {
            FetchStepView::Done(Err(FetchErrorView::Download("Read error: "@ + detail)))
        },
        (FetchStepView::Store { path, .. }, FetchEventView::Stored) => FetchStepView::Done(
            Ok(path),
        ),
        (FetchStepView::Store { .. }, FetchEventView::StoreFailed(detail)) => FetchStepView::Done(
            Err(FetchErrorView::Write("Write error: "@ + detail)),
        ),
        _ => step,
    }
}

fn prefixed(prefix: &str, detail: &str) -> (text: String)
    ensures
        text@ == prefix@ + detail@,
{
    let mut text = String::from_str(prefix);
    text.append(detail);
    text
}

/// Starts a fetch of the thumbnail at `url`, given the values of the
/// environment variables `XDG_CACHE_HOME` and `HOME`.
pub fn fetch_start(url: &str, cache_home: Option<&str>, home: Option<&str>) -> (step: FetchStep)
    ensures
        step@ == fetch_first(url@, opt_str(cache_home), opt_str(home)),
{
    match thumbnail_cache_dir(cache_home, home) {
        Ok(dir) => FetchStep::CreateDirectory { dir, url: String::from_str(url) },
        Err(error) => FetchStep::Done(Err(error)),
    }
}

/// Moves a fetch on by what the worker reports.
pub fn fetch_next(step: FetchStep, event: FetchEvent) -> (next: FetchStep)
    ensures
        next@ == fetch_after(step@, event@),
{
    match (step, event) {
        (FetchStep::CreateDirectory { dir, url }, FetchEvent::DirectoryReady) => {
            let path = resolve(dir.as_str(), url.as_str());
            FetchStep::Probe { path, url }
        },
        (FetchStep::CreateDirectory { .. }, FetchEvent::DirectoryFailed(detail)) => FetchStep::Done(
            Err(FetchError::CacheDirectory(prefixed("Cache dir error: ", detail.as_str()))),
        ),
        (FetchStep::Probe { path, .. }, FetchEvent::Present) => FetchStep::Done(Ok(path)),
        (FetchStep::Probe { path, url }, FetchEvent::Absent) => FetchStep::Download { url, path },
        (FetchStep::Download { path, .. }, FetchEvent::Downloaded) => {
            let partial = prefixed(path.as_str(), ".part");
            FetchStep::Store { partial, path }
        },
        (FetchStep::Download { .. }, FetchEvent::DownloadFailed(detail)) => FetchStep::Done(
            Err(FetchError::Download(prefixed("Download error: ", detail.as_str()))),
        ),
        (FetchStep::Download { .. }, FetchEvent::ReadFailed(detail)) => FetchStep::Done(
            Err(FetchError::Download(prefixed("Read error: ", detail.as_str()))),
        ),
        (FetchStep::Store { path, .. }, FetchEvent::Stored) => FetchStep::Done(Ok(path)),
        (FetchStep::Store { .. }, FetchEvent::StoreFailed(detail)) => FetchStep::Done(
            Err(FetchError::Write(prefixed("Write error: ", detail.as_str()))),
        ),
        (step, _) => step,
    }
}

/// The disk and the network, as far as a fetch touches them.
pub struct World {
    /// The directories that exist.
    pub dirs: Set<Seq<char>>,
    /// The files that exist.
    pub files: Set<Seq<char>>,
    /// How many downloads have been made.
    pub downloads: nat,
}

/// What goes wrong during one fetch, each failure in the system's words:
/// making a directory that is missing, the request, reading the answer,
/// storing the file. `None` means that the step succeeds.
pub struct Fortune {
    pub directory: Option<Seq<char>>,
    pub request: Option<Seq<char>>,
    pub body: Option<Seq<char>>,
    pub store: Option<Seq<char>>,
}

/// A worker carries out `step` in `world`: the world afterwards and what
/// the worker reports. A directory that exists needs no making; every
/// download is counted; a stored file exists from then on, and a store
/// that fails leaves at most the partial file behind.
pub open spec fn carry_out(world: World, step: FetchStepView, fortune: Fortune) -> (
    World,
    FetchEventView,
) {
    match step {
        FetchStepView::CreateDirectory { dir, .. } => if world.dirs.contains(dir) {
            (world, FetchEventView::DirectoryReady)
        } else {
            match fortune.directory {
                None => (
                    World { dirs: world.dirs.insert(dir), ..world },
                    FetchEventView::DirectoryReady,
                ),
                Some(detail) => (world, FetchEventView::DirectoryFailed(detail)),
            }
        },
        FetchStepView::Probe { path, .. } => (
            world,
            if world.files.contains(path) {
                FetchEventView::Present
            } else {
                FetchEventView::Absent
            },
        ),
        FetchStepView::Download { .. } => (
            World { downloads: world.downloads + 1, ..world },
            match (fortune.request, fortune.body) {
                (Some(detail), _) => FetchEventView::DownloadFailed(detail),
                (None, Some(detail)) => FetchEventView::ReadFailed(detail),
                (None, None) => FetchEventView::Downloaded,
            },
        ),
        FetchStepView::Store { partial, path } => match fortune.store {
            None => (World { files: world.files.insert(path), ..world }, FetchEventView::Stored),
            Some(detail) => (
                World { files: world.files.insert(partial), ..world },
                FetchEventView::StoreFailed(detail),
            ),
        },
        FetchStepView::Done(_) => (world, FetchEventView::Present),
    }
}

/// Carries out up to `steps` steps of a fetch that stands at `step`.
pub open spec fn run(world: World, step: FetchStepView, fortune: Fortune, steps: nat) -> (
    World,
    FetchStepView,
)
    decreases steps,
{
    if steps == 0 || step is Done {
        (world, step)
    } else {
        let done = carry_out(world, step, fortune);
        run(done.0, fetch_after(step, done.1), fortune, (steps - 1) as nat)
    }
}

/// A whole fetch of `url` in `world`: the world afterwards and the step
/// at which the fetch stands after the four steps that it can take.
pub open spec fn fetch_in(
    world: World,
    url: Seq<char>,
    cache_home: Option<Seq<char>>,
    home: Option<Seq<char>>,
    fortune: Fortune,
) -> (World, FetchStepView) {
    run(world, fetch_first(url, cache_home, home), fortune, 4)
}

/// Every fetch ends within four steps, with at most one download, and a
/// fetch that finds its file downloads nothing.
pub proof fn lemma_fetch_ends(
    world: World,
    url: Seq<char>,
    cache_home: Option<Seq<char>>,
    home: Option<Seq<char>>,
    fortune: Fortune,
)
    ensures
        fetch_in(world, url, cache_home, home, fortune).1 is Done,
        fetch_in(world, url, cache_home, home, fortune).0.downloads <= world.downloads + 1,
        cache_dir(cache_home, home) matches Ok(dir) && world.files.contains(cache_path(dir, url))
            ==> fetch_in(world, url, cache_home, home, fortune).0.downloads == world.downloads,
{
    reveal_with_fuel(run, 5);
}

/// Fetching the same address again after a fetch that succeeded gives the
/// same path and touches neither the network nor the disk, whatever would
/// go wrong this time.
pub proof fn lemma_second_fetch_hits(
    world: World,
    url: Seq<char>,
    cache_home: Option<Seq<char>>,
    home: Option<Seq<char>>,
    first: Fortune,
    second: Fortune,
)
    requires
        fetch_in(world, url, cache_home, home, first).1 matches FetchStepView::Done(Ok(_)),
    ensures
        fetch_in(fetch_in(world, url, cache_home, home, first).0, url, cache_home, home, second)
            == fetch_in(world, url, cache_home, home, first),
        fetch_in(world, url, cache_home, home, first).0.downloads <= world.downloads + 1,
{
    reveal_with_fuel(run, 5);
}

/// A fetch that fails leaves no file under the final name, unless one was
/// there before.
pub proof fn lemma_failure_leaves_no_file(
    world: World,
    url: Seq<char>,
    cache_home: Option<Seq<char>>,
    home: Option<Seq<char>>,
    fortune: Fortune,
)
    requires
        fetch_in(world, url, cache_home, home, fortune).1 matches FetchStepView::Done(Err(_)),
        cache_dir(cache_home, home) matches Ok(dir) && !world.files.contains(cache_path(dir, url)),
    ensures
        cache_dir(cache_home, home) matches Ok(dir) && !fetch_in(
            world,
            url,
            cache_home,
            home,
            fortune,
        ).0.files.contains(cache_path(dir, url)),
{
    reveal_with_fuel(run, 5);
    reveal_strlit(".part");
    let path = cache_path(cache_dir(cache_home, home)->Ok_0, url);
    assert(partial_path(path).len() == path.len() + 5);
}

} // verus!
