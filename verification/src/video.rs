//! One search result and the texts shown for it.

use crate::count::{format_views, views_text};
use crate::text::{digit, push_two_digits, two_digits};
use vstd::prelude::*;
use vstd::string::*;

verus! {

/// The view of an optional text.
pub open spec fn opt_text(text: Option<String>) -> Option<Seq<char>> {
    match text {
        Some(t) => Some(t@),
        None => None,
    }
}

/// The Gregorian leap-year rule.
pub open spec fn leap_year(year: int) -> bool {
    year % 4 == 0 && (year % 100 != 0 || year % 400 == 0)
}

/// The number of days of `month` (1 to 12) in `year`.
pub open spec fn days_in_month(year: int, month: int) -> int {
    if month == 2 {
        if leap_year(year) {
            29
        } else {
            28
        }
    } else if month == 4 || month == 6 || month == 9 || month == 11 {
        30
    } else {
        31
    }
}

/// A calendar date that exists, within the years -9999 to 9999.
pub open spec fn valid_date(year: int, month: int, day: int) -> bool {
    &&& -9999 <= year <= 9999
    &&& 1 <= month <= 12
    &&& 1 <= day <= days_in_month(year, month)
}

/// `n` in exactly four decimal digits.
pub open spec fn four_digits(n: nat) -> Seq<char>
    recommends
        n <= 9999,
{
    seq![digit(n / 1000), digit(n / 100 % 10), digit(n / 10 % 10), digit(n % 10)]
}

/// A date as `day/month/year`: two digits, two digits, and four digits
/// after a minus sign for a year before zero.
pub open spec fn date_text(year: int, month: int, day: int) -> Seq<char> {
    two_digits(day as nat) + seq!['/'] + two_digits(month as nat) + seq!['/'] + if year < 0 {
        seq!['-'] + four_digits((-year) as nat)
    } else {
        four_digits(year as nat)
    }
}

/// Formats a calendar date with `time::Date::format` and the description
/// `[day]/[month]/[year]`. For a date that exists, in the years -9999 to
/// 9999, the crate writes the day and the month zero-padded to two digits
/// and the year zero-padded to four, with a minus sign before a negative
/// year. Nothing is claimed for any other input.
#[verifier::external_body]
fn format_calendar_date(year: i32, month: u8, day: u8) -> (formatted: Option<String>)
    ensures
        valid_date(year as int, month as int, day as int) ==> opt_text(formatted) == Some(
            date_text(year as int, month as int, day as int),
        ),
{
    let description = time::format_description::parse("[day]/[month]/[year]").ok()?;
    let month = time::Month::try_from(month).ok()?;
    let date = time::Date::from_calendar_date(year, month, day).ok()?;
    date.format(&description).ok()
}

/// The day on which a video was published.
#[derive(Clone, Copy, Debug)]
pub struct PublishDate {
    year: i32,
    month: u8,
    day: u8,
}

/// A date as three numbers.
pub struct DateView {
    pub year: int,
    pub month: int,
    pub day: int,
}

impl View for PublishDate {
    type V = DateView;

    closed spec fn view(&self) -> DateView {
        DateView { year: self.year as int, month: self.month as int, day: self.day as int }
    }
}

impl DateView {
    pub open spec fn valid(self) -> bool {
        valid_date(self.year, self.month, self.day)
    }

    pub open spec fn text(self) -> Seq<char> {
        date_text(self.year, self.month, self.day)
    }
}

fn is_leap_year(year: i32) -> (leap: bool)
    ensures
        leap == leap_year(year as int),
{
    year % 4 == 0 && (year % 100 != 0 || year % 400 == 0)
}

impl PublishDate {
    #[verifier::type_invariant]
    spec fn exists_in_range(self) -> bool {
        self@.valid()
    }

    /// The date, if it exists and its year lies in -9999 to 9999.
    pub fn new(year: i32, month: u8, day: u8) -> (date: Option<PublishDate>)
        ensures
            date is Some <==> valid_date(year as int, month as int, day as int),
            date matches Some(d) ==> d@ == (DateView {
                year: year as int,
                month: month as int,
                day: day as int,
            }),
    {
        if year < -9999 || year > 9999 || month < 1 || month > 12 || day < 1 {
            return None;
        }
        let last: u8 = if month == 2 {
            if is_leap_year(year) {
                29
            } else {
                28
            }
        } else if month == 4 || month == 6 || month == 9 || month == 11 {
            30
        } else {
            31
        };
        if day > last {
            return None;
        }
        Some(PublishDate { year, month, day })
    }

    pub fn year(&self) -> (year: i32)
        ensures
            year == self@.year,
    {
        self.year
    }

    pub fn month(&self) -> (month: u8)
        ensures
            month == self@.month,
    {
        self.month
    }

    pub fn day(&self) -> (day: u8)
        ensures
            day == self@.day,
    {
        self.day
    }

    /// The date as `day/month/year`.
    pub fn format(&self) -> (text: String)
        ensures
            self@.valid(),
            text@ == self@.text(),
    {
        proof {
            use_type_invariant(self);
        }
        match format_calendar_date(self.year, self.month, self.day) {
            Some(text) => text,
            None => String::new(),
        }
    }
}

/// The views of a list of texts.
pub open spec fn texts(list: Seq<String>) -> Seq<Seq<char>> {
    Seq::new(list.len(), |i: int| list[i]@)
}

/// What the catalog reports of one video.
#[derive(Clone, Debug)]
pub struct CatalogEntry {
    pub id: String,
    pub name: String,
    pub duration: Option<u32>,
    /// Thumbnail addresses, in the order the catalog lists them.
    pub thumbnails: Vec<String>,
    /// The channel's name.
    pub channel: Option<String>,
    pub publish_date: Option<PublishDate>,
    pub publish_date_txt: Option<String>,
    pub view_count: Option<u64>,
}

pub struct CatalogEntryView {
    pub id: Seq<char>,
    pub name: Seq<char>,
    pub duration: Option<u32>,
    pub thumbnails: Seq<Seq<char>>,
    pub channel: Option<Seq<char>>,
    pub publish_date: Option<DateView>,
    pub publish_date_txt: Option<Seq<char>>,
    pub view_count: Option<u64>,
}

/// The view of an optional date.
pub open spec fn opt_date(date: Option<PublishDate>) -> Option<DateView> {
    match date {
        Some(d) => Some(d@),
        None => None,
    }
}

impl View for CatalogEntry {
    type V = CatalogEntryView;

    open spec fn view(&self) -> CatalogEntryView {
        CatalogEntryView {
            id: self.id@,
            name: self.name@,
            duration: self.duration,
            thumbnails: texts(self.thumbnails@),
            channel: opt_text(self.channel),
            publish_date: opt_date(self.publish_date),
            publish_date_txt: opt_text(self.publish_date_txt),
            view_count: self.view_count,
        }
    }
}

/// One search result, with what the session has learnt of its thumbnail.
#[derive(Clone, Debug)]
pub struct Video {
    pub title: String,
    /// The address handed to the player.
    pub url: String,
    pub channel: Option<String>,
    /// Length in seconds.
    pub duration: Option<u64>,
    pub view_count: Option<u64>,
    pub publish_date: Option<PublishDate>,
    /// When it was published, in words ("3 days ago").
    pub publish_date_txt: Option<String>,
    pub thumbnail_url: Option<String>,
    /// Where the thumbnail lies in the cache, once it has been fetched.
    pub thumbnail_path: Option<String>,
    /// The thumbnail's size in pixels, if it could be read.
    pub thumbnail_size: Option<(u32, u32)>,
    /// A fetch of the thumbnail is under way.
    pub thumbnail_loading: bool,
}

pub struct VideoView {
    pub title: Seq<char>,
    pub url: Seq<char>,
    pub channel: Option<Seq<char>>,
    pub duration: Option<u64>,
    pub view_count: Option<u64>,
    pub publish_date: Option<DateView>,
    pub publish_date_txt: Option<Seq<char>>,
    pub thumbnail_url: Option<Seq<char>>,
    pub thumbnail_path: Option<Seq<char>>,
    pub thumbnail_size: Option<(u32, u32)>,
    pub thumbnail_loading: bool,
}

impl View for Video {
    type V = VideoView;

    open spec fn view(&self) -> VideoView {
        VideoView {
            title: self.title@,
            url: self.url@,
            channel: opt_text(self.channel),
            duration: self.duration,
            view_count: self.view_count,
            publish_date: opt_date(self.publish_date),
            publish_date_txt: opt_text(self.publish_date_txt),
            thumbnail_url: opt_text(self.thumbnail_url),
            thumbnail_path: opt_text(self.thumbnail_path),
            thumbnail_size: self.thumbnail_size,
            thumbnail_loading: self.thumbnail_loading,
        }
    }
}

/// The views of a list of videos.
pub open spec fn videos(list: Seq<Video>) -> Seq<VideoView> {
    Seq::new(list.len(), |i: int| list[i]@)
}

/// The address under which the player finds the video `id`.
pub open spec fn watch_url(id: Seq<char>) -> Seq<char> {
    "https://www.youtube.com/watch?v="@ + id
}

/// The search result made from a catalog entry: its first thumbnail, no
/// cached file yet and no fetch under way.
pub open spec fn video_of(entry: CatalogEntryView) -> VideoView {
    VideoView {
        title: entry.name,
        url: watch_url(entry.id),
        channel: entry.channel,
        duration: match entry.duration {
            Some(d) => Some(d as u64),
            None => None,
        },
        view_count: entry.view_count,
        publish_date: entry.publish_date,
        publish_date_txt: entry.publish_date_txt,
        thumbnail_url: if entry.thumbnails.len() > 0 {
            Some(entry.thumbnails[0])
        } else {
            None
        },
        thumbnail_path: None,
        thumbnail_size: None,
        thumbnail_loading: false,
    }
}

/// A copy of an optional text.
pub fn clone_text(text: &Option<String>) -> (copy: Option<String>)
    ensures
        opt_text(copy) == opt_text(*text),
{
    match text {
        Some(t) => Some(t.clone()),
        None => None,
    }
}

/// Turns a catalog entry into a search result.
pub fn video_item_to_video(entry: &CatalogEntry) -> (video: Video)
    ensures
        video@ == video_of(entry@),
{
    let mut url = String::from_str("https://www.youtube.com/watch?v=");
    url.append(entry.id.as_str());
    let thumbnail_url = if entry.thumbnails.len() > 0 {
        Some(entry.thumbnails[0].clone())
    } else {
        None
    };
    let duration: Option<u64> = match entry.duration {
        Some(d) => Some(d as u64),
        None => None,
    };
    Video {
        title: entry.name.clone(),
        url,
        channel: clone_text(&entry.channel),
        duration,
        view_count: entry.view_count,
        publish_date: entry.publish_date,
        publish_date_txt: clone_text(&entry.publish_date_txt),
        thumbnail_url,
        thumbnail_path: None,
        thumbnail_size: None,
        thumbnail_loading: false,
    }
}

/// The results of a search: one for each catalog entry, in order.
pub fn videos_from_catalog(entries: &Vec<CatalogEntry>) -> (list: Vec<Video>)
    ensures
        list@.len() == entries@.len(),
        forall|i: int| 0 <= i < entries@.len() ==> (#[trigger] list@[i])@ == video_of(entries@[i]@),
{
    let mut list: Vec<Video> = Vec::new();
    let mut i: usize = 0;
    while i < entries.len()
        invariant
            i <= entries@.len(),
            list@.len() == i,
            forall|k: int| 0 <= k < i ==> (#[trigger] list@[k])@ == video_of(entries@[k]@),
        decreases entries@.len() - i,
    {
        list.push(video_item_to_video(&entries[i]));
        i += 1;
    }
    list
}

/// The message shown when the catalog could not be searched.
pub open spec fn search_failure(detail: Seq<char>) -> Seq<char> {
    "RustyPipe search failed: "@ + detail
}

/// What a finished search reports: the results, or the failure in words.
pub fn search_outcome(answer: Result<Vec<CatalogEntry>, String>) -> (outcome: Result<
    Vec<Video>,
    String,
>)
    ensures
        match answer {
            Ok(entries) => outcome matches Ok(list) && list@.len() == entries@.len() && forall|
                i: int,
            |
                0 <= i < entries@.len() ==> (#[trigger] list@[i])@ == video_of(entries@[i]@),
            Err(detail) => outcome matches Err(message) && message@ == search_failure(detail@),
        },
{
    match answer {
        Ok(entries) => Ok(videos_from_catalog(&entries)),
        Err(detail) => {
            let mut message = String::from_str("RustyPipe search failed: ");
            message.append(detail.as_str());
            Err(message)
        },
    }
}

/// The pixel size of a decoded image, if both sides are positive and fit
/// 32 bits.
pub open spec fn usable_size(width: int, height: int) -> Option<(u32, u32)> {
    if 0 < width <= u32::MAX && 0 < height <= u32::MAX {
        Some((width as u32, height as u32))
    } else {
        None
    }
}

/// The thumbnail size to keep from what decoding the image file gave:
/// `None` when it could not be decoded or a side is zero or too large.
pub fn thumbnail_size_from_dimensions(decoded: Option<(usize, usize)>) -> (size: Option<
    (u32, u32),
>)
    ensures
        size == match decoded {
            Some((width, height)) => usable_size(width as int, height as int),
            None => None,
        },
{
    match decoded {
        Some((width, height)) => {
            if 0 < width && width <= 0xffff_ffff && 0 < height && height <= 0xffff_ffff {
                Some((width as u32, height as u32))
            } else {
                None
            }
        },
        None => None,
    }
}

/// A length of `secs` seconds as minutes and seconds, two digits each
/// (more for a hundred minutes and over).
pub open spec fn duration_text(secs: nat) -> Seq<char> {
    two_digits(secs / 60) + seq![':'] + two_digits(secs % 60)
}

/// Renders a length in seconds as `MM:SS`.
pub fn format_duration(secs: u64) -> (text: String)
    ensures
        text@ == duration_text(secs as nat),
{
    let mut text = String::new();
    push_two_digits(&mut text, secs / 60);
    text.push(':');
    push_two_digits(&mut text, secs % 60);
    assert(text@ =~= duration_text(secs as nat));
    text
}

/// The line that tells when a video was published, from the wording the
/// catalog gave and the formatted date.
pub open spec fn published_text(relative: Option<Seq<char>>, absolute: Option<Seq<char>>) -> Seq<
    char,
> {
    match (relative, absolute) {
        (Some(rel), Some(abs)) => "Published "@ + rel + " ["@ + abs + "]"@,
        (Some(rel), None) => "Published "@ + rel,
        (None, Some(abs)) => "Published ["@ + abs + "]"@,
        (None, None) => "Published -"@,
    }
}

/// The date of an optional publish date, as text.
pub open spec fn opt_date_text(date: Option<DateView>) -> Option<Seq<char>> {
    match date {
        Some(d) => Some(d.text()),
        None => None,
    }
}

/// Renders the publish line of a video.
pub fn format_published(relative: Option<&str>, date: Option<PublishDate>) -> (line: String)
    ensures
        line@ == published_text(
            match relative {
                Some(rel) => Some(rel@),
                None => None,
            },
            opt_date_text(opt_date(date)),
        ),
{
    let absolute: Option<String> = match date {
        Some(d) => Some(d.format()),
        None => None,
    };
    match (relative, absolute) {
        (Some(rel), Some(abs)) => {
            let mut line = String::from_str("Published ");
            line.append(rel);
            line.append(" [");
            line.append(abs.as_str());
            line.append("]");
            line
        },
        (Some(rel), None) => {
            let mut line = String::from_str("Published ");
            line.append(rel);
            line
        },
        (None, Some(abs)) => {
            let mut line = String::from_str("Published [");
            line.append(abs.as_str());
            line.append("]");
            line
        },
        (None, None) => String::from_str("Published -"),
    }
}

/// The lines of the details pane for the selected result: title, views,
/// length, channel and publish date, with a dash for what is not known.
pub open spec fn preview_text(video: Option<VideoView>) -> Seq<Seq<char>> {
    match video {
        Some(v) => seq![
            v.title,
            match v.view_count {
                Some(views) => views_text(views as nat),
                None => "- views"@,
            },
            "Length: "@ + match v.duration {
                Some(secs) => duration_text(secs as nat),
                None => "-"@,
            },
            "Uploaded by "@ + match v.channel {
                Some(name) => name,
                None => "-"@,
            },
            published_text(v.publish_date_txt, opt_date_text(v.publish_date)),
        ],
        None => seq!["No results yet."@],
    }
}

/// Writes the lines of the details pane.
pub fn preview_lines(video: Option<&Video>) -> (lines: Vec<String>)
    ensures
        texts(lines@) == preview_text(
            match video {
                Some(v) => Some(v@),
                None => None,
            },
        ),
{
    let mut lines: Vec<String> = Vec::new();
    match video {
        Some(v) => {
            let views = match v.view_count {
                Some(views) => format_views(views),
                None => String::from_str("- views"),
            };
            let mut length = String::from_str("Length: ");
            match v.duration {
                Some(secs) => length.append(format_duration(secs).as_str()),
                None => length.append("-"),
            }
            let mut channel = String::from_str("Uploaded by ");
            match &v.channel {
                Some(name) => channel.append(name.as_str()),
                None => channel.append("-"),
            }
            let relative: Option<&str> = match &v.publish_date_txt {
                Some(words) => Some(words.as_str()),
                None => None,
            };
            let published = format_published(relative, v.publish_date);
            lines.push(v.title.clone());
            lines.push(views);
            lines.push(length);
            lines.push(channel);
            lines.push(published);
            assert(texts(lines@) =~= preview_text(Some(v@)));
        },
        None => {
            lines.push(String::from_str("No results yet."));
            assert(texts(lines@) =~= preview_text(None));
        },
    }
    lines
}

} // verus!
