//! Where things go on the screen: the panes, the thumbnail inside the
//! details pane, the cursor, and the guard that keeps an unchanged
//! thumbnail from being drawn again.

use crate::fit::{fit_cells, fit_dimensions_cells};
use crate::video::{Video, VideoView};
use ratatui::layout::{Constraint, Direction, Layout};
use ratatui::widgets::{Block, Borders};
use vstd::prelude::*;

verus! {

/// A rectangle of terminal cells.
#[derive(Clone, Copy, Debug, PartialEq, Eq, Structural)]
pub struct Rect {
    pub x: u16,
    pub y: u16,
    pub width: u16,
    pub height: u16,
}

/// `value`, or the largest 16-bit number if it is larger.
pub open spec fn saturate(value: int) -> u16 {
    if value > u16::MAX {
        u16::MAX
    } else if value < 0 {
        0
    } else {
        value as u16
    }
}

/// The inside of a pane that has a border of one cell on every side. The
/// origin moves by one cell but never past the far edge, and each side
/// loses two cells but never goes below zero.
pub open spec fn inside_border(area: Rect) -> Rect {
    Rect {
        x: if area.width == 0 {
            area.x
        } else {
            saturate(area.x + 1)
        },
        y: if area.height == 0 {
            area.y
        } else {
            saturate(area.y + 1)
        },
        width: saturate(area.width - 2),
        height: saturate(area.height - 2),
    }
}

/// What is left of `area` inside a margin of `margin` cells on every
/// side; the empty rectangle at the origin if the margins do not fit.
pub open spec fn inside_margin(area: Rect, margin: u16) -> Rect {
    if area.width < saturate(2 * margin) || area.height < saturate(2 * margin) {
        Rect { x: 0, y: 0, width: 0, height: 0 }
    } else {
        Rect {
            x: saturate(area.x + margin),
            y: saturate(area.y + margin),
            width: (area.width - saturate(2 * margin)) as u16,
            height: (area.height - saturate(2 * margin)) as u16,
        }
    }
}

/// `Layout::split` of ratatui for a vertical stack of three panes inside a
/// margin: the first `top` rows tall, the last `bottom` rows tall, the
/// middle one at least `middle` rows. The crate returns one rectangle for
/// each constraint, each as wide as the area inside the margin and in the
/// same columns. Their rows are decided by its constraint solver and are
/// not stated here.
#[verifier::external_body]
fn split_rows(area: Rect, margin: u16, top: u16, middle: u16, bottom: u16) -> (panes: Vec<Rect>)
    ensures
        panes@.len() == 3,
        forall|i: int|
            0 <= i < panes@.len() ==> (#[trigger] panes@[i]).x == inside_margin(area, margin).x
                && panes@[i].width == inside_margin(area, margin).width,
{
    let area = ratatui::layout::Rect { x: area.x, y: area.y, width: area.width, height: area.height };
    let rows = [Constraint::Length(top), Constraint::Min(middle), Constraint::Length(bottom)];
    let layout = Layout::default().direction(Direction::Vertical).margin(margin).constraints(rows);
    let panes = layout.split(area);
    panes.iter().map(|r| Rect { x: r.x, y: r.y, width: r.width, height: r.height }).collect()
}

/// `Block::inner` of ratatui for a block with a title and all four
/// borders: the area that is left inside the border.
#[verifier::external_body]
fn block_inner(title: &str, area: Rect) -> (inner: Rect)
    ensures
        inner == inside_border(area),
{
    let area = ratatui::layout::Rect { x: area.x, y: area.y, width: area.width, height: area.height };
    let inner = Block::default().borders(Borders::ALL).title(title).inner(area);
    Rect { x: inner.x, y: inner.y, width: inner.width, height: inner.height }
}

/// The inside of a pane with a border on every side.
pub fn pane_inner(area: Rect) -> (inner: Rect)
    ensures
        inner == inside_border(area),
{
    block_inner("", area)
}

/// The three panes of the screen, top to bottom.
#[derive(Clone, Copy, Debug)]
pub struct Panes {
    pub search: Rect,
    pub results: Rect,
    pub details: Rect,
}

impl Panes {
    /// The three panes lie in the given columns.
    pub open spec fn in_columns(self, x: u16, width: u16) -> bool {
        &&& self.search.x == x && self.search.width == width
        &&& self.results.x == x && self.results.width == width
        &&& self.details.x == x && self.details.width == width
    }
}

/// Splits the screen into the query pane (three rows), the result list and
/// the details pane (ten rows), inside a margin of one cell. The panes
/// share the columns inside the margin.
pub fn split_screen(size: Rect) -> (panes: Panes)
    ensures
        panes.in_columns(inside_margin(size, 1).x, inside_margin(size, 1).width),
{
    let rows = split_rows(size, 1, 3, 0, 10);
    Panes { search: rows[0], results: rows[1], details: rows[2] }
}

/// The details pane shows a thumbnail only when it is at least this wide.
pub const MIN_DETAILS_WIDTH: u16 = 50;

/// The details pane shows a thumbnail only when it is at least this tall.
pub const MIN_DETAILS_HEIGHT: u16 = 8;

/// Columns of the details pane that are kept for text.
pub const MIN_TEXT_WIDTH: u16 = 20;

/// The pixel size assumed for a thumbnail whose size could not be read.
pub open spec fn default_thumbnail_size() -> (u32, u32) {
    (160, 90)
}

/// The text area and the thumbnail area inside the details pane `inner`
/// when `video` is selected. A thumbnail gets an area only if its file is
/// there and the pane is large enough; it is fitted into what the text
/// leaves free and put into the lower right corner.
pub open spec fn thumbnail_layout(inner: Rect, video: Option<VideoView>) -> (Rect, Option<Rect>) {
    if video is Some && video->0.thumbnail_path is Some && inner.width >= MIN_DETAILS_WIDTH
        && inner.height >= MIN_DETAILS_HEIGHT {
        let size = match video->0.thumbnail_size {
            Some(size) => size,
            None => default_thumbnail_size(),
        };
        let cells = fit_cells(
            size.0 as int,
            size.1 as int,
            inner.width - MIN_TEXT_WIDTH,
            inner.height as int,
        );
        if cells.0 == 0 || cells.1 == 0 {
            (inner, None)
        } else {
            (
                Rect {
                    x: inner.x,
                    y: inner.y,
                    width: (inner.width - cells.0) as u16,
                    height: inner.height,
                },
                Some(
                    Rect {
                        x: saturate(inner.x + inner.width - cells.0),
                        y: saturate(inner.y + inner.height - cells.1),
                        width: cells.0 as u16,
                        height: cells.1 as u16,
                    },
                ),
            )
        }
    } else {
        (inner, None)
    }
}

fn saturating_sum(a: u16, b: u16) -> (sum: u16)
    ensures
        sum == saturate(a + b),
{
    if b > u16::MAX - a {
        u16::MAX
    } else {
        a + b
    }
}

/// Lays out the details pane: the text area and, if a thumbnail is to be
/// shown, its area.
pub fn layout_details(inner: Rect, video: Option<&Video>) -> (areas: (Rect, Option<Rect>))
    ensures
        areas == thumbnail_layout(
            inner,
            match video {
                Some(v) => Some(v@),
                None => None,
            },
        ),
{
    let video = match video {
        Some(v) => v,
        None => {
            return (inner, None);
        },
    };
    if video.thumbnail_path.is_none() || inner.width < MIN_DETAILS_WIDTH || inner.height
        < MIN_DETAILS_HEIGHT {
        return (inner, None);
    }
    let (img_width, img_height): (u32, u32) = match video.thumbnail_size {
        Some(size) => size,
        None => (160, 90),
    };
    let (width, height) = fit_dimensions_cells(
        img_width,
        img_height,
        inner.width - MIN_TEXT_WIDTH,
        inner.height,
    );
    if width == 0 || height == 0 {
        return (inner, None);
    }
    let text = Rect { x: inner.x, y: inner.y, width: inner.width - width, height: inner.height };
    let thumbnail = Rect {
        x: saturating_sum(inner.x, inner.width - width),
        y: saturating_sum(inner.y, inner.height - height),
        width,
        height,
    };
    (text, Some(thumbnail))
}

/// During query entry the cursor sits in the first row of the query pane,
/// `cursor` columns in, but no further than the pane's last column. An
/// empty pane shows no cursor.
pub open spec fn cursor_cell(inner: Rect, cursor: nat) -> Option<(u16, u16)> {
    if inner.width == 0 {
        None
    } else if cursor < inner.width - 1 {
        Some((saturate(inner.x + cursor), inner.y))
    } else {
        Some((saturate(inner.x + inner.width - 1), inner.y))
    }
}

/// Where to put the cursor in the query pane.
pub fn place_cursor(inner: Rect, cursor: usize) -> (cell: Option<(u16, u16)>)
    ensures
        cell == cursor_cell(inner, cursor as nat),
{
    if inner.width == 0 {
        None
    } else if cursor < (inner.width - 1) as usize {
        Some((saturating_sum(inner.x, cursor as u16), inner.y))
    } else {
        Some((saturating_sum(inner.x, inner.width - 1), inner.y))
    }
}

/// What was last drawn as a thumbnail: the file and where it went.
#[derive(Clone, Debug)]
pub struct ThumbRender {
    pub path: String,
    pub area: Rect,
}

pub struct ThumbRenderView {
    pub path: Seq<char>,
    pub area: Rect,
}

impl View for ThumbRender {
    type V = ThumbRenderView;

    open spec fn view(&self) -> ThumbRenderView {
        ThumbRenderView { path: self.path@, area: self.area }
    }
}

/// The view of an optional fingerprint.
pub open spec fn opt_render(last: Option<ThumbRender>) -> Option<ThumbRenderView> {
    match last {
        Some(r) => Some(r@),
        None => None,
    }
}

/// One frame of the guard. `last` is what the terminal shows, `candidate`
/// what this frame would draw, if anything. The result is what the
/// terminal shows afterwards and whether the image has to be drawn: it is
/// drawn when it differs from what is shown, and with no candidate the
/// memory is cleared, so that the next candidate is drawn in any case.
pub open spec fn guard_step(last: Option<ThumbRenderView>, candidate: Option<ThumbRenderView>) -> (
    Option<ThumbRenderView>,
    bool,
) {
    match candidate {
        None => (None, false),
        Some(c) => if last == Some(c) {
            (last, false)
        } else {
            (Some(c), true)
        },
    }
}

/// Drawing the same image into the same rectangle twice in a row draws it
/// once: whatever was shown before, the second frame is skipped.
pub proof fn lemma_same_frame_drawn_once(last: Option<ThumbRenderView>, frame: ThumbRenderView)
    ensures
        !guard_step(guard_step(last, Some(frame)).0, Some(frame)).1,
        guard_step(guard_step(last, Some(frame)).0, Some(frame)).0 == Some(frame),
{
}

/// A frame that differs from the one before it, in the file or in the
/// rectangle, is drawn.
pub proof fn lemma_changed_frame_drawn(
    last: Option<ThumbRenderView>,
    first: ThumbRenderView,
    second: ThumbRenderView,
)
    requires
        first.path != second.path || first.area != second.area,
    ensures
        guard_step(guard_step(last, Some(first)).0, Some(second)).1,
{
}

/// After a frame without a thumbnail the next thumbnail is drawn, even if
/// it is the one that was shown before the gap.
pub proof fn lemma_drawn_after_gap(last: Option<ThumbRenderView>, frame: ThumbRenderView)
    ensures
        guard_step(guard_step(last, None).0, Some(frame)).1,
{
}

/// What the terminal needs to draw an image file: the cell to start at and
/// the size in cells.
#[derive(Clone, Debug)]
pub struct BlitRequest {
    pub path: String,
    pub x: u16,
    pub y: i16,
    pub width: u32,
    pub height: u32,
}

pub struct BlitRequestView {
    pub path: Seq<char>,
    pub x: u16,
    pub y: i16,
    pub width: u32,
    pub height: u32,
}

impl View for BlitRequest {
    type V = BlitRequestView;

    open spec fn view(&self) -> BlitRequestView {
        BlitRequestView {
            path: self.path@,
            x: self.x,
            y: self.y,
            width: self.width,
            height: self.height,
        }
    }
}

/// A row number as the signed 16-bit value of the same bits.
pub open spec fn signed_row(y: u16) -> i16 {
    if y <= i16::MAX {
        y as i16
    } else {
        (y - 0x1_0000) as i16
    }
}

/// The drawing request for a frame.
pub open spec fn blit_of(frame: ThumbRenderView) -> BlitRequestView {
    BlitRequestView {
        path: frame.path,
        x: frame.area.x,
        y: signed_row(frame.area.y),
        width: frame.area.width as u32,
        height: frame.area.height as u32,
    }
}

/// Builds the drawing request for the file at `path` and the area `area`.
pub fn blit_request(path: &String, area: Rect) -> (request: BlitRequest)
    ensures
        request@ == blit_of(ThumbRenderView { path: path@, area }),
{
    let y: i16 = if area.y <= 0x7fff {
        area.y as i16
    } else {
        (area.y as i32 - 0x1_0000) as i16
    };
    BlitRequest {
        path: path.clone(),
        x: area.x,
        y,
        width: area.width as u32,
        height: area.height as u32,
    }
}

} // verus!
