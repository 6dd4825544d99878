use ytbv::app::{App, AppMsg, ThumbnailFile};
use ytbv::render::{
    blit_request, layout_details, pane_inner, place_cursor, split_screen, Panes, Rect,
};
use ytbv::state::Key;
use ytbv::video::Video;

fn rect(x: u16, y: u16, width: u16, height: u16) -> Rect {
    Rect { x, y, width, height }
}

fn shown(path: Option<&str>, size: Option<(u32, u32)>) -> Video {
    Video {
        title: "t".to_string(),
        url: "u".to_string(),
        channel: None,
        duration: None,
        view_count: None,
        publish_date: None,
        publish_date_txt: None,
        thumbnail_url: Some("https://img/t.jpg".to_string()),
        thumbnail_path: path.map(|p| p.to_string()),
        thumbnail_size: size,
        thumbnail_loading: false,
    }
}

fn with_thumbnails() -> App {
    let mut app = App::new();
    app.handle_message(AppMsg::Search(Ok(vec![shown(None, None), shown(None, None)])));
    for (index, path) in ["/c/a.img", "/c/b.img"].iter().enumerate() {
        app.handle_message(AppMsg::Thumbnail {
            generation: 1,
            index,
            result: Ok(ThumbnailFile { path: path.to_string(), size: Some((320, 180)) }),
        });
    }
    app
}

fn panes(details: Rect) -> Panes {
    Panes { search: rect(1, 1, 78, 3), results: rect(1, 4, 78, 9), details }
}

#[test]
fn screen_is_split_into_three_panes() {
    let panes = split_screen(rect(0, 0, 80, 24));
    assert_eq!(panes.search, rect(1, 1, 78, 3));
    assert_eq!(panes.results, rect(1, 4, 78, 9));
    assert_eq!(panes.details, rect(1, 13, 78, 10));
}

#[test]
fn border_takes_one_cell_on_every_side() {
    assert_eq!(pane_inner(rect(1, 13, 78, 10)), rect(2, 14, 76, 8));
    assert_eq!(pane_inner(rect(5, 6, 2, 2)), rect(6, 7, 0, 0));
    assert_eq!(pane_inner(rect(5, 6, 1, 1)), rect(6, 7, 0, 0));
    assert_eq!(pane_inner(rect(5, 6, 0, 0)), rect(5, 6, 0, 0));
    assert_eq!(pane_inner(rect(5, 6, 0, 3)), rect(5, 7, 0, 1));
    assert_eq!(pane_inner(rect(u16::MAX, u16::MAX, 4, 4)), rect(u16::MAX, u16::MAX, 2, 2));
}

#[test]
fn thumbnail_goes_to_the_lower_right_corner() {
    let video = shown(Some("/c/a.img"), Some((320, 180)));
    let inner = rect(2, 14, 76, 8);
    let (text, thumbnail) = layout_details(inner, Some(&video));
    assert_eq!(thumbnail, Some(rect(50, 14, 28, 8)));
    assert_eq!(text, rect(2, 14, 48, 8));
}

#[test]
fn unknown_size_falls_back_to_sixteen_by_nine() {
    let unknown = shown(Some("/c/a.img"), None);
    let known = shown(Some("/c/a.img"), Some((160, 90)));
    let inner = rect(0, 0, 100, 20);
    assert_eq!(layout_details(inner, Some(&unknown)), layout_details(inner, Some(&known)));
    assert_eq!(layout_details(inner, Some(&unknown)).1, Some(rect(29, 0, 71, 20)));
}

#[test]
fn small_image_is_shown_at_its_own_size() {
    let video = shown(Some("/c/a.img"), Some((10, 10)));
    let (text, thumbnail) = layout_details(rect(2, 14, 76, 8), Some(&video));
    assert_eq!(thumbnail, Some(rect(68, 17, 10, 5)));
    assert_eq!(text, rect(2, 14, 66, 8));
}

#[test]
fn no_thumbnail_without_file_or_room() {
    let inner = rect(2, 14, 76, 8);
    let waiting = shown(None, None);
    assert_eq!(layout_details(inner, Some(&waiting)), (inner, None));
    assert_eq!(layout_details(inner, None), (inner, None));
    let video = shown(Some("/c/a.img"), Some((320, 180)));
    let narrow = rect(2, 14, 49, 8);
    assert_eq!(layout_details(narrow, Some(&video)), (narrow, None));
    let low = rect(2, 14, 76, 7);
    assert_eq!(layout_details(low, Some(&video)), (low, None));
    let flat = shown(Some("/c/a.img"), Some((0, 180)));
    assert_eq!(layout_details(inner, Some(&flat)), (inner, None));
    let smallest = rect(0, 0, 50, 8);
    assert!(layout_details(smallest, Some(&video)).1.is_some());
}

#[test]
fn corner_saturates_at_the_edge_of_the_grid() {
    let video = shown(Some("/c/a.img"), Some((10, 10)));
    let (_, thumbnail) = layout_details(rect(u16::MAX, u16::MAX, 60, 10), Some(&video));
    assert_eq!(thumbnail, Some(rect(u16::MAX, u16::MAX, 10, 5)));
}

#[test]
fn cursor_stays_inside_the_query_pane() {
    let inner = rect(2, 2, 10, 1);
    assert_eq!(place_cursor(inner, 0), Some((2, 2)));
    assert_eq!(place_cursor(inner, 4), Some((6, 2)));
    assert_eq!(place_cursor(inner, 9), Some((11, 2)));
    assert_eq!(place_cursor(inner, 10), Some((11, 2)));
    assert_eq!(place_cursor(inner, usize::MAX), Some((11, 2)));
    assert_eq!(place_cursor(rect(2, 2, 0, 1), 3), None);
    assert_eq!(place_cursor(rect(u16::MAX - 1, 0, 10, 1), 5), Some((u16::MAX, 0)));
}

#[test]
fn blit_request_carries_the_area() {
    let request = blit_request(&"/c/a.img".to_string(), rect(50, 14, 28, 8));
    assert_eq!(request.path, "/c/a.img");
    assert_eq!((request.x, request.y, request.width, request.height), (50, 14, 28, 8));
    let far = blit_request(&"p".to_string(), rect(0, 40000, 1, 1));
    assert_eq!(far.y, 40000u16 as i16);
    let edge = blit_request(&"p".to_string(), rect(0, 32767, 1, 1));
    assert_eq!(edge.y, i16::MAX);
    let next = blit_request(&"p".to_string(), rect(0, 32768, 1, 1));
    assert_eq!(next.y, i16::MIN);
}

#[test]
fn same_frame_is_drawn_once_and_again_after_a_resize() {
    let mut app = with_thumbnails();
    let plan = app.plan_frame_on(panes(rect(1, 13, 78, 10)));
    assert_eq!(plan.text, rect(2, 14, 48, 8));
    assert_eq!(plan.cursor, None);
    assert_eq!(app.thumb_area(), Some(rect(50, 14, 28, 8)));
    let first = app.render_thumbnail().expect("the first frame is drawn");
    assert_eq!(first.path, "/c/a.img");
    assert_eq!((first.x, first.y, first.width, first.height), (50, 14, 28, 8));

    app.plan_frame_on(panes(rect(1, 13, 78, 10)));
    assert!(app.render_thumbnail().is_none());
    assert!(app.render_thumbnail().is_none());

    app.plan_frame_on(panes(rect(1, 15, 90, 10)));
    let resized = app.render_thumbnail().expect("a new rectangle is drawn");
    assert_eq!((resized.x, resized.y), (62, 16));
    assert!(app.render_thumbnail().is_none());
    assert_eq!(app.last_thumb().as_ref().map(|t| t.path.as_str()), Some("/c/a.img"));
}

#[test]
fn other_selection_is_drawn() {
    let mut app = with_thumbnails();
    app.plan_frame_on(panes(rect(1, 13, 78, 10)));
    assert!(app.render_thumbnail().is_some());
    app.handle_key(Key::Down);
    app.plan_frame_on(panes(rect(1, 13, 78, 10)));
    let second = app.render_thumbnail().expect("another file is drawn");
    assert_eq!(second.path, "/c/b.img");
}

#[test]
fn frame_without_thumbnail_clears_the_memory() {
    let mut app = with_thumbnails();
    app.plan_frame_on(panes(rect(1, 13, 78, 10)));
    assert!(app.render_thumbnail().is_some());
    app.plan_frame_on(panes(rect(1, 13, 40, 10)));
    assert_eq!(app.thumb_area(), None);
    assert!(app.render_thumbnail().is_none());
    assert!(app.last_thumb().is_none());
    app.plan_frame_on(panes(rect(1, 13, 78, 10)));
    assert!(app.render_thumbnail().is_some());
}

#[test]
fn nothing_is_drawn_before_a_thumbnail_arrives() {
    let mut app = App::new();
    app.plan_frame(rect(0, 0, 80, 24));
    assert!(app.render_thumbnail().is_none());
    app.handle_message(AppMsg::Search(Ok(vec![shown(None, None)])));
    app.plan_frame(rect(0, 0, 80, 24));
    assert!(app.render_thumbnail().is_none());
    app.handle_message(AppMsg::Thumbnail {
        generation: 1,
        index: 0,
        result: Ok(ThumbnailFile { path: "/c/a.img".to_string(), size: None }),
    });
    let plan = app.plan_frame(rect(0, 0, 80, 24));
    assert_eq!(plan.panes.details, rect(1, 13, 78, 10));
    let request = app.render_thumbnail().expect("the thumbnail is drawn");
    assert_eq!((request.x, request.y, request.width, request.height), (50, 14, 28, 8));
}

#[test]
fn cursor_is_planned_during_query_entry() {
    let mut app = App::new();
    for c in "abc".chars() {
        app.handle_key(Key::Char(c));
    }
    let plan = app.plan_frame(rect(0, 0, 80, 24));
    assert_eq!(plan.cursor, Some((5, 2)));
    assert_eq!(plan.text, rect(2, 14, 76, 8));
}
