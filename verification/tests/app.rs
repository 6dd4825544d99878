use ytbv::app::{play_video, App, AppMsg, Command, ThumbnailFile};
use ytbv::state::{Focus, Key};
use ytbv::video::Video;

fn video(title: &str, thumbnail: Option<&str>) -> Video {
    Video {
        title: title.to_string(),
        url: format!("https://www.youtube.com/watch?v={title}"),
        channel: None,
        duration: None,
        view_count: None,
        publish_date: None,
        publish_date_txt: None,
        thumbnail_url: thumbnail.map(|t| t.to_string()),
        thumbnail_path: None,
        thumbnail_size: None,
        thumbnail_loading: false,
    }
}

fn typed(app: &mut App, text: &str) {
    for c in text.chars() {
        let command = app.handle_key(Key::Char(c));
        assert!(matches!(command, Command::Nothing));
    }
}

fn browsing(titles: &[&str]) -> App {
    let mut app = App::new();
    let list: Vec<Video> = titles
        .iter()
        .map(|t| video(t, Some(&format!("https://img/{t}.jpg"))))
        .collect();
    app.handle_message(AppMsg::Search(Ok(list)));
    app
}

fn file(path: &str) -> ThumbnailFile {
    ThumbnailFile { path: path.to_string(), size: Some((320, 180)) }
}

#[test]
fn starts_empty_in_query_entry() {
    let app = App::new();
    assert_eq!(app.query(), "");
    assert_eq!(app.cursor(), 0);
    assert!(app.results().is_empty());
    assert_eq!(app.selected(), 0);
    assert_eq!(app.status(), "Type a query and press Enter.");
    assert!(!app.searching());
    assert_eq!(app.focus(), Focus::Search);
    assert_eq!(app.generation(), 0);
    assert_eq!(app.thumb_area(), None);
    assert!(app.last_thumb().is_none());
    assert!(app.current().is_none());
}

#[test]
fn down_without_results_is_a_no_op() {
    let mut app = App::new();
    typed(&mut app, "ab");
    let command = app.handle_key(Key::Down);
    assert!(matches!(command, Command::Nothing));
    assert_eq!(app.focus(), Focus::Search);
    assert_eq!(app.selected(), 0);
    assert_eq!(app.query(), "ab");
    assert_eq!(app.cursor(), 2);
}

#[test]
fn up_at_the_first_result_returns_to_query_entry() {
    let mut app = browsing(&["a", "b", "c"]);
    app.handle_key(Key::Down);
    app.handle_key(Key::Up);
    assert_eq!(app.focus(), Focus::Results);
    assert_eq!(app.selected(), 0);
    let status = app.status().clone();
    let command = app.handle_key(Key::Up);
    assert!(matches!(command, Command::Nothing));
    assert_eq!(app.focus(), Focus::Search);
    assert_eq!(app.selected(), 0);
    assert_eq!(app.results().len(), 3);
    assert_eq!(app.status(), &status);
}

#[test]
fn search_and_thumbnail_end_to_end() {
    let mut app = App::new();
    typed(&mut app, "test");
    let command = app.handle_key(Key::Enter);
    assert!(matches!(&command, Command::Search { query } if query == "test"));
    assert!(app.searching());
    assert_eq!(app.status(), "Searching for 'test'...");

    let list = vec![video("A", Some("https://img/a.jpg")), video("B", Some("https://img/b.jpg"))];
    let command = app.handle_message(AppMsg::Search(Ok(list)));
    assert_eq!(app.results().len(), 2);
    assert_eq!(app.results()[0].title, "A");
    assert_eq!(app.results()[1].title, "B");
    assert_eq!(app.selected(), 0);
    assert_eq!(app.focus(), Focus::Results);
    assert!(!app.searching());
    assert_eq!(app.status(), "Found 2 results.");
    assert_eq!(app.generation(), 1);
    assert!(matches!(&command, Command::FetchThumbnail { generation: 1, index: 0, url }
        if url == "https://img/a.jpg"));
    assert!(app.results()[0].thumbnail_loading);
    assert!(!app.results()[1].thumbnail_loading);

    let command = app.handle_message(AppMsg::Thumbnail {
        generation: 1,
        index: 0,
        result: Ok(file("/cache/a.img")),
    });
    assert!(matches!(command, Command::Nothing));
    assert_eq!(app.results()[0].thumbnail_path.as_deref(), Some("/cache/a.img"));
    assert_eq!(app.results()[0].thumbnail_size, Some((320, 180)));
    assert!(!app.results()[0].thumbnail_loading);
    assert_eq!(app.status(), "Thumbnail ready.");
}

#[test]
fn three_selection_changes_order_three_thumbnails() {
    let mut app = App::new();
    let list = vec![
        video("a", None),
        video("b", Some("https://img/b.jpg")),
        video("c", Some("https://img/c.jpg")),
        video("d", Some("https://img/d.jpg")),
    ];
    let first = app.handle_message(AppMsg::Search(Ok(list)));
    assert!(matches!(first, Command::Nothing));
    let mut ordered: Vec<usize> = Vec::new();
    for key in [Key::Down, Key::Down, Key::Down, Key::Up, Key::Up, Key::Down, Key::Down, Key::Down] {
        if let Command::FetchThumbnail { index, generation, url } = app.handle_key(key) {
            assert_eq!(generation, 1);
            assert_eq!(url, app.results()[index].thumbnail_url.clone().unwrap());
            ordered.push(index);
        }
    }
    assert_eq!(ordered, vec![1, 2, 3]);
    assert_eq!(app.selected(), 3);
    assert!(app.results()[1].thumbnail_loading);
    assert!(app.results()[2].thumbnail_loading);
    assert!(app.results()[3].thumbnail_loading);
    assert!(!app.results()[0].thumbnail_loading);
}

#[test]
fn fetched_thumbnail_is_not_ordered_again() {
    let mut app = browsing(&["a", "b"]);
    app.handle_message(AppMsg::Thumbnail { generation: 1, index: 0, result: Ok(file("/c/a.img")) });
    let down = app.handle_key(Key::Down);
    assert!(matches!(down, Command::FetchThumbnail { index: 1, .. }));
    let up = app.handle_key(Key::Up);
    assert!(matches!(up, Command::Nothing));
    assert!(matches!(app.queue_thumbnail(0), Command::Nothing));
    assert!(matches!(app.queue_thumbnail(1), Command::Nothing));
    assert!(matches!(app.queue_thumbnail(7), Command::Nothing));
}

#[test]
fn failed_thumbnail_goes_to_the_status_line_and_may_be_ordered_again() {
    let mut app = browsing(&["a"]);
    let command = app.handle_message(AppMsg::Thumbnail {
        generation: 1,
        index: 0,
        result: Err("Download error: no route".to_string()),
    });
    assert!(matches!(command, Command::Nothing));
    assert_eq!(app.status(), "Download error: no route");
    assert!(!app.results()[0].thumbnail_loading);
    assert_eq!(app.results()[0].thumbnail_path, None);
    assert!(matches!(app.queue_thumbnail(0), Command::FetchThumbnail { index: 0, .. }));
}

#[test]
fn report_for_an_older_batch_is_dropped() {
    let mut app = browsing(&["old"]);
    let command = app.handle_message(AppMsg::Search(Ok(vec![video("new", None)])));
    assert!(matches!(command, Command::Nothing));
    assert_eq!(app.generation(), 2);
    app.handle_message(AppMsg::Thumbnail { generation: 1, index: 0, result: Ok(file("/c/old.img")) });
    assert_eq!(app.results()[0].title, "new");
    assert_eq!(app.results()[0].thumbnail_path, None);
    assert_eq!(app.status(), "Found 1 results.");
    app.handle_message(AppMsg::Thumbnail { generation: 1, index: 0, result: Err("late".to_string()) });
    assert_eq!(app.status(), "Found 1 results.");
}

#[test]
fn report_for_an_index_outside_the_list_is_dropped() {
    let mut app = browsing(&["a"]);
    app.handle_message(AppMsg::Thumbnail { generation: 1, index: 1, result: Ok(file("/c/x.img")) });
    app.handle_message(AppMsg::Thumbnail { generation: 1, index: usize::MAX, result: Err("x".to_string()) });
    assert_eq!(app.results().len(), 1);
    assert_eq!(app.results()[0].thumbnail_path, None);
    assert!(app.results()[0].thumbnail_loading);
    assert_eq!(app.status(), "Found 1 results.");
}

#[test]
fn failed_search_keeps_the_results() {
    let mut app = browsing(&["a", "b"]);
    app.handle_key(Key::Up);
    typed(&mut app, "x");
    assert!(matches!(app.handle_key(Key::Enter), Command::Search { .. }));
    let command = app.handle_message(AppMsg::Search(Err("RustyPipe search failed: offline".to_string())));
    assert!(matches!(command, Command::Nothing));
    assert!(!app.searching());
    assert_eq!(app.status(), "RustyPipe search failed: offline");
    assert_eq!(app.results().len(), 2);
    assert_eq!(app.generation(), 1);
}

#[test]
fn empty_batch_returns_to_query_entry() {
    let mut app = browsing(&["a", "b"]);
    app.handle_key(Key::Down);
    assert_eq!(app.selected(), 1);
    let command = app.handle_message(AppMsg::Search(Ok(Vec::new())));
    assert!(matches!(command, Command::Nothing));
    assert!(app.results().is_empty());
    assert_eq!(app.selected(), 0);
    assert_eq!(app.focus(), Focus::Search);
    assert_eq!(app.status(), "Found 0 results.");
    assert!(matches!(app.handle_key(Key::Down), Command::Nothing));
    assert_eq!(app.focus(), Focus::Search);
}

#[test]
fn only_one_search_at_a_time() {
    let mut app = App::new();
    typed(&mut app, "cats");
    assert!(matches!(app.handle_key(Key::Enter), Command::Search { .. }));
    typed(&mut app, "!");
    assert_eq!(app.query(), "cats!");
    assert!(matches!(app.handle_key(Key::Enter), Command::Nothing));
    assert_eq!(app.status(), "Searching for 'cats'...");
    app.handle_message(AppMsg::Search(Ok(Vec::new())));
    assert!(matches!(&app.handle_key(Key::Enter), Command::Search { query } if query == "cats!"));
}

#[test]
fn blank_query_is_not_searched() {
    let mut app = App::new();
    assert!(matches!(app.handle_key(Key::Enter), Command::Nothing));
    typed(&mut app, "  \t ");
    assert!(matches!(app.handle_key(Key::Enter), Command::Nothing));
    assert!(!app.searching());
    assert_eq!(app.status(), "Type a query and press Enter.");
}

#[test]
fn query_is_trimmed_before_the_search() {
    let mut app = App::new();
    typed(&mut app, "  rust  talks ");
    let command = app.handle_key(Key::Enter);
    assert!(matches!(&command, Command::Search { query } if query == "rust  talks"));
    assert_eq!(app.status(), "Searching for 'rust  talks'...");
    assert_eq!(app.query(), "  rust  talks ");
}

#[test]
fn editing_moves_by_characters() {
    let mut app = App::new();
    typed(&mut app, "héllo");
    assert_eq!(app.cursor(), 5);
    app.handle_key(Key::Left);
    app.handle_key(Key::Left);
    app.handle_key(Key::Left);
    app.handle_key(Key::Left);
    assert_eq!(app.cursor(), 1);
    typed(&mut app, "ü");
    assert_eq!(app.query(), "hüéllo");
    assert_eq!(app.cursor(), 2);
    app.handle_key(Key::Right);
    app.handle_key(Key::Backspace);
    assert_eq!(app.query(), "hüllo");
    assert_eq!(app.cursor(), 2);
    app.handle_key(Key::Backspace);
    app.handle_key(Key::Backspace);
    app.handle_key(Key::Backspace);
    assert_eq!(app.query(), "llo");
    assert_eq!(app.cursor(), 0);
    app.handle_key(Key::Left);
    assert_eq!(app.cursor(), 0);
    for _ in 0..5 {
        app.handle_key(Key::Right);
    }
    assert_eq!(app.cursor(), 3);
}

#[test]
fn keys_for_the_query_do_nothing_while_browsing() {
    let mut app = browsing(&["a"]);
    for key in [Key::Char('x'), Key::Backspace, Key::Left, Key::Right, Key::Other] {
        assert!(matches!(app.handle_key(key), Command::Nothing));
    }
    assert_eq!(app.query(), "");
    assert_eq!(app.cursor(), 0);
    assert_eq!(app.focus(), Focus::Results);
}

#[test]
fn quit_key_quits_in_both_panes() {
    let mut app = App::new();
    typed(&mut app, "a");
    assert!(matches!(app.handle_key(Key::Char('q')), Command::Quit));
    assert_eq!(app.query(), "a");
    let mut app = browsing(&["a"]);
    assert!(matches!(app.handle_key(Key::Char('q')), Command::Quit));
    assert_eq!(app.focus(), Focus::Results);
}

#[test]
fn selection_stays_inside_the_list() {
    let mut app = browsing(&["a", "b"]);
    app.handle_key(Key::Down);
    assert_eq!(app.selected(), 1);
    assert!(matches!(app.handle_key(Key::Down), Command::Nothing));
    assert_eq!(app.selected(), 1);
    assert_eq!(app.current().map(|v| v.title.as_str()), Some("b"));
}

#[test]
fn down_from_the_query_resumes_browsing() {
    let mut app = browsing(&["a", "b"]);
    app.handle_key(Key::Down);
    app.handle_key(Key::Up);
    app.handle_key(Key::Up);
    assert_eq!(app.focus(), Focus::Search);
    let command = app.handle_key(Key::Down);
    assert!(matches!(command, Command::Nothing));
    assert_eq!(app.focus(), Focus::Results);
    assert_eq!(app.selected(), 0);
}

#[test]
fn enter_plays_the_selected_result() {
    let mut app = browsing(&["a", "b"]);
    app.handle_key(Key::Down);
    let command = app.handle_key(Key::Enter);
    assert!(matches!(&command, Command::Play { url } if url == "https://www.youtube.com/watch?v=b"));
    assert_eq!(app.status(), "Playing: b");
    let (program, arguments) = play_video("https://www.youtube.com/watch?v=b");
    assert_eq!(program, "mpv");
    assert_eq!(
        arguments,
        vec![
            "--ytdl-format=bestvideo[height<=1080]+bestaudio/best".to_string(),
            "https://www.youtube.com/watch?v=b".to_string(),
        ]
    );
}
