use moccasin::app::Status;
use moccasin::feed::Feed;
use moccasin::ui::{
    centered_rect_ratio, centered_rect_sized, get_line_offset, render_status_bar, Alignment,
    StatusLine,
};

fn feed(fetched: Option<&str>) -> Feed {
    Feed {
        id: "i".to_string(),
        title: "t".to_string(),
        description: String::new(),
        categories: vec![],
        url: "u".to_string(),
        link: "l".to_string(),
        ttl: None,
        items: vec![],
        pub_date: None,
        last_fetched: fetched.map(|s| s.to_string()),
    }
}

#[test]
fn lines_start_where_their_alignment_says() {
    assert_eq!(get_line_offset(10, 40, Alignment::Left), 0);
    assert_eq!(get_line_offset(10, 40, Alignment::Center), 15);
    assert_eq!(get_line_offset(11, 41, Alignment::Center), 15);
    assert_eq!(get_line_offset(10, 40, Alignment::Right), 30);
    assert_eq!(get_line_offset(50, 40, Alignment::Center), 0);
    assert_eq!(get_line_offset(50, 40, Alignment::Right), 0);
    assert_eq!(get_line_offset(0, 0, Alignment::Center), 0);
}

#[test]
fn dialogs_leave_equal_margins() {
    assert_eq!(centered_rect_ratio((5, 9)), 2);
    assert_eq!(centered_rect_ratio((9, 9)), 0);
    assert_eq!(centered_rect_sized(20, 80), 30);
    assert_eq!(centered_rect_sized(21, 80), 29);
    assert_eq!(centered_rect_sized(80, 80), 0);
}

#[test]
fn the_status_bar_reads_the_status() {
    assert_eq!(
        render_status_bar(&Status::Loading(1, 3), None),
        StatusLine::Gauge { completed: 1, total: 3 }
    );
    assert_eq!(render_status_bar(&Status::Loading(0, 0), None), StatusLine::Blank);
    assert_eq!(
        render_status_bar(&Status::Done, None),
        StatusLine::Text("[no selection]".to_string())
    );
    assert_eq!(
        render_status_bar(&Status::Done, Some(&feed(Some("Mon, 1 Jan")))),
        StatusLine::Text("Last fetched: Mon, 1 Jan".to_string())
    );
    assert_eq!(
        render_status_bar(&Status::Done, Some(&feed(None))),
        StatusLine::Text("Last fetched: never".to_string())
    );
    assert_eq!(
        render_status_bar(&Status::Errored("request failed".to_string()), None),
        StatusLine::Text("ERROR: request failed".to_string())
    );
}
