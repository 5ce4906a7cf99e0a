use kimchi::ui::widgets::diff_view::{DiffViewState, LineType, PreviewContent};

fn file(lines: usize) -> PreviewContent {
    let content: String = (0..lines).map(|i| format!("line {}\n", i)).collect();
    PreviewContent::FileContent { path: "src/main.rs".to_string(), content }
}

fn state(lines: usize) -> DiffViewState {
    let mut s = DiffViewState::new();
    s.set_content(file(lines));
    s
}

#[test]
fn new_state_is_empty() {
    let s = DiffViewState::new();
    assert!(matches!(s.content, PreviewContent::Empty));
    assert_eq!(s.lines.len(), 0);
    assert_eq!(s.cursor, 0);
    assert_eq!(s.offset, 0);
    let d = DiffViewState::default();
    assert_eq!((d.lines.len(), d.cursor, d.offset), (0, 0, 0));
}

#[test]
fn set_content_parses_and_rewinds() {
    let mut s = state(10);
    s.move_down_n(7);
    s.ensure_visible(6);
    assert_eq!((s.cursor, s.offset), (7, 5));
    s.set_content(PreviewContent::FileDiff {
        path: "a.rs".to_string(),
        content: "@@ -1 +1 @@\n-a\n+b".to_string(),
    });
    assert_eq!((s.cursor, s.offset), (0, 0));
    assert_eq!(s.lines.len(), 3);
    assert_eq!(s.lines[1].line_type, LineType::Removed);
    s.set_content(PreviewContent::Empty);
    assert_eq!(s.lines.len(), 0);
}

#[test]
fn binary_content_is_one_notice() {
    let mut long = "x\n".repeat(5000);
    long.insert(100, '\0');
    for content in [
        PreviewContent::FileDiff { path: "a".to_string(), content: "+a\n\0\n+b".to_string() },
        PreviewContent::FolderDiff { path: "a".to_string(), content: "\0".to_string() },
        PreviewContent::FileContent { path: "a".to_string(), content: long },
    ] {
        let mut s = DiffViewState::new();
        s.set_content(content);
        assert_eq!(s.lines.len(), 1);
        assert_eq!(s.lines[0].text, "Binary file");
        assert_eq!(s.lines[0].line_type, LineType::Info);
        assert_eq!(s.lines[0].left_num, None);
        assert_eq!(s.lines[0].right_num, None);
    }
}

#[test]
fn nul_after_the_probe_is_not_binary() {
    let mut content = "a\n".repeat(4096);
    content.push('\0');
    let mut s = DiffViewState::new();
    s.set_content(PreviewContent::FileContent { path: "a".to_string(), content });
    assert_eq!(s.lines.len(), 4097);
}

#[test]
fn folder_diff_is_parsed_as_a_diff() {
    let mut s = DiffViewState::new();
    s.set_content(PreviewContent::FolderDiff {
        path: "src".to_string(),
        content: "@@ -1 +1 @@\n+a".to_string(),
    });
    assert_eq!(s.lines.len(), 2);
    assert_eq!(s.lines[1].right_num, Some(1));
}

#[test]
fn titles() {
    let mut s = DiffViewState::new();
    assert_eq!(s.title(), "Preview");
    s.set_content(PreviewContent::FileDiff { path: "a/b.rs".to_string(), content: String::new() });
    assert_eq!(s.title(), "a/b.rs");
    s.set_content(PreviewContent::FolderDiff { path: "a/b".to_string(), content: String::new() });
    assert_eq!(s.title(), "a/b/");
    s.set_content(PreviewContent::FileContent { path: "c.rs".to_string(), content: String::new() });
    assert_eq!(s.title(), "c.rs");
    s.set_content(PreviewContent::CommitSummary {
        commit: kimchi::git::Commit {
            hash: String::new(),
            author: String::new(),
            date: String::new(),
            subject: String::new(),
        },
        pr: None,
    });
    assert_eq!(s.title(), "Commit & PR Summary");
    assert_eq!(s.lines.len(), 10);
}

#[test]
fn moves_stop_at_both_ends() {
    let mut s = state(3);
    s.move_up();
    assert_eq!(s.cursor, 0);
    s.move_down();
    s.move_down();
    assert_eq!(s.cursor, 2);
    s.move_down();
    assert_eq!(s.cursor, 2);
    s.move_up();
    assert_eq!(s.cursor, 1);
}

#[test]
fn moves_on_an_empty_list_stay_at_zero() {
    let mut s = DiffViewState::new();
    s.move_down();
    s.move_down_n(10);
    s.page_down(40);
    s.go_bottom();
    assert_eq!(s.cursor, 0);
    s.move_up();
    s.move_up_n(3);
    s.page_up(40);
    s.go_top();
    assert_eq!((s.cursor, s.offset), (0, 0));
}

#[test]
fn moves_by_n_and_by_half_pages() {
    let mut s = state(100);
    s.move_down_n(5);
    assert_eq!(s.cursor, 5);
    s.page_down(21);
    assert_eq!(s.cursor, 15);
    s.page_up(9);
    assert_eq!(s.cursor, 11);
    s.move_up_n(20);
    assert_eq!(s.cursor, 0);
    s.move_down_n(usize::MAX);
    assert_eq!(s.cursor, 99);
    s.move_down_n(1);
    assert_eq!(s.cursor, 99);
    s.page_down(1);
    assert_eq!(s.cursor, 99);
}

#[test]
fn go_top_and_bottom() {
    let mut s = state(50);
    s.go_bottom();
    assert_eq!((s.cursor, s.offset), (49, 0));
    s.ensure_visible(13);
    assert_eq!((s.cursor, s.offset), (49, 40));
    s.go_top();
    assert_eq!((s.cursor, s.offset), (0, 0));
}

#[test]
fn ensure_visible_scrolls_the_least() {
    let mut s = state(100);
    s.ensure_visible(13);
    assert_eq!(s.offset, 0);
    s.move_down_n(9);
    s.ensure_visible(13);
    assert_eq!(s.offset, 0);
    s.move_down();
    s.ensure_visible(13);
    assert_eq!(s.offset, 1);
    s.move_down_n(20);
    s.ensure_visible(13);
    assert_eq!((s.cursor, s.offset), (30, 21));
    s.move_up_n(5);
    s.ensure_visible(13);
    assert_eq!((s.cursor, s.offset), (25, 21));
    s.move_up_n(5);
    s.ensure_visible(13);
    assert_eq!((s.cursor, s.offset), (20, 20));
}

#[test]
fn ensure_visible_shows_the_cursor_and_is_idempotent() {
    for height in [4usize, 5, 8, 13, 50, 200] {
        for cursor in [0usize, 1, 7, 30, 99] {
            for offset in [0usize, 3, 29, 30, 31, 90, 150] {
                let mut s = state(100);
                s.cursor = cursor;
                s.offset = offset;
                s.ensure_visible(height);
                let once = s.offset;
                assert!(once <= s.cursor);
                assert!(s.cursor < once + (height - 3));
                s.ensure_visible(height);
                assert_eq!(s.offset, once);
                assert_eq!(s.cursor, cursor);
            }
        }
    }
}

#[test]
fn ensure_visible_without_rows_puts_the_offset_past_the_cursor() {
    let mut s = state(10);
    s.move_down_n(4);
    s.ensure_visible(3);
    assert_eq!((s.cursor, s.offset), (4, 5));
    s.ensure_visible(0);
    assert_eq!((s.cursor, s.offset), (4, 4));
}

#[test]
fn scroll_percent_is_empty_when_everything_fits() {
    assert_eq!(DiffViewState::new().scroll_percent(40), "");
    assert_eq!(DiffViewState::new().scroll_percent(0), "");
    let s = state(10);
    assert_eq!(s.scroll_percent(13), "");
    assert_eq!(s.scroll_percent(14), "");
    assert_eq!(s.scroll_percent(500), "");
    assert_eq!(s.scroll_percent(12), "0%");
}

#[test]
fn scroll_percent_follows_the_offset() {
    let mut s = state(100);
    assert_eq!(s.scroll_percent(13), "0%");
    s.offset = 45;
    assert_eq!(s.scroll_percent(13), "50%");
    s.offset = 90;
    assert_eq!(s.scroll_percent(13), "100%");
    s.offset = 1;
    assert_eq!(s.scroll_percent(13), "1%");
    s.offset = 89;
    assert_eq!(s.scroll_percent(13), "98%");
    s.offset = 7;
    assert_eq!(s.scroll_percent(2), "7%");
    s.offset = 30;
    assert_eq!(s.scroll_percent(102), "3000%");
}

#[test]
fn scroll_percent_of_a_huge_offset() {
    let mut s = state(2);
    s.offset = usize::MAX;
    let expected = format!("{}%", (usize::MAX as u128) * 100 / 2);
    assert_eq!(s.scroll_percent(0), expected);
}

#[test]
fn current_line_number_prefers_the_right_side() {
    let mut s = DiffViewState::new();
    assert_eq!(s.get_current_line_number(), None);
    s.set_content(PreviewContent::FileDiff {
        path: "a".to_string(),
        content: "@@ -10 +20 @@\n a\n-b\n+c\nother".to_string(),
    });
    assert_eq!(s.get_current_line_number(), None);
    s.move_down();
    assert_eq!(s.get_current_line_number(), Some(20));
    s.move_down();
    assert_eq!(s.get_current_line_number(), Some(11));
    s.move_down();
    assert_eq!(s.get_current_line_number(), Some(21));
    s.move_down();
    assert_eq!(s.get_current_line_number(), None);
    s.cursor = 17;
    assert_eq!(s.get_current_line_number(), None);
}

#[test]
fn a_list_that_fits_is_never_scrolled() {
    let mut s = state(8);
    for _ in 0..10 {
        s.move_down();
        s.ensure_visible(11);
        assert_eq!(s.offset, 0);
    }
    assert_eq!(s.cursor, 7);
}
