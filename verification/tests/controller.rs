use kimchi::app::{
    dispatch, global_binding, resolve, Command, Controller, Effect, Focus, Followup,
    PrListCompletion, PrListFetch, RequestTracker,
};
use kimchi::event::{AppEvent, Key};
use kimchi::git::TimelinePosition;
use kimchi::github::PrSummary;
use kimchi::ui::layout::Area;
use kimchi::ui::widgets::diff_view::{DiffViewState, PreviewContent};
use kimchi::ui::widgets::pr_list::PrListState;
use kimchi::ui::widgets::Action;

fn pr(number: u64) -> PrSummary {
    PrSummary {
        number,
        author: "octocat".to_string(),
        title: format!("Change {}", number),
        state: "OPEN".to_string(),
        url: String::new(),
        updated_at: String::new(),
    }
}

fn numbers(list: &PrListState) -> Vec<u64> {
    list.prs.iter().map(|p| p.number).collect()
}

#[test]
fn stale_completion_is_discarded() {
    let mut fetch = PrListFetch::new();
    let first = fetch.begin();
    let second = fetch.begin();
    assert_eq!((first, second), (1, 2));
    assert!(fetch.complete(PrListCompletion { id: second, result: Ok(vec![pr(20), pr(21)]) }));
    assert!(!fetch.complete(PrListCompletion { id: first, result: Ok(vec![pr(10)]) }));
    assert_eq!(numbers(&fetch.list), vec![20, 21]);
    assert!(!fetch.list.loading);
    assert_eq!(fetch.list.error, None);
}

#[test]
fn stale_completion_that_arrives_first_is_discarded_too() {
    let mut fetch = PrListFetch::new();
    let first = fetch.begin();
    let second = fetch.begin();
    assert!(!fetch.complete(PrListCompletion { id: first, result: Ok(vec![pr(10)]) }));
    assert!(fetch.list.loading);
    assert_eq!(numbers(&fetch.list), Vec::<u64>::new());
    assert!(fetch.complete(PrListCompletion { id: second, result: Ok(vec![pr(20)]) }));
    assert_eq!(numbers(&fetch.list), vec![20]);
}

#[test]
fn stale_failure_does_not_show() {
    let mut fetch = PrListFetch::new();
    let first = fetch.begin();
    let second = fetch.begin();
    assert!(fetch.complete(PrListCompletion { id: second, result: Ok(vec![pr(5)]) }));
    assert!(!fetch.complete(PrListCompletion { id: first, result: Err("timed out".to_string()) }));
    assert_eq!(fetch.list.error, None);
    assert_eq!(numbers(&fetch.list), vec![5]);
}

#[test]
fn current_failure_shows_its_message() {
    let mut fetch = PrListFetch::new();
    let id = fetch.begin();
    assert!(fetch.complete(PrListCompletion { id, result: Err("timed out".to_string()) }));
    assert_eq!(fetch.list.error.as_deref(), Some("timed out"));
    assert!(!fetch.list.loading);
}

#[test]
fn completion_without_a_request_is_discarded() {
    let mut fetch = PrListFetch::new();
    assert!(!fetch.complete(PrListCompletion { id: 0, result: Ok(vec![pr(1)]) }));
    assert!(!fetch.complete(PrListCompletion { id: 1, result: Ok(vec![pr(1)]) }));
    assert!(fetch.list.loading);
    assert_eq!(fetch.list.prs.len(), 0);
}

#[test]
fn request_ids_count_up_and_only_the_last_is_current() {
    let mut t = RequestTracker::new();
    assert!(!t.is_current(0));
    assert_eq!(t.issue(), 1);
    assert!(t.is_current(1));
    assert_eq!(t.issue(), 2);
    assert_eq!(t.issue(), 3);
    assert!(!t.is_current(1));
    assert!(!t.is_current(2));
    assert!(t.is_current(3));
    assert!(!t.is_current(4));
    assert!(!t.is_current(0));
}

#[test]
fn focus_cycles_through_the_panes() {
    assert_eq!(Focus::Files.next(), Focus::Preview);
    assert_eq!(Focus::Preview.next(), Focus::PrList);
    assert_eq!(Focus::PrList.next(), Focus::Files);
}

#[test]
fn global_bindings() {
    assert_eq!(global_binding(&Key::Char('q')), Some(Command::Quit));
    assert_eq!(global_binding(&Key::Char('?')), Some(Command::ToggleHelp));
    assert_eq!(global_binding(&Key::Char('r')), Some(Command::Refresh));
    assert_eq!(global_binding(&Key::Tab), Some(Command::CycleFocus));
    assert_eq!(global_binding(&Key::Char(',')), Some(Command::TimelineOlder));
    assert_eq!(global_binding(&Key::Char('.')), Some(Command::TimelineNewer));
    assert_eq!(global_binding(&Key::Char('j')), None);
    assert_eq!(global_binding(&Key::Char('Q')), None);
    assert_eq!(global_binding(&Key::Enter), None);
    assert_eq!(global_binding(&Key::Esc), None);
    assert_eq!(global_binding(&Key::Other), None);
}

#[test]
fn bindings_are_tried_only_for_ignored_keys() {
    assert_eq!(resolve(&Action::Ignored, &Key::Char('q')), Some(Command::Quit));
    assert_eq!(resolve(&Action::Handled, &Key::Char('q')), None);
    assert_eq!(resolve(&Action::CheckoutPr(3), &Key::Tab), None);
    assert_eq!(resolve(&Action::Ignored, &Key::Char('z')), None);
}

#[test]
fn events_map_to_effects() {
    assert_eq!(dispatch(AppEvent::Key(Key::Char('j'))), Effect::HandleKey(Key::Char('j')));
    assert_eq!(dispatch(AppEvent::Resize(80, 24)), Effect::Redraw);
    assert_eq!(dispatch(AppEvent::Tick), Effect::Redraw);
    assert_eq!(dispatch(AppEvent::FileChanged), Effect::Refresh);
    assert_eq!(dispatch(AppEvent::PrLoaded), Effect::Redraw);
}

#[test]
fn controller_applies_commands() {
    let mut c = Controller::new();
    assert!(c.running);
    assert_eq!(c.focus, Focus::Files);
    assert_eq!(c.timeline, TimelinePosition::FullDiff);
    assert!(!c.help_open);
    assert_eq!(c.apply(Command::CycleFocus, 3), Followup::Nothing);
    assert_eq!(c.focus, Focus::Preview);
    assert_eq!(c.apply(Command::ToggleHelp, 3), Followup::Nothing);
    assert!(c.help_open);
    assert_eq!(c.apply(Command::ToggleHelp, 3), Followup::Nothing);
    assert!(!c.help_open);
    assert_eq!(c.apply(Command::Refresh, 3), Followup::Refresh);
    assert_eq!(c.apply(Command::TimelineOlder, 3), Followup::ReloadPreview);
    assert_eq!(c.timeline, TimelinePosition::CommitDiff(1));
    assert_eq!(c.apply(Command::TimelineNewer, 3), Followup::ReloadPreview);
    assert_eq!(c.apply(Command::TimelineNewer, 3), Followup::ReloadPreview);
    assert_eq!(c.timeline, TimelinePosition::Wip);
    assert!(c.running);
    assert_eq!(c.apply(Command::Quit, 3), Followup::Nothing);
    assert!(!c.running);
    assert_eq!(c.focus, Focus::Preview);
    assert_eq!(c.timeline, TimelinePosition::Wip);
}

#[test]
fn timeline_steps_at_the_ends_still_reload() {
    let mut c = Controller::new();
    assert_eq!(c.apply(Command::TimelineOlder, 0), Followup::ReloadPreview);
    assert_eq!(c.timeline, TimelinePosition::FullDiff);
    c.timeline = TimelinePosition::Browse;
    assert_eq!(c.apply(Command::TimelineNewer, 0), Followup::ReloadPreview);
    assert_eq!(c.timeline, TimelinePosition::Browse);
}

#[test]
fn preview_handles_navigation_keys() {
    let content: String = (0..20).map(|i| format!("{}\n", i)).collect();
    let mut s = DiffViewState::new();
    s.set_content(PreviewContent::FileContent { path: "f".to_string(), content });
    assert_eq!(s.handle_key(&Key::Char('j')), Action::Handled);
    assert_eq!(s.cursor, 1);
    assert_eq!(s.handle_key(&Key::Char('J')), Action::Handled);
    assert_eq!(s.cursor, 6);
    assert_eq!(s.handle_key(&Key::Char('k')), Action::Handled);
    assert_eq!(s.cursor, 5);
    assert_eq!(s.handle_key(&Key::Char('G')), Action::Handled);
    assert_eq!(s.cursor, 19);
    s.ensure_visible(8);
    assert_eq!(s.offset, 15);
    assert_eq!(s.handle_key(&Key::Char('K')), Action::Handled);
    assert_eq!((s.cursor, s.offset), (14, 15));
    assert_eq!(s.handle_key(&Key::Char('g')), Action::Handled);
    assert_eq!((s.cursor, s.offset), (0, 0));
    s.handle_key(&Key::Char('J'));
    for key in [Key::Char('q'), Key::Char(','), Key::Enter, Key::Esc, Key::Tab, Key::Other] {
        assert_eq!(s.handle_key(&key), Action::Ignored);
        assert_eq!(s.cursor, 5);
    }
}

#[test]
fn pr_list_handles_its_keys() {
    let mut s = PrListState::new();
    assert_eq!(s.handle_key(&Key::Enter), Action::Ignored);
    s.set_prs(vec![pr(11), pr(12), pr(13)]);
    assert_eq!(s.handle_key(&Key::Enter), Action::CheckoutPr(11));
    assert_eq!(s.handle_key(&Key::Char('j')), Action::Handled);
    assert_eq!(s.handle_key(&Key::Char('j')), Action::Handled);
    assert_eq!(s.handle_key(&Key::Char('j')), Action::Handled);
    assert_eq!(s.cursor, 2);
    assert_eq!(s.handle_key(&Key::Enter), Action::CheckoutPr(13));
    assert_eq!(s.handle_key(&Key::Char('k')), Action::Handled);
    assert_eq!(s.cursor, 1);
    assert_eq!(s.handle_key(&Key::Char('q')), Action::Ignored);
    assert_eq!(s.handle_key(&Key::Esc), Action::Ignored);
    assert_eq!(s.cursor, 1);
}

#[test]
fn area_on_screen() {
    assert!(Area { x: 0, y: 0, width: 80, height: 24 }.fits_screen());
    assert!(Area { x: 65535, y: 65535, width: 0, height: 0 }.fits_screen());
    assert!(Area { x: 65000, y: 0, width: 535, height: 65535 }.fits_screen());
    assert!(!Area { x: 65000, y: 0, width: 536, height: 0 }.fits_screen());
    assert!(!Area { x: 0, y: 1, width: 0, height: 65535 }.fits_screen());
}
