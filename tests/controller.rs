use aeonium::config::Config;
use aeonium::controller::{next_highlight, prev_highlight, Command, EventType, GuiState, Received};

fn icons(n: usize) -> Vec<Option<String>> {
    (0..n).map(|i| if i % 2 == 0 { Some(format!("/icons/{}.png", i)) } else { None }).collect()
}

fn sent(cmds: &[Command]) -> Vec<String> {
    cmds.iter()
        .filter_map(|c| match c {
            Command::Send(line) => Some(line.clone()),
            _ => None,
        })
        .collect()
}

fn open_with(event: EventType, segments: usize) -> GuiState {
    let mut g = GuiState::new();
    let cmds = g.tick(Some(event), segments, &icons(segments), 0, 100);
    assert!(matches!(cmds[0], Command::SpawnRenderer(_)));
    g
}

#[test]
fn idle_menu_down_opens_at_first_segment() {
    let mut g = GuiState::new();
    let cmds = g.tick(Some(EventType::MenuDown), 5, &icons(5), 7, 100);
    assert_eq!(cmds.len(), 2);
    match &cmds[0] {
        Command::SpawnRenderer(args) => {
            assert_eq!(args[0], "5");
            assert_eq!(args.len(), 6);
            assert_eq!(args[1], "/icons/0.png");
            assert_eq!(args[2], "default");
        }
        other => panic!("expected a spawn, got {:?}", other),
    }
    assert_eq!(sent(&cmds), vec!["HIGHLIGHT 0\n".to_string()]);
    assert_eq!(g.highlight(), Some(0));
}

#[test]
fn active_menu_up_moves_forward() {
    let mut g = open_with(EventType::MenuDown, 5);
    let cmds = g.tick(Some(EventType::MenuUp), 5, &icons(5), 10, 100);
    assert_eq!(g.highlight(), Some(1));
    assert_eq!(cmds.len(), 1);
    assert_eq!(sent(&cmds), vec!["HIGHLIGHT 1\n".to_string()]);
}

#[test]
fn active_menu_down_wraps_backward() {
    let mut g = open_with(EventType::MenuDown, 3);
    let cmds = g.tick(Some(EventType::MenuDown), 3, &icons(3), 10, 100);
    assert_eq!(g.highlight(), Some(2));
    assert_eq!(sent(&cmds), vec!["HIGHLIGHT 2\n".to_string()]);
}

#[test]
fn idle_timeout_quits_launches_and_waits() {
    let mut g = open_with(EventType::MenuDown, 4);
    g.tick(Some(EventType::MenuUp), 4, &icons(4), 50, 100);
    g.tick(Some(EventType::MenuUp), 4, &icons(4), 60, 100);
    assert!(g.tick(None, 4, &icons(4), 160, 100).is_empty());
    let cmds = g.tick(None, 4, &icons(4), 161, 100);
    assert_eq!(cmds.len(), 3);
    assert!(matches!(&cmds[0], Command::Send(line) if line == "QUIT\n"));
    assert!(matches!(cmds[1], Command::Launch(2)));
    assert!(matches!(cmds[2], Command::WaitRenderer));
    assert_eq!(g.highlight(), None);
    assert!(g.tick(None, 4, &icons(4), 500, 100).is_empty());
}

#[test]
fn lost_listener_terminates() {
    let mut g = open_with(EventType::MenuUp, 4);
    let cmds = g.step(Received::Disconnected, 4, &icons(4), 10, 100);
    assert_eq!(cmds.len(), 1);
    assert!(matches!(cmds[0], Command::Terminate));
    assert_eq!(g.highlight(), Some(3));
}

#[test]
fn step_passes_events_and_timeouts_on() {
    let mut g = GuiState::new();
    let cmds = g.step(Received::Event(EventType::Scroll(1)), 4, &icons(4), 0, 100);
    assert_eq!(cmds.len(), 2);
    assert_eq!(g.highlight(), Some(0));
    let cmds = g.step(Received::Timeout, 4, &icons(4), 101, 100);
    assert_eq!(cmds.len(), 3);
    assert_eq!(g.highlight(), None);
}

#[test]
fn idle_menu_up_opens_at_last_segment() {
    let mut g = GuiState::new();
    let cmds = g.tick(Some(EventType::MenuUp), 5, &icons(5), 0, 100);
    assert_eq!(g.highlight(), Some(4));
    assert_eq!(sent(&cmds), vec!["HIGHLIGHT 4\n".to_string()]);
}

#[test]
fn idle_scroll_opens_by_direction() {
    let mut g = GuiState::new();
    g.tick(Some(EventType::Scroll(-1)), 5, &icons(5), 0, 100);
    assert_eq!(g.highlight(), Some(4));
    let mut g = GuiState::new();
    g.tick(Some(EventType::Scroll(1)), 5, &icons(5), 0, 100);
    assert_eq!(g.highlight(), Some(0));
}

#[test]
fn idle_zero_scroll_does_nothing() {
    let mut g = GuiState::new();
    let cmds = g.tick(Some(EventType::Scroll(0)), 5, &icons(5), 0, 100);
    assert!(cmds.is_empty());
    assert_eq!(g.highlight(), None);
}

#[test]
fn zero_scroll_keeps_highlight_and_timer() {
    let mut g = open_with(EventType::MenuDown, 5);
    let cmds = g.tick(Some(EventType::Scroll(0)), 5, &icons(5), 90, 100);
    assert_eq!(g.highlight(), Some(0));
    assert_eq!(sent(&cmds), vec!["HIGHLIGHT 0\n".to_string()]);
    // The timer still runs from the opening event at time 0.
    let cmds = g.tick(None, 5, &icons(5), 101, 100);
    assert_eq!(cmds.len(), 3);
}

#[test]
fn moving_event_resets_timer() {
    let mut g = open_with(EventType::MenuDown, 5);
    g.tick(Some(EventType::Scroll(-3)), 5, &icons(5), 90, 100);
    assert_eq!(g.highlight(), Some(4));
    assert!(g.tick(None, 5, &icons(5), 150, 100).is_empty());
    assert_eq!(g.tick(None, 5, &icons(5), 191, 100).len(), 3);
}

#[test]
fn scroll_forward_moves_like_up() {
    let mut g = open_with(EventType::MenuDown, 3);
    g.tick(Some(EventType::Scroll(5)), 3, &icons(3), 1, 100);
    assert_eq!(g.highlight(), Some(1));
}

#[test]
fn single_segment_stays_put() {
    let mut g = open_with(EventType::MenuUp, 1);
    assert_eq!(g.highlight(), Some(0));
    g.tick(Some(EventType::MenuUp), 1, &icons(1), 1, 100);
    assert_eq!(g.highlight(), Some(0));
    g.tick(Some(EventType::MenuDown), 1, &icons(1), 2, 100);
    assert_eq!(g.highlight(), Some(0));
}

#[test]
fn handle_event_spawns_only_when_idle() {
    let mut g = GuiState::new();
    let cmds = g.handle_event(EventType::MenuDown, 2, &icons(2), 0);
    assert_eq!(cmds.len(), 1);
    let cmds = g.handle_event(EventType::MenuDown, 2, &icons(2), 1);
    assert!(cmds.is_empty());
    assert_eq!(g.highlight(), Some(1));
}

#[test]
fn next_and_prev_are_inverse() {
    for segments in 1..8usize {
        for idx in 0..segments {
            let n = next_highlight(idx, segments);
            let p = prev_highlight(idx, segments);
            assert!(n < segments && p < segments);
            assert_eq!(prev_highlight(n, segments), idx);
            assert_eq!(next_highlight(p, segments), idx);
            assert_eq!(n, (idx + 1) % segments);
            assert_eq!(p, (idx + segments - 1) % segments);
        }
    }
}

#[test]
fn highlight_moves_at_the_largest_size() {
    let big = usize::MAX;
    assert_eq!(prev_highlight(0, big), big - 1);
    assert_eq!(next_highlight(big - 1, big), 0);
}

#[test]
fn config_default_timeout() {
    assert_eq!(Config::default().timeout, 100);
}
