use skriv::instance::{ForwardStep, Forwarding, MAIN_WINDOW, OPEN_FILES_EVENT};

fn strings(v: &[&str]) -> Vec<String> {
    v.iter().map(|s| s.to_string()).collect()
}

#[test]
fn forwarded_payload_is_unchanged() {
    let f = Forwarding::new(strings(&["skriv", "b.txt"]), "/tmp".to_string());
    assert_eq!(f.step, ForwardStep::EmitOpenFiles);
    assert_eq!(f.open_files_payload(), (strings(&["skriv", "b.txt"]), "/tmp".to_string()));
    assert_eq!(OPEN_FILES_EVENT, "open-files");
    assert_eq!(MAIN_WINDOW, "main");
}

#[test]
fn missing_window_still_emits_and_finishes() {
    let mut f = Forwarding::new(strings(&["skriv", "b.txt"]), "/tmp".to_string());
    let mut visited = vec![f.step];
    f.advance(true);
    visited.push(f.step);
    f.advance(false);
    visited.push(f.step);
    assert_eq!(visited, vec![ForwardStep::EmitOpenFiles, ForwardStep::FindMainWindow, ForwardStep::Done]);
    assert!(f.is_done());
}

#[test]
fn failures_do_not_stop_forwarding() {
    let mut f = Forwarding::new(Vec::new(), String::new());
    f.advance(false);
    assert_eq!(f.step, ForwardStep::FindMainWindow);
    f.advance(true);
    assert_eq!(f.step, ForwardStep::Unminimize);
    f.advance(false);
    assert_eq!(f.step, ForwardStep::Focus);
    f.advance(false);
    assert!(f.is_done());
    f.advance(true);
    assert!(f.is_done());
}
