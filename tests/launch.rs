use skriv::launch::LaunchContext;

fn strings(v: &[&str]) -> Vec<String> {
    v.iter().map(|s| s.to_string()).collect()
}

#[test]
fn launch_context_returns_captured_values_on_every_call() {
    let ctx = LaunchContext::capture(strings(&["skriv", "a.txt"]), Some("/home/u".to_string()));
    for _ in 0..3 {
        let (args, cwd) = ctx.get_cli_args();
        assert_eq!(args, strings(&["skriv", "a.txt"]));
        assert_eq!(cwd, "/home/u");
    }
}

#[test]
fn launch_context_without_directory_reports_empty() {
    let ctx = LaunchContext::capture(strings(&["skriv"]), None);
    assert_eq!(ctx.get_cli_args(), (strings(&["skriv"]), String::new()));
}

#[test]
fn launch_context_with_no_arguments() {
    let ctx = LaunchContext::capture(Vec::new(), Some("/".to_string()));
    assert_eq!(ctx.get_cli_args(), (Vec::new(), "/".to_string()));
}
