use skriv::launcher::{
    decide_install, finish_install, plan_install, privileged_install_script, quote_for_applescript,
    InstallDecision, InstallOutcome, InstallStep, Installer, ToolRun, INSTALL_PATH,
    LAUNCHER_SCRIPT, UNSUPPORTED_MESSAGE,
};

const EXPECTED_SCRIPT: &str = "do shell script \"printf '#!/bin/sh\\n/Applications/skriv.app/Contents/MacOS/app \\\"$@\\\" &\\n' > /usr/local/bin/skriv && chmod +x /usr/local/bin/skriv\" with administrator privileges";

#[test]
fn missing_launcher_is_written() {
    assert_eq!(decide_install(Installer::UnixPrivileged, &None), InstallDecision::Write);
}

#[test]
fn identical_launcher_is_not_written() {
    let current = Some(LAUNCHER_SCRIPT.to_string());
    assert_eq!(decide_install(Installer::UnixPrivileged, &current), InstallDecision::AlreadyInstalled);
}

#[test]
fn launcher_differing_by_one_byte_is_written() {
    let mut text = LAUNCHER_SCRIPT.to_string();
    text.pop();
    text.push(' ');
    assert_eq!(decide_install(Installer::UnixPrivileged, &Some(text)), InstallDecision::Write);
    let longer = format!("{}\n", LAUNCHER_SCRIPT);
    assert_eq!(decide_install(Installer::UnixPrivileged, &Some(longer)), InstallDecision::Write);
    assert_eq!(decide_install(Installer::UnixPrivileged, &Some(String::new())), InstallDecision::Write);
}

#[test]
fn unsupported_platform_is_reported() {
    let current = Some(LAUNCHER_SCRIPT.to_string());
    assert_eq!(decide_install(Installer::Unsupported, &current), InstallDecision::Unsupported);
    assert_eq!(
        plan_install(Installer::Unsupported, &None),
        InstallStep::Report(Err(UNSUPPORTED_MESSAGE.to_string()))
    );
    assert_eq!(UNSUPPORTED_MESSAGE, "CLI installation is only supported on macOS");
}

#[test]
fn plan_reports_already_installed() {
    let current = Some(LAUNCHER_SCRIPT.to_string());
    assert_eq!(
        plan_install(Installer::UnixPrivileged, &current),
        InstallStep::Report(Ok(InstallOutcome::AlreadyInstalled))
    );
}

#[test]
fn plan_elevates_with_exact_script() {
    match plan_install(Installer::UnixPrivileged, &Some("old".to_string())) {
        InstallStep::Elevate(script) => assert_eq!(script, EXPECTED_SCRIPT),
        other => panic!("unexpected step {:?}", other),
    }
}

#[test]
fn privileged_script_names_path_twice() {
    assert_eq!(privileged_install_script(INSTALL_PATH, LAUNCHER_SCRIPT), EXPECTED_SCRIPT);
    assert_eq!(
        privileged_install_script("/p", "x"),
        "do shell script \"printf 'x' > /p && chmod +x /p\" with administrator privileges"
    );
}

#[test]
fn quoting_escapes_newlines_quotes_and_backslashes() {
    assert_eq!(quote_for_applescript("a\"b\\c\nd"), "a\\\"b\\\\c\\nd");
    assert_eq!(quote_for_applescript(""), "");
    assert_eq!(quote_for_applescript("plain é"), "plain é");
}

#[test]
fn successful_tool_run_is_installed() {
    let run = ToolRun { success: true, stderr: String::new() };
    assert_eq!(finish_install(Ok(run)), Ok(InstallOutcome::Installed));
}

#[test]
fn failed_tool_run_keeps_diagnostic_text() {
    let run = ToolRun { success: false, stderr: "operation not permitted".to_string() };
    assert_eq!(finish_install(Ok(run)), Err("operation not permitted".to_string()));
}

#[test]
fn tool_that_cannot_start_keeps_its_reason() {
    let reason = "No such file or directory (os error 2)".to_string();
    assert_eq!(finish_install(Err(reason.clone())), Err(reason));
}

#[test]
fn outcome_labels() {
    assert_eq!(InstallOutcome::AlreadyInstalled.label(), "already_installed");
    assert_eq!(InstallOutcome::Installed.label(), "installed");
}

#[test]
fn repeated_installs_write_once() {
    let mut disk: Option<String> = Some("stale".to_string());
    let mut writes = 0;
    let mut results = Vec::new();
    for _ in 0..5 {
        let result = match plan_install(Installer::UnixPrivileged, &disk) {
            InstallStep::Report(r) => r,
            InstallStep::Elevate(_) => {
                writes += 1;
                disk = Some(LAUNCHER_SCRIPT.to_string());
                finish_install(Ok(ToolRun { success: true, stderr: String::new() }))
            }
        };
        results.push(result);
    }
    assert_eq!(writes, 1);
    assert_eq!(results[0], Ok(InstallOutcome::Installed));
    for r in &results[1..] {
        assert_eq!(*r, Ok(InstallOutcome::AlreadyInstalled));
    }
}
