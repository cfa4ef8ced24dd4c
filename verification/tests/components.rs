//! Component-level checks: path derivation, the strategy planner, the
//! removal policy and the rendering of outcomes.

use invoice_print::artifact::{artifact_path, remove_succeeded, RemoveReport};
use invoice_print::outcome::{PrintError, PrintOutcome, render_result};
use invoice_print::strategy::{
    extension, interpret_report, plan_print, success_message, Platform, ProcessReport,
    StrategyKind,
};

const ALL_STRATEGIES: [StrategyKind; 3] =
    [StrategyKind::OpenDefault, StrategyKind::ShellPrintVerb, StrategyKind::RasterHelper];

#[test]
fn artifact_paths_follow_the_pattern() {
    assert_eq!(artifact_path("/tmp/pos", "42", "html"), "/tmp/pos/invoice_42.html");
    assert_eq!(artifact_path("/tmp/pos", "INV-1", "png"), "/tmp/pos/invoice_INV-1.png");
    assert_eq!(artifact_path("", "", ""), "/invoice_.");
}

#[test]
fn distinct_identifiers_give_distinct_paths() {
    let a = artifact_path("/tmp/pos", "1", "html");
    let b = artifact_path("/tmp/pos", "2", "html");
    assert_ne!(a, b);
    // Identifiers of different lengths cannot collide either.
    let c = artifact_path("/tmp/pos", "1.html", "html");
    assert_ne!(a, c);
}

#[test]
fn every_strategy_is_unsupported_off_windows() {
    for kind in ALL_STRATEGIES {
        match plan_print(kind, Platform::Other, "/tmp/pos/invoice_1.html") {
            Err(PrintError::UnsupportedPlatform) => {}
            other => panic!("expected UnsupportedPlatform, got {:?}", other),
        }
    }
    assert_eq!(
        PrintError::UnsupportedPlatform.message(),
        "Printing is only supported on Windows"
    );
}

#[test]
fn planned_commands_match_each_strategy() {
    let path = "/tmp/pos/invoice_1.html";
    let open = plan_print(StrategyKind::OpenDefault, Platform::Windows, path).unwrap();
    assert_eq!(open.program, "cmd.exe");
    assert_eq!(open.args, vec!["/C", "start", "", path]);

    let verb = plan_print(StrategyKind::ShellPrintVerb, Platform::Windows, path).unwrap();
    assert_eq!(verb.program, "powershell.exe");
    assert_eq!(
        verb.args,
        vec![
            "-NoProfile",
            "-WindowStyle",
            "Hidden",
            "-Command",
            "Start-Process",
            "-FilePath",
            path,
            "-Verb",
            "Print"
        ]
    );

    let raster = plan_print(StrategyKind::RasterHelper, Platform::Windows, "/tmp/scan.png").unwrap();
    assert_eq!(raster.program, "mspaint.exe");
    assert_eq!(raster.args, vec!["/pt", "/tmp/scan.png"]);
}

#[test]
fn extensions_match_each_strategy() {
    assert_eq!(extension(StrategyKind::OpenDefault), "html");
    assert_eq!(extension(StrategyKind::ShellPrintVerb), "html");
    assert_eq!(extension(StrategyKind::RasterHelper), "png");
}

#[test]
fn success_messages_match_each_strategy() {
    assert_eq!(success_message(StrategyKind::OpenDefault), "Invoice opened for printing");
    assert_eq!(success_message(StrategyKind::ShellPrintVerb), "Invoice sent to printer");
    assert_eq!(success_message(StrategyKind::RasterHelper), "Invoice sent to printer");
}

#[test]
fn process_reports_are_interpreted_by_launch_and_exit() {
    assert!(interpret_report(ProcessReport::Completed {
        success: true,
        stderr: String::new()
    })
    .is_ok());
    match interpret_report(ProcessReport::Completed {
        success: false,
        stderr: "out of paper".to_string(),
    }) {
        Err(PrintError::PrintCommand { stderr }) => assert_eq!(stderr, "out of paper"),
        other => panic!("expected PrintCommand, got {:?}", other),
    }
    match interpret_report(ProcessReport::LaunchFailed { detail: "spawn denied".to_string() }) {
        Err(PrintError::ProcessLaunch { detail }) => assert_eq!(detail, "spawn denied"),
        other => panic!("expected ProcessLaunch, got {:?}", other),
    }
}

#[test]
fn removal_swallows_not_found_but_not_other_failures() {
    // A second removal of the same artifact sees "file not found" and still
    // counts as success.
    assert!(remove_succeeded(RemoveReport::Removed));
    assert!(remove_succeeded(RemoveReport::NotFound));
    assert!(!remove_succeeded(RemoveReport::Failed));

    let mut files = std::collections::HashMap::new();
    files.insert("/tmp/pos/invoice_1.html".to_string(), b"x".to_vec());
    let first = match files.remove("/tmp/pos/invoice_1.html") {
        Some(_) => RemoveReport::Removed,
        None => RemoveReport::NotFound,
    };
    let second = match files.remove("/tmp/pos/invoice_1.html") {
        Some(_) => RemoveReport::Removed,
        None => RemoveReport::NotFound,
    };
    assert!(matches!(first, RemoveReport::Removed));
    assert!(matches!(second, RemoveReport::NotFound));
    assert!(remove_succeeded(first));
    assert!(remove_succeeded(second));
}

#[test]
fn outcomes_render_as_json_and_errors_as_diagnostics() {
    let outcome =
        PrintOutcome { success: true, message: "Invoice opened for printing".to_string() };
    // The rendered object is real JSON, not the message handed back: the
    // fields appear under their keys, with the message quoted.
    assert_eq!(
        outcome.to_json(),
        "{\"message\":\"Invoice opened for printing\",\"success\":true}"
    );
    let quoted = PrintOutcome { success: false, message: "say \"done\"".to_string() };
    assert_eq!(quoted.to_json(), "{\"message\":\"say \\\"done\\\"\",\"success\":false}");

    assert_eq!(
        render_result(&Ok(outcome)),
        Ok("{\"message\":\"Invoice opened for printing\",\"success\":true}".to_string())
    );
    assert_eq!(
        render_result(&Err(PrintError::NotFound { path: "/tmp/a.png".to_string() })),
        Err("Image file not found: /tmp/a.png".to_string())
    );
    assert_eq!(
        render_result(&Err(PrintError::InvalidRequest)),
        Err(
            "Invalid print request: exactly one of document payload and source path must be given"
                .to_string()
        )
    );
}
