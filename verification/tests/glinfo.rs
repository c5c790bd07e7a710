use glinfo::cli::CliAction;
use glinfo::cli::parse_args;
use glinfo::cli::usage_line;
use glinfo::negotiate::Attempt;
use glinfo::negotiate::first_attempt;
use glinfo::negotiate::next_attempt;
use glinfo::negotiate::tier_of_attempt;
use glinfo::pipeline::Event;
use glinfo::pipeline::Phase;
use glinfo::pipeline::output_text;
use glinfo::pipeline::step;
use glinfo::probe::decode_gl_string;
use glinfo::report::GLDriver;
use glinfo::report::GLInfo;

fn all_success_events(shading_language: Option<Vec<u8>>) -> Vec<Event> {
    vec![
        Event::DisplayInit { fault: None },
        Event::WindowAndConfig { fault: None },
        Event::ContextAttempt { granted: true },
        Event::Bind { fault: None },
        Event::StringsQueried {
            vendor: Some(b"ACME".to_vec()),
            renderer: Some(b"Rasterizer 3000".to_vec()),
            version: Some(b"4.6".to_vec()),
            shading_language,
        },
    ]
}

fn run(events: Vec<Event>) -> Phase {
    let mut phase = Phase::Uninitialized;
    for event in events {
        phase = step(phase, event);
    }
    phase
}

#[test]
fn tier_labels_are_exact() {
    assert_eq!(GLDriver::LibGL.label(), "LibGL");
    assert_eq!(GLDriver::LibGLES.label(), "LibGLES");
    assert_eq!(GLDriver::LegacyLibGL.label(), "libGL");
}

#[test]
fn negotiation_order_is_core_then_gles_then_legacy() {
    let first = first_attempt();
    assert_eq!(first, Attempt::Core);
    assert_eq!(tier_of_attempt(first), GLDriver::LibGL);
    let second = next_attempt(first).unwrap();
    assert_eq!(second, Attempt::Gles);
    assert_eq!(tier_of_attempt(second), GLDriver::LibGLES);
    let third = next_attempt(second).unwrap();
    assert_eq!(third, Attempt::Legacy);
    assert_eq!(tier_of_attempt(third), GLDriver::LegacyLibGL);
    assert!(next_attempt(third).is_none());
}

#[test]
fn first_granted_attempt_wins() {
    let phase = step(
        Phase::Negotiating { attempt: Attempt::Core },
        Event::ContextAttempt { granted: true },
    );
    assert!(matches!(phase, Phase::ContextCreated { tier: GLDriver::LibGL }));

    let phase = step(
        Phase::Negotiating { attempt: Attempt::Core },
        Event::ContextAttempt { granted: false },
    );
    assert!(matches!(phase, Phase::Negotiating { attempt: Attempt::Gles }));
    let phase = step(phase, Event::ContextAttempt { granted: true });
    assert!(matches!(phase, Phase::ContextCreated { tier: GLDriver::LibGLES }));

    let phase = step(
        Phase::Negotiating { attempt: Attempt::Gles },
        Event::ContextAttempt { granted: false },
    );
    assert!(matches!(phase, Phase::Negotiating { attempt: Attempt::Legacy }));
    let phase = step(phase, Event::ContextAttempt { granted: true });
    assert!(matches!(phase, Phase::ContextCreated { tier: GLDriver::LegacyLibGL }));
}

#[test]
fn exhausted_negotiation_fails_with_exact_message() {
    let mut phase = Phase::Negotiating { attempt: Attempt::Core };
    phase = step(phase, Event::ContextAttempt { granted: false });
    phase = step(phase, Event::ContextAttempt { granted: false });
    phase = step(phase, Event::ContextAttempt { granted: false });
    assert!(matches!(phase, Phase::Failed { .. }));
    assert_eq!(output_text(&phase), "ERROR: Failed to create GL context");
}

#[test]
fn rendered_report_has_four_exact_lines() {
    let report = GLInfo::assemble(
        GLDriver::LibGL,
        String::from("ACME"),
        String::from("Rasterizer 3000"),
        String::from("4.6"),
        String::from("4.60"),
    );
    assert_eq!(
        report.render(),
        "LibGL Vendor: ACME\nRenderer: Rasterizer 3000\nVersion: 4.6\nShading Language: 4.60"
    );
}

#[test]
fn rendered_report_contains_vendor_for_every_tier() {
    for driver in [GLDriver::LibGL, GLDriver::LibGLES, GLDriver::LegacyLibGL] {
        let report = GLInfo::assemble(
            driver,
            String::new(),
            String::new(),
            String::new(),
            String::new(),
        );
        assert!(report.render().contains("Vendor:"));
    }
}

#[test]
fn successful_run_reports_decoded_strings() {
    let phase = run(all_success_events(Some(b"4.60".to_vec())));
    match &phase {
        Phase::Reported { report } => {
            assert_eq!(report.driver, GLDriver::LibGL);
            assert_eq!(report.vendor, "ACME");
            assert_eq!(report.renderer, "Rasterizer 3000");
            assert_eq!(report.version, "4.6");
            assert_eq!(report.shading_language, "4.60");
        }
        other => panic!("expected a report, got {:?}", other),
    }
    assert_eq!(
        output_text(&phase),
        "LibGL Vendor: ACME\nRenderer: Rasterizer 3000\nVersion: 4.6\nShading Language: 4.60"
    );
}

#[test]
fn missing_shading_language_reports_empty_field() {
    let phase = run(all_success_events(None));
    match &phase {
        Phase::Reported { report } => {
            assert_eq!(report.shading_language, "");
            assert_eq!(report.vendor, "ACME");
        }
        other => panic!("expected a report, got {:?}", other),
    }
    assert!(output_text(&phase).ends_with("Shading Language: "));
}

#[test]
fn two_runs_on_same_events_print_identical_text() {
    let first = output_text(&run(all_success_events(Some(b"4.60".to_vec()))));
    let second = output_text(&run(all_success_events(Some(b"4.60".to_vec()))));
    assert_eq!(first, second);
}

#[test]
fn display_failure_carries_prefixed_message() {
    let phase = step(
        Phase::Uninitialized,
        Event::DisplayInit { fault: Some(String::from("no backend")) },
    );
    assert_eq!(output_text(&phase), "ERROR: Failed to create event loop: no backend");
}

#[test]
fn decode_maps_missing_string_to_empty_text() {
    assert_eq!(decode_gl_string(None), "");
}

#[test]
fn decode_keeps_valid_text_and_replaces_invalid_bytes() {
    assert_eq!(decode_gl_string(Some(b"Mesa".to_vec())), "Mesa");
    assert_eq!(decode_gl_string(Some(vec![0x41, 0xff, 0x42])), "A\u{fffd}B");
}

#[test]
fn help_is_recognized_only_as_sole_argument() {
    let args = vec![String::from("glinfo"), String::from("-h")];
    assert!(matches!(parse_args(&args), CliAction::Help));
    let args = vec![String::from("glinfo"), String::from("--help")];
    assert!(matches!(parse_args(&args), CliAction::Help));
    let args = vec![String::from("glinfo"), String::from("-h"), String::from("extra")];
    assert!(matches!(parse_args(&args), CliAction::Run { file: None }));
    let args = vec![String::from("glinfo")];
    assert!(matches!(parse_args(&args), CliAction::Run { file: None }));
}

#[test]
fn file_flag_carries_the_filename() {
    let args = vec![String::from("glinfo"), String::from("-f"), String::from("out.txt")];
    match parse_args(&args) {
        CliAction::Run { file: Some(name) } => assert_eq!(name, "out.txt"),
        other => panic!("expected a run with a file, got {:?}", other),
    }
    let args = vec![String::from("glinfo"), String::from("-f")];
    assert!(matches!(parse_args(&args), CliAction::Run { file: None }));
}

#[test]
fn usage_line_is_exact() {
    assert_eq!(usage_line(), "Usage: glinfo [-f filename]");
}
