use argos_gui::data_types::{ParMeta, RawMeta, TemplateMeta};
use argos_gui::pipeline::{
    message, Outcome, PipeInput, PipeStage, PipelineApp, RunInfo, Status, STAGES,
};
use argos_gui::syncher::{Answer, Call, Message, Request, Step};

fn blank() -> PipeStage {
    PipeStage::Relaxed { raw: String::new(), ephemeride: 0, template: 0 }
}

fn nothing() -> PipeInput {
    PipeInput {
        raw: String::new(),
        ephemeride: 0,
        template: 0,
        grab: false,
        clear: false,
        write: false,
        run: false,
        restart: false,
    }
}

fn raw() -> RawMeta {
    RawMeta { id: 123, file_path: "/data/raw.ar".to_string(), pulsar_id: 4, observer_id: 2 }
}

fn par() -> ParMeta {
    ParMeta { id: 8, pulsar_id: 4, checksum: 99, file_path: "/data/p.par".to_string() }
}

fn template() -> TemplateMeta {
    TemplateMeta { id: 5, pulsar_id: 4, file_path: "/data/t.std".to_string(), checksum: 7 }
}

fn running() -> PipelineApp {
    let mut app = PipelineApp::new();
    app.set_up(raw(), None, template());
    let request = app.show(PipeInput { run: true, ..nothing() }, None);
    assert!(request.is_some());
    app
}

fn info(app: &PipelineApp) -> &RunInfo {
    match app.state() {
        PipeStage::Running(info) => info,
        other => panic!("not running: {:?}", other),
    }
}

#[test]
fn starts_with_nothing_entered() {
    let app = PipelineApp::new();
    assert_eq!(*app.state(), blank());
}

#[test]
fn entering_inputs_keeps_them() {
    let mut app = PipelineApp::new();
    let request = app.show(
        PipeInput { raw: "/a/b.ar".to_string(), ephemeride: 3, template: 9, ..nothing() },
        None,
    );
    assert_eq!(request, None);
    assert_eq!(
        *app.state(),
        PipeStage::Relaxed { raw: "/a/b.ar".to_string(), ephemeride: 3, template: 9 }
    );
}

#[test]
fn grabbing_takes_the_selected_ephemeride() {
    let mut app = PipelineApp::new();
    app.show(PipeInput { ephemeride: 3, grab: true, ..nothing() }, Some(41));
    assert_eq!(
        *app.state(),
        PipeStage::Relaxed { raw: String::new(), ephemeride: 41, template: 0 }
    );
    app.show(PipeInput { ephemeride: 3, grab: true, ..nothing() }, None);
    assert_eq!(
        *app.state(),
        PipeStage::Relaxed { raw: String::new(), ephemeride: 3, template: 0 }
    );
    app.show(PipeInput { ephemeride: 6, grab: false, ..nothing() }, Some(41));
    assert_eq!(
        *app.state(),
        PipeStage::Relaxed { raw: String::new(), ephemeride: 6, template: 0 }
    );
}

#[test]
fn submitting_sends_a_setup_request() {
    let mut app = PipelineApp::new();
    let request = app.show(
        PipeInput { raw: "123".to_string(), ephemeride: 0, template: 5, write: true, ..nothing() },
        None,
    );
    assert_eq!(
        request,
        Some(Request::SetupPipes {
            raw: "123".to_string(),
            ephemeride: String::new(),
            template: "5".to_string(),
        })
    );
    assert_eq!(
        *app.state(),
        PipeStage::SettingUp { raw: "123".to_string(), ephemeride: 0, template: 5 }
    );
}

#[test]
fn submitting_writes_the_ids_in_decimal() {
    let mut app = PipelineApp::new();
    let request = app.show(
        PipeInput {
            raw: "r".to_string(),
            ephemeride: 2147483647,
            template: 1050,
            write: true,
            ..nothing()
        },
        None,
    );
    assert_eq!(
        request,
        Some(Request::SetupPipes {
            raw: "r".to_string(),
            ephemeride: "2147483647".to_string(),
            template: "1050".to_string(),
        })
    );
}

#[test]
fn submitting_needs_a_raw_file_and_a_template() {
    let mut app = PipelineApp::new();
    let request =
        app.show(PipeInput { raw: String::new(), template: 5, write: true, ..nothing() }, None);
    assert_eq!(request, None);
    assert_eq!(
        *app.state(),
        PipeStage::Relaxed { raw: String::new(), ephemeride: 0, template: 5 }
    );
    let request =
        app.show(PipeInput { raw: "x".to_string(), template: 0, write: true, ..nothing() }, None);
    assert_eq!(request, None);
    assert_eq!(
        *app.state(),
        PipeStage::Relaxed { raw: "x".to_string(), ephemeride: 0, template: 0 }
    );
}

#[test]
fn clearing_empties_the_inputs() {
    let mut app = PipelineApp::new();
    app.show(PipeInput { raw: "x".to_string(), template: 3, ..nothing() }, None);
    let request =
        app.show(PipeInput { raw: "x".to_string(), template: 3, clear: true, ..nothing() }, None);
    assert_eq!(request, None);
    assert_eq!(*app.state(), blank());
}

#[test]
fn inputs_are_frozen_while_they_are_resolved() {
    let mut app = PipelineApp::new();
    app.show(PipeInput { raw: "x".to_string(), template: 3, write: true, ..nothing() }, None);
    let request = app.show(
        PipeInput {
            raw: "other".to_string(),
            ephemeride: 9,
            template: 4,
            grab: true,
            clear: true,
            write: true,
            run: true,
            restart: true,
        },
        Some(77),
    );
    assert_eq!(request, None);
    assert_eq!(
        *app.state(),
        PipeStage::SettingUp { raw: "x".to_string(), ephemeride: 0, template: 3 }
    );
    assert!(app.is_setting_up());
}

#[test]
fn set_up_holds_the_resolved_inputs() {
    let mut app = PipelineApp::new();
    app.set_up(raw(), Some(par()), template());
    assert_eq!(
        *app.state(),
        PipeStage::SetUp { raw: raw(), ephemeride: Some(par()), template: template() }
    );
    assert_eq!(app.show(nothing(), None), None);
    assert_eq!(
        *app.state(),
        PipeStage::SetUp { raw: raw(), ephemeride: Some(par()), template: template() }
    );
}

#[test]
fn running_sends_a_run_request_and_starts_a_fresh_run() {
    let mut app = PipelineApp::new();
    app.set_up(raw(), Some(par()), template());
    let request = app.show(PipeInput { run: true, ..nothing() }, None);
    assert_eq!(
        request,
        Some(Request::RunPipeline { raw: raw(), ephemeride: Some(par()), template: template() })
    );
    assert_eq!(*app.state(), PipeStage::Running(RunInfo::default()));
    assert_eq!(info(&app).status, Status::Idle);
    assert!(!info(&app).errored);
}

#[test]
fn resetting_resolved_inputs_wins_over_running() {
    let mut app = PipelineApp::new();
    app.set_up(raw(), None, template());
    let request = app.show(PipeInput { run: true, clear: true, ..nothing() }, None);
    assert_eq!(request, None);
    assert_eq!(*app.state(), blank());
}

#[test]
fn interrupt_ends_a_run() {
    let mut app = running();
    app.set_status(Status::Manipulating);
    app.interrupt();
    assert_eq!(*app.state(), blank());
}

#[test]
fn interrupt_leaves_input_entry_alone() {
    let mut app = PipelineApp::new();
    app.show(PipeInput { raw: "x".to_string(), ephemeride: 1, template: 3, ..nothing() }, None);
    app.interrupt();
    assert_eq!(
        *app.state(),
        PipeStage::Relaxed { raw: "x".to_string(), ephemeride: 1, template: 3 }
    );
}

#[test]
fn interrupt_leaves_resolving_and_resolved_inputs_alone() {
    let mut app = PipelineApp::new();
    app.show(PipeInput { raw: "x".to_string(), template: 3, write: true, ..nothing() }, None);
    app.interrupt();
    assert_eq!(
        *app.state(),
        PipeStage::SettingUp { raw: "x".to_string(), ephemeride: 0, template: 3 }
    );
    app.set_up(raw(), None, template());
    app.interrupt();
    assert_eq!(*app.state(), PipeStage::SetUp { raw: raw(), ephemeride: None, template: template() });
}

#[test]
fn reset_leads_to_input_entry_from_anywhere() {
    let mut app = running();
    app.reset();
    assert_eq!(*app.state(), blank());
    app.set_up(raw(), None, template());
    app.reset();
    assert_eq!(*app.state(), blank());
}

#[test]
fn a_status_without_a_run_is_ignored() {
    let mut app = PipelineApp::new();
    app.set_status(Status::GotTOAs(12));
    assert_eq!(*app.state(), blank());
    app.show(PipeInput { raw: "x".to_string(), template: 3, ..nothing() }, None);
    app.set_status(Status::Error("late".to_string()));
    assert_eq!(
        *app.state(),
        PipeStage::Relaxed { raw: "x".to_string(), ephemeride: 0, template: 3 }
    );
    app.show(PipeInput { raw: "x".to_string(), template: 3, write: true, ..nothing() }, None);
    app.set_status(Status::Finished(9));
    assert_eq!(
        *app.state(),
        PipeStage::SettingUp { raw: "x".to_string(), ephemeride: 0, template: 3 }
    );
    app.set_up(raw(), Some(par()), template());
    app.set_status(Status::Manipulating);
    assert_eq!(
        *app.state(),
        PipeStage::SetUp { raw: raw(), ephemeride: Some(par()), template: template() }
    );
}

#[test]
fn a_status_after_a_reset_is_ignored() {
    let mut app = running();
    app.set_status(Status::GotTOAs(12));
    app.reset();
    app.set_status(Status::ArchivedTOAs(12));
    app.set_status(Status::Finished(5));
    assert_eq!(*app.state(), blank());
}

#[test]
fn an_unset_ephemeride_goes_out_as_no_text() {
    let mut app = PipelineApp::new();
    let request = app.show(
        PipeInput { raw: "r".to_string(), ephemeride: 3, template: 1, grab: true, write: true, ..nothing() },
        None,
    );
    assert_eq!(
        request,
        Some(Request::SetupPipes {
            raw: "r".to_string(),
            ephemeride: "3".to_string(),
            template: "1".to_string(),
        })
    );
    let mut app = PipelineApp::new();
    let request = app.show(
        PipeInput { raw: "r".to_string(), ephemeride: 0, template: 1, grab: true, write: true, ..nothing() },
        Some(41),
    );
    assert_eq!(
        request,
        Some(Request::SetupPipes {
            raw: "r".to_string(),
            ephemeride: "41".to_string(),
            template: "1".to_string(),
        })
    );
    let mut app = PipelineApp::new();
    let request = app.show(
        PipeInput { raw: "r".to_string(), ephemeride: 7, template: 1, grab: true, write: true, ..nothing() },
        Some(0),
    );
    assert_eq!(
        request,
        Some(Request::SetupPipes {
            raw: "r".to_string(),
            ephemeride: String::new(),
            template: "1".to_string(),
        })
    );
}

#[test]
fn an_unset_ephemeride_is_resolved_to_none() {
    let mut app = PipelineApp::new();
    let request = app
        .show(
            PipeInput { raw: "123".to_string(), ephemeride: 0, template: 5, write: true, ..nothing() },
            None,
        )
        .unwrap();
    let (handler, call) = request.handle();
    assert_eq!(call, Call::ParseRaw("123".to_string()));
    let step = handler.resume(Answer::Raw(raw()));
    let handler = match step {
        Step::Ask(handler, call) => {
            assert_eq!(call, Call::ParseTemplate(raw(), "5".to_string()));
            handler
        }
        other => panic!("{:?}", other),
    };
    assert_eq!(
        handler.resume(Answer::Template(template())),
        Step::Reply(Message::PipesSetUp(raw(), None, template()))
    );
}

#[test]
fn progress_is_added_up() {
    let mut app = running();
    app.set_status(Status::Starting {
        raw: "r".to_string(),
        pulsar: ("J0000+0000".to_string(), 4),
        ephemeride: None,
        template: 5,
    });
    app.set_status(Status::Copying("a".to_string(), "b".to_string()));
    app.set_status(Status::GeneratingTOAs);
    app.set_status(Status::GotTOAs(12));
    app.set_status(Status::ParsingTOAs);
    app.set_status(Status::ArchivedTOAs(11));
    app.set_status(Status::Diagnosing(2));
    app.set_status(Status::FinishedDiagnostic { diagnostic: "snr".to_string(), passed: true });
    app.set_status(Status::FinishedDiagnostic { diagnostic: "composite".to_string(), passed: false });
    app.set_status(Status::ArchivedTOAPlots(Some(3)));
    app.set_status(Status::Finished(125_000_000));
    let info = info(&app);
    assert_eq!(info.status, Status::Finished(125_000_000));
    assert!(!info.errored);
    assert_eq!(info.generated_toas, Some(12));
    assert_eq!(info.archived_toas, Some(11));
    assert_eq!(
        info.diagnosed,
        (2, vec![("snr".to_string(), true), ("composite".to_string(), false)])
    );
    assert_eq!(info.archived_plots, Some(3));
    assert_eq!(info.done, Some(125_000_000));
    assert!(info.is_over());
}

#[test]
fn an_error_is_sticky() {
    let mut app = running();
    app.set_status(Status::Manipulating);
    app.set_status(Status::Error("pam failed".to_string()));
    assert!(info(&app).errored);
    assert_eq!(info(&app).status, Status::Manipulating);
    app.set_status(Status::GeneratingTOAs);
    app.set_status(Status::GotTOAs(3));
    app.set_status(Status::Finished(10));
    assert!(info(&app).errored);
    assert_eq!(info(&app).generated_toas, Some(3));
    assert!(info(&app).is_over());
}

#[test]
fn the_stage_never_falls() {
    let mut info = RunInfo::default();
    info.absorb(Status::ParsingTOAs);
    info.absorb(Status::Copying("a".to_string(), "b".to_string()));
    assert_eq!(info.status, Status::ParsingTOAs);
    info.absorb(Status::ArchivedTOAs(4));
    assert_eq!(info.status, Status::ArchivedTOAs(4));
    info.absorb(Status::Idle);
    assert_eq!(info.status, Status::ArchivedTOAs(4));
}

#[test]
fn counts_and_duration_are_taken_once() {
    let mut info = RunInfo::default();
    info.absorb(Status::GotTOAs(5));
    info.absorb(Status::GotTOAs(6));
    assert_eq!(info.generated_toas, Some(5));
    info.absorb(Status::ArchivedTOAs(1));
    info.absorb(Status::ArchivedTOAs(2));
    assert_eq!(info.archived_toas, Some(1));
    info.absorb(Status::Finished(100));
    info.absorb(Status::Finished(200));
    assert_eq!(info.done, Some(100));
}

#[test]
fn diagnostics_are_never_removed() {
    let mut info = RunInfo::default();
    info.absorb(Status::Diagnosing(3));
    info.absorb(Status::FinishedDiagnostic { diagnostic: "a".to_string(), passed: true });
    info.absorb(Status::Diagnosing(5));
    assert_eq!(info.diagnosed, (5, vec![("a".to_string(), true)]));
    info.absorb(Status::ArchivedTOAPlots(None));
    assert_eq!(info.archived_plots, None);
    info.absorb(Status::ArchivedTOAPlots(Some(0)));
    assert_eq!(info.archived_plots, Some(0));
}

#[test]
fn stage_indices_and_headings() {
    assert_eq!(STAGES, 10);
    assert_eq!(Status::Idle.stage_index(), 0);
    assert_eq!(Status::Error("e".to_string()).stage_index(), 0);
    assert_eq!(Status::Copying("a".to_string(), "b".to_string()).stage_index(), 1);
    assert_eq!(Status::InstallingEphemeride.stage_index(), 2);
    assert_eq!(Status::Manipulating.stage_index(), 3);
    assert_eq!(Status::VerifyingTemplate.stage_index(), 4);
    assert_eq!(Status::GeneratingTOAs.stage_index(), 5);
    assert_eq!(Status::GotTOAs(1).stage_index(), 5);
    assert_eq!(Status::LoggingProcess.stage_index(), 6);
    assert_eq!(Status::ParsingTOAs.stage_index(), 7);
    assert_eq!(Status::ArchivedTOAs(1).stage_index(), 7);
    assert_eq!(Status::Diagnosing(1).stage_index(), 8);
    assert_eq!(Status::ArchivedTOAPlots(None).stage_index(), 8);
    assert_eq!(Status::Finished(1).stage_index(), 9);
    assert_eq!(message(0), "Preparing");
    assert_eq!(message(5), "Generating TOAs");
    assert_eq!(message(8), "Running diagnostics");
    assert_eq!(message(9), "Finished!");
}

#[test]
fn a_run_waits_for_the_user_once_it_is_over() {
    let mut app = running();
    app.set_status(Status::Manipulating);
    assert_eq!(app.show(PipeInput { restart: true, ..nothing() }, None), None);
    assert!(matches!(app.state(), PipeStage::Running(_)));
    app.set_status(Status::Finished(5));
    assert_eq!(app.show(nothing(), None), None);
    assert!(matches!(app.state(), PipeStage::Running(_)));
    assert_eq!(app.show(PipeInput { restart: true, ..nothing() }, None), None);
    assert_eq!(*app.state(), blank());
}

#[test]
fn a_failed_run_can_be_started_over() {
    let mut app = running();
    app.set_status(Status::Error("boom".to_string()));
    app.show(PipeInput { restart: true, ..nothing() }, None);
    assert_eq!(*app.state(), blank());
}

#[test]
fn no_report_without_a_run() {
    let app = PipelineApp::new();
    assert_eq!(app.report(), None);
}

#[test]
fn report_of_a_fresh_run() {
    let app = running();
    let report = app.report().unwrap();
    assert!(report.passed.is_empty());
    assert_eq!(report.current, "Preparing");
    assert_eq!(report.outcome, Outcome::Working);
    assert!(!report.restart);
}

#[test]
fn report_of_a_finished_run() {
    let mut info = RunInfo::default();
    info.absorb(Status::GotTOAs(12));
    info.absorb(Status::ArchivedTOAs(11));
    info.absorb(Status::Diagnosing(2));
    info.absorb(Status::FinishedDiagnostic { diagnostic: "snr".to_string(), passed: true });
    info.absorb(Status::FinishedDiagnostic { diagnostic: "composite".to_string(), passed: false });
    info.absorb(Status::ArchivedTOAPlots(Some(3)));
    info.absorb(Status::Finished(125_000_000));
    let report = info.report();
    assert_eq!(report.passed.len(), 9);
    assert_eq!(report.passed[0].heading, "Preparing");
    assert_eq!(report.passed[0].note, Some("✔".to_string()));
    assert!(report.passed[0].details.is_empty());
    assert_eq!(report.passed[5].heading, "Generating TOAs");
    assert_eq!(report.passed[5].note, Some("➡ Got 12 TOA(s)!".to_string()));
    assert_eq!(report.passed[7].note, Some("➡ Archived 11 TOA(s)!".to_string()));
    assert_eq!(report.passed[8].heading, "Running diagnostics");
    assert_eq!(report.passed[8].note, Some("2 / 2".to_string()));
    assert_eq!(
        report.passed[8].details,
        vec![
            "\tsnr ✔".to_string(),
            "\tcomposite ❌".to_string(),
            "\tArchived 3 psrchive plots!".to_string()
        ]
    );
    assert_eq!(report.current, "Finished!");
    assert_eq!(report.outcome, Outcome::Done("Time elapsed 2 m 5 s".to_string()));
    assert!(report.restart);
}

#[test]
fn report_without_counts_and_with_failed_plots() {
    let mut info = RunInfo::default();
    info.absorb(Status::ArchivedTOAPlots(Some(0)));
    info.absorb(Status::Finished(1));
    let report = info.report();
    assert_eq!(report.passed[5].note, None);
    assert_eq!(report.passed[7].note, None);
    assert_eq!(report.passed[8].note, Some("0 / 0".to_string()));
    assert_eq!(report.passed[8].details, vec!["\tFailed to archive psrchive plots!".to_string()]);
    assert_eq!(report.outcome, Outcome::Done("Time elapsed 1 μs".to_string()));
}

#[test]
fn report_of_a_failed_run_shows_the_failure() {
    let mut info = RunInfo::default();
    info.absorb(Status::Manipulating);
    info.absorb(Status::Error("x".to_string()));
    info.absorb(Status::Finished(7));
    let report = info.report();
    assert_eq!(report.outcome, Outcome::Failed);
    assert!(report.restart);
    assert_eq!(report.current, "Finished!");
}

fn elapsed(micros: u64) -> String {
    let mut info = RunInfo::default();
    info.absorb(Status::Finished(micros));
    match info.report().outcome {
        Outcome::Done(words) => words,
        other => panic!("not done: {:?}", other),
    }
}

#[test]
fn durations_are_written_in_the_fitting_unit() {
    assert_eq!(elapsed(0), "Time elapsed 0 μs");
    assert_eq!(elapsed(999), "Time elapsed 999 μs");
    assert_eq!(elapsed(1000), "Time elapsed 1 ms");
    assert_eq!(elapsed(999_999), "Time elapsed 999 ms");
    assert_eq!(elapsed(1_000_000), "Time elapsed 1 s");
    assert_eq!(elapsed(59_999_999), "Time elapsed 59 s");
    assert_eq!(elapsed(60_000_000), "Time elapsed 1 m 0 s");
    assert_eq!(elapsed(3_725_000_000), "Time elapsed 62 m 5 s");
}
