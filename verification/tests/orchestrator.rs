use acme_proxy_config::orchestrator::{Orchestrator, Phase};

#[test]
fn teardown_then_install() {
    let mut run = Orchestrator::new();
    assert_eq!(run.phase, Phase::SettingUp);
    run.setup_finished(true);
    assert_eq!(run.phase, Phase::Validating);
    run.validation_finished(true);
    assert_eq!(run.phase, Phase::TearingDown);
    // Teardown failed — the install path is taken regardless.
    run.teardown_finished(false);
    assert_eq!(run.phase, Phase::Saving);
    run.save_finished(true);
    assert_eq!(run.phase, Phase::Installing);
    run.install_finished(true);
    assert_eq!(run.phase, Phase::Finished { success: true });
}

#[test]
fn setup_failure_aborts() {
    let mut run = Orchestrator::new();
    run.setup_finished(false);
    assert_eq!(run.phase, Phase::Aborted);
}

#[test]
fn unobserved_challenge_finishes_without_install() {
    let mut run = Orchestrator::new();
    run.setup_finished(true);
    run.validation_finished(false);
    assert_eq!(run.phase, Phase::Finished { success: false });
}

#[test]
fn failed_save_finishes_without_install() {
    let mut run = Orchestrator::new();
    run.setup_finished(true);
    run.validation_finished(true);
    run.teardown_finished(true);
    run.save_finished(false);
    assert_eq!(run.phase, Phase::Finished { success: false });
}

#[test]
fn failed_install_marks_run_unsuccessful() {
    let mut run = Orchestrator::new();
    run.setup_finished(true);
    run.validation_finished(true);
    run.teardown_finished(true);
    run.save_finished(true);
    run.install_finished(false);
    assert_eq!(run.phase, Phase::Finished { success: false });
}
