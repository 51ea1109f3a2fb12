use acme_proxy_config::certificate::{install_commands, install_plan, install_runner, InstallError};
use acme_proxy_config::messages::{Answer, AnswerStatus, Command};
use acme_proxy_config::sequencer::{Outcome, Policy, RunnerStep, ScriptRunner};

// A minimal PEM block; its base64 payload decodes to the bytes 1, 2, 3, 4.
const CERT_PEM: &str = "-----BEGIN CERTIFICATE-----\nAQIDBA==\n-----END CERTIFICATE-----\n";

// The SHA-256 digest of the bytes 1, 2, 3, 4: the fingerprint of CERT_PEM.
const CERT_FINGERPRINT: [u8; 32] = [
    159, 100, 167, 71, 225, 185, 127, 19, 31, 171, 182, 180, 71, 41, 108, 155, 111, 2, 1, 231,
    159, 179, 197, 53, 110, 108, 119, 232, 155, 106, 128, 106,
];

const CHAIN_PEM: &str = "-----BEGIN CERTIFICATE-----\nAAAA\n-----END CERTIFICATE-----\n-----BEGIN CERTIFICATE-----\nBBBB\n-----END CERTIFICATE-----\n";

#[test]
fn full_install_script() {
    let plan = install_plan(
        "ID-abc123",
        "example.test",
        "",
        Some(CERT_PEM.to_string()),
        Some(CHAIN_PEM.to_string()),
        Some("KEY".to_string()),
    );
    let cmds = plan.expect("a loadable certificate must yield a script");
    assert_eq!(cmds.len(), 2);
    match &cmds[0] {
        Command::AddCertificate { certificate, chain, key, fingerprint, hostnames } => {
            assert_eq!(certificate, CERT_PEM);
            assert_eq!(
                chain,
                &vec![
                    "-----BEGIN CERTIFICATE-----\nAAAA\n-----END CERTIFICATE-----".to_string(),
                    "-----BEGIN CERTIFICATE-----\nBBBB\n-----END CERTIFICATE-----".to_string(),
                ]
            );
            assert_eq!(key, "KEY");
            assert_eq!(fingerprint.as_slice(), CERT_FINGERPRINT.as_slice());
            assert_eq!(hostnames, &vec!["example.test".to_string()]);
        }
        _ => panic!("the certificate must be installed first"),
    }
    match &cmds[1] {
        Command::AddRoute { app_id, hostname, path_prefix } => {
            assert_eq!(app_id, "ID-abc123");
            assert_eq!(hostname, "example.test");
            assert_eq!(path_prefix, "");
        }
        _ => panic!("the permanent route must follow the certificate"),
    }
}

#[test]
fn missing_certificate_short_circuits() {
    let plan = install_plan(
        "a",
        "h",
        "",
        None,
        Some(CHAIN_PEM.to_string()),
        Some("KEY".to_string()),
    );
    assert_eq!(plan.unwrap_err(), InstallError::MissingCertificate);
}

#[test]
fn unparseable_certificate_short_circuits() {
    let plan = install_plan(
        "a",
        "h",
        "",
        Some("not a certificate".to_string()),
        Some(CHAIN_PEM.to_string()),
        Some("KEY".to_string()),
    );
    assert_eq!(plan.unwrap_err(), InstallError::BadCertificate);
}

#[test]
fn missing_chain_short_circuits() {
    let plan = install_plan(
        "a",
        "h",
        "",
        Some(CERT_PEM.to_string()),
        None,
        Some("KEY".to_string()),
    );
    assert_eq!(plan.unwrap_err(), InstallError::MissingChain);
}

#[test]
fn missing_key_short_circuits() {
    let plan = install_plan(
        "a",
        "h",
        "",
        Some(CERT_PEM.to_string()),
        Some(CHAIN_PEM.to_string()),
        None,
    );
    assert_eq!(plan.unwrap_err(), InstallError::MissingKey);
}

#[test]
fn certificate_error_short_circuits_install() {
    let cmds = install_commands(
        "app",
        "example.test",
        "",
        "CERT".to_string(),
        vec![],
        "KEY".to_string(),
        vec![1, 2],
    );
    let mut runner = ScriptRunner::new(cmds, Policy::ShortCircuit, 4);
    let env = match runner.next_step() {
        RunnerStep::Dispatch(e) => e,
        RunnerStep::Finished(_) => panic!("expected the certificate dispatch"),
    };
    assert!(matches!(env.command, Command::AddCertificate { .. }));
    let refusal = Answer {
        id: env.id.clone(),
        status: AnswerStatus::Error,
        message: "unusable certificate".to_string(),
    };
    assert_eq!(runner.on_answer(Some(&refusal)), Outcome::Failure);
    // The permanent route is never sent after the refused certificate.
    match runner.next_step() {
        RunnerStep::Finished(ok) => assert!(!ok),
        RunnerStep::Dispatch(_) => panic!("the route must never be sent"),
    }
}

#[test]
fn install_runner_short_circuits_on_refusal() {
    let mut runner = install_runner(
        "ID-abc123",
        "example.test",
        "",
        Some(CERT_PEM.to_string()),
        Some(CHAIN_PEM.to_string()),
        Some("KEY".to_string()),
        4,
    )
    .expect("a loadable certificate must yield a runner");
    let env = match runner.next_step() {
        RunnerStep::Dispatch(e) => e,
        RunnerStep::Finished(_) => panic!("expected the certificate dispatch"),
    };
    assert_eq!(env.id, "ID-4");
    assert!(matches!(env.command, Command::AddCertificate { .. }));
    let refusal = Answer {
        id: env.id.clone(),
        status: AnswerStatus::Error,
        message: "unusable certificate".to_string(),
    };
    assert_eq!(runner.on_answer(Some(&refusal)), Outcome::Failure);
    // The runner comes bound to the short-circuit policy: the permanent
    // route is never sent after the refused certificate.
    match runner.next_step() {
        RunnerStep::Finished(ok) => assert!(!ok),
        RunnerStep::Dispatch(_) => panic!("the route must never be sent"),
    }
}

#[test]
fn install_runner_refuses_missing_key() {
    let refused = install_runner(
        "a",
        "h",
        "",
        Some(CERT_PEM.to_string()),
        Some(CHAIN_PEM.to_string()),
        None,
        0,
    );
    assert_eq!(refused.map(|_| ()).unwrap_err(), InstallError::MissingKey);
}

#[test]
fn install_commands_take_the_given_material() {
    let cmds = install_commands(
        "app",
        "example.test",
        "/prefix",
        "CERT".to_string(),
        vec!["C1".to_string(), "C2".to_string()],
        "KEY".to_string(),
        vec![7, 8, 9],
    );
    assert_eq!(cmds.len(), 2);
    match &cmds[0] {
        Command::AddCertificate { certificate, chain, key, fingerprint, hostnames } => {
            assert_eq!(certificate, "CERT");
            assert_eq!(chain, &vec!["C1".to_string(), "C2".to_string()]);
            assert_eq!(key, "KEY");
            assert_eq!(fingerprint, &vec![7, 8, 9]);
            assert_eq!(hostnames, &vec!["example.test".to_string()]);
        }
        _ => panic!("the certificate must come first"),
    }
    match &cmds[1] {
        Command::AddRoute { path_prefix, .. } => assert_eq!(path_prefix, "/prefix"),
        _ => panic!("the route must come second"),
    }
}
