//! Scripting the certificate installation: the fingerprint and chain
//! handling rely on the proxy's own command library, so that the installed
//! certificate carries exactly the reference identity the proxy computes.

use vstd::prelude::*;
use crate::messages::{Command, CommandV, cmds_view};
use crate::sequencer::{Policy, ScriptRunner};

verus! {

/// The SHA-256 fingerprint the proxy's command library computes for a
/// PEM-encoded certificate — a function of the text alone.
pub uninterp spec fn fingerprint_of(pem: Seq<char>) -> Seq<u8>;

/// Whether the proxy's command library can compute a fingerprint for this
/// text — whether it parses as PEM; a function of the text alone.
pub uninterp spec fn fingerprint_exists(pem: Seq<char>) -> bool;

/// The PEM blocks the proxy's command library splits a certificate chain
/// into — a function of the text alone.
pub uninterp spec fn chain_blocks_of(chain: Seq<char>) -> Seq<Seq<char>>;

#[verifier::external_type_specification]
#[verifier::external_body]
pub struct ExCertificateError(sozu_command_lib::certificate::CertificateError);

/// Relies on `sozu_command_lib::certificate::calculate_fingerprint`: it
/// parses the text as PEM and, exactly when that parse succeeds, returns the
/// SHA-256 digest of the decoded contents — both the success and the digest
/// are deterministic functions of the text alone.
#[verifier::external_body]
fn fingerprint_pem(certificate: &str) -> (r: Result<
    Vec<u8>,
    sozu_command_lib::certificate::CertificateError,
>)
    ensures
        r is Ok <==> fingerprint_exists(certificate@),
        r matches Ok(f) ==> f@ == fingerprint_of(certificate@),
{
    sozu_command_lib::certificate::calculate_fingerprint(certificate.as_bytes())
}

/// Relies on `sozu_command_lib::certificate::split_certificate_chain`: cuts
/// the concatenated PEM blocks of a chain apart — a function of the text
/// alone.
#[verifier::external_body]
fn split_chain(chain: String) -> (r: Vec<String>)
    ensures
        r.deep_view() == chain_blocks_of(chain@),
{
    sozu_command_lib::certificate::split_certificate_chain(chain)
}

/// Why an installation could not even be scripted.  In each case the control
/// channel is never contacted.
#[derive(Clone, Copy, PartialEq, Eq, Structural, Debug)]
pub enum InstallError {
    /// The certificate file could not be loaded.
    MissingCertificate,
    /// The certificate text does not parse, so no fingerprint exists for it.
    BadCertificate,
    /// The chain file could not be loaded.
    MissingChain,
    /// The key file could not be loaded.
    MissingKey,
}

/// The script that installs a certificate permanently: the certificate with
/// its chain, key and fingerprint, then the route binding the hostname.
pub open spec fn install_script_spec(
    app_id: Seq<char>,
    hostname: Seq<char>,
    path_prefix: Seq<char>,
    certificate: Seq<char>,
    chain: Seq<Seq<char>>,
    key: Seq<char>,
    fingerprint: Seq<u8>,
) -> Seq<CommandV> {
    seq![
        CommandV::AddCertificate { certificate, chain, key, fingerprint, hostnames: seq![hostname] },
        CommandV::AddRoute { app_id, hostname, path_prefix },
    ]
}

/// Builds the installation script from the loaded certificate material and
/// its already-computed fingerprint.
pub fn install_commands(
    app_id: &str,
    hostname: &str,
    path_prefix: &str,
    certificate: String,
    chain: Vec<String>,
    key: String,
    fingerprint: Vec<u8>,
) -> (r: Vec<Command>)
    ensures
        r@.len() == 2,
        cmds_view(r@) == install_script_spec(
            app_id@,
            hostname@,
            path_prefix@,
            certificate@,
            chain.deep_view(),
            key@,
            fingerprint@,
        ),
{
    let ghost chain_v = chain.deep_view();
    let mut hostnames: Vec<String> = Vec::new();
    hostnames.push(hostname.to_owned());
    let mut r: Vec<Command> = Vec::new();
    r.push(Command::AddCertificate { certificate, chain, key, fingerprint, hostnames });
    r.push(
        Command::AddRoute {
            app_id: app_id.to_owned(),
            hostname: hostname.to_owned(),
            path_prefix: path_prefix.to_owned(),
        },
    );
    proof {
        assert(r@[0]@->AddCertificate_hostnames =~= seq![hostname@]);
        assert(cmds_view(r@) =~= install_script_spec(
            app_id@,
            hostname@,
            path_prefix@,
            certificate@,
            chain_v,
            key@,
            fingerprint@,
        ));
    }
    r
}

/// Why the installation is refused, if it is: the first missing file or,
/// with the certificate present, its failure to parse.  `None` means a
/// script is owed.
pub open spec fn install_refusal_spec(
    certificate: Option<String>,
    chain_pem: Option<String>,
    key: Option<String>,
) -> Option<InstallError> {
    if certificate is None {
        Option::Some(InstallError::MissingCertificate)
    } else if !fingerprint_exists(certificate.unwrap()@) {
        Option::Some(InstallError::BadCertificate)
    } else if chain_pem is None {
        Option::Some(InstallError::MissingChain)
    } else if key is None {
        Option::Some(InstallError::MissingKey)
    } else {
        Option::None
    }
}

/// Builds the certificate-installation script from the loaded files, or says
/// why it cannot be built.  The files arrive as they were loaded (absent on
/// a load failure); the fingerprint is computed here, and any failure
/// short-circuits before a script exists, so nothing reaches the channel.
pub fn install_plan(
    app_id: &str,
    hostname: &str,
    path_prefix: &str,
    certificate: Option<String>,
    chain_pem: Option<String>,
    key: Option<String>,
) -> (r: Result<Vec<Command>, InstallError>)
    ensures
        r is Ok <==> install_refusal_spec(certificate, chain_pem, key) is None,
        r matches Err(e) ==> Option::Some(e) == install_refusal_spec(certificate, chain_pem, key),
        r matches Ok(cmds) ==> cmds@.len() == 2 && cmds_view(cmds@) == install_script_spec(
            app_id@,
            hostname@,
            path_prefix@,
            certificate.unwrap()@,
            chain_blocks_of(chain_pem.unwrap()@),
            key.unwrap()@,
            fingerprint_of(certificate.unwrap()@),
        ),
{
    let cert = match certificate {
        Option::Some(c) => c,
        Option::None => {
            return Result::Err(InstallError::MissingCertificate);
        },
    };
    let fp = match fingerprint_pem(cert.as_str()) {
        Result::Ok(f) => f,
        Result::Err(_) => {
            return Result::Err(InstallError::BadCertificate);
        },
    };
    let chain_text = match chain_pem {
        Option::Some(c) => c,
        Option::None => {
            return Result::Err(InstallError::MissingChain);
        },
    };
    let key_text = match key {
        Option::Some(k) => k,
        Option::None => {
            return Result::Err(InstallError::MissingKey);
        },
    };
    let chain = split_chain(chain_text);
    Result::Ok(install_commands(app_id, hostname, path_prefix, cert, chain, key_text, fp))
}

/// The runner for the certificate-installation script, bound to its policy:
/// the script short-circuits, so a refused certificate is never routed to.
pub fn install_runner(
    app_id: &str,
    hostname: &str,
    path_prefix: &str,
    certificate: Option<String>,
    chain_pem: Option<String>,
    key: Option<String>,
    first_serial: u64,
) -> (r: Result<ScriptRunner, InstallError>)
    requires
        first_serial as int + 2 <= u64::MAX as int,
    ensures
        r is Ok <==> install_refusal_spec(certificate, chain_pem, key) is None,
        r matches Err(e) ==> Option::Some(e) == install_refusal_spec(certificate, chain_pem, key),
        r matches Ok(runner) ==> runner.wf() && runner.policy is ShortCircuit
            && runner.next_index == 0 && runner.ok_so_far && runner.in_flight is None
            && !runner.aborted && runner.serial == first_serial && runner.commands@.len() == 2
            && cmds_view(runner.commands@) == install_script_spec(
            app_id@,
            hostname@,
            path_prefix@,
            certificate.unwrap()@,
            chain_blocks_of(chain_pem.unwrap()@),
            key.unwrap()@,
            fingerprint_of(certificate.unwrap()@),
        ),
{
    match install_plan(app_id, hostname, path_prefix, certificate, chain_pem, key) {
        Result::Ok(commands) => Result::Ok(
            ScriptRunner::new(commands, Policy::ShortCircuit, first_serial),
        ),
        Result::Err(e) => Result::Err(e),
    }
}

} // verus!
