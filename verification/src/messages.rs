//! Data model of the control-channel protocol: proxy mutation commands, the
//! envelope that carries one command with a correlation id, and the answer
//! that echoes that id back with a status.

use vstd::prelude::*;
use crate::text::concat2;

verus! {

/// Status carried by an answer on the control channel.
#[derive(Clone, Copy, PartialEq, Eq, Structural, Debug)]
pub enum AnswerStatus {
    /// A progress notification; more answers follow for the same request.
    Processing,
    /// The command was applied.
    Okay,
    /// The command was refused; the answer's message says why.
    Error,
}

/// A proxy mutation intent.
#[derive(Debug)]
pub enum Command {
    /// Route a hostname and path prefix to an application.
    AddRoute { app_id: String, hostname: String, path_prefix: String },
    /// Remove such a route.
    RemoveRoute { app_id: String, hostname: String, path_prefix: String },
    /// Attach a backend address to an application.
    AddBackend { app_id: String, backend_id: String, address: String },
    /// Detach such a backend.
    RemoveBackend { app_id: String, backend_id: String, address: String },
    /// Install a certificate with its chain, key and fingerprint.
    AddCertificate {
        certificate: String,
        chain: Vec<String>,
        key: String,
        fingerprint: Vec<u8>,
        hostnames: Vec<String>,
    },
}

/// The mathematical value of a `Command`: every text field as a sequence.
pub enum CommandV {
    AddRoute { app_id: Seq<char>, hostname: Seq<char>, path_prefix: Seq<char> },
    RemoveRoute { app_id: Seq<char>, hostname: Seq<char>, path_prefix: Seq<char> },
    AddBackend { app_id: Seq<char>, backend_id: Seq<char>, address: Seq<char> },
    RemoveBackend { app_id: Seq<char>, backend_id: Seq<char>, address: Seq<char> },
    AddCertificate {
        certificate: Seq<char>,
        chain: Seq<Seq<char>>,
        key: Seq<char>,
        fingerprint: Seq<u8>,
        hostnames: Seq<Seq<char>>,
    },
}

impl View for Command {
    type V = CommandV;

    open spec fn view(&self) -> CommandV {
        match self {
            Command::AddRoute { app_id, hostname, path_prefix } => CommandV::AddRoute {
                app_id: app_id@,
                hostname: hostname@,
                path_prefix: path_prefix@,
            },
            Command::RemoveRoute { app_id, hostname, path_prefix } => CommandV::RemoveRoute {
                app_id: app_id@,
                hostname: hostname@,
                path_prefix: path_prefix@,
            },
            Command::AddBackend { app_id, backend_id, address } => CommandV::AddBackend {
                app_id: app_id@,
                backend_id: backend_id@,
                address: address@,
            },
            Command::RemoveBackend { app_id, backend_id, address } => CommandV::RemoveBackend {
                app_id: app_id@,
                backend_id: backend_id@,
                address: address@,
            },
            Command::AddCertificate { certificate, chain, key, fingerprint, hostnames } => CommandV::AddCertificate {
                certificate: certificate@,
                chain: chain.deep_view(),
                key: key@,
                fingerprint: fingerprint@,
                hostnames: hostnames.deep_view(),
            },
        }
    }
}

/// The view of each command of a script, in order.
pub open spec fn cmds_view(s: Seq<Command>) -> Seq<CommandV> {
    s.map_values(|c: Command| c@)
}

/// One outbound request: a fresh correlation id and the command it carries.
#[derive(Debug)]
pub struct Envelope {
    pub id: String,
    pub command: Command,
}

/// The mathematical value of an `Envelope`.
pub struct EnvelopeV {
    pub id: Seq<char>,
    pub command: CommandV,
}

impl View for Envelope {
    type V = EnvelopeV;

    open spec fn view(&self) -> EnvelopeV {
        EnvelopeV { id: self.id@, command: self.command@ }
    }
}

/// One inbound answer: the echoed correlation id, a status and a free-form
/// message.
#[derive(Debug)]
pub struct Answer {
    pub id: String,
    pub status: AnswerStatus,
    pub message: String,
}

/// The mathematical value of an `Answer`.
pub struct AnswerV {
    pub id: Seq<char>,
    pub status: AnswerStatus,
    pub message: Seq<char>,
}

impl View for Answer {
    type V = AnswerV;

    open spec fn view(&self) -> AnswerV {
        AnswerV { id: self.id@, status: self.status, message: self.message@ }
    }
}

impl Command {
    /// A structurally equal copy of the command.
    pub fn duplicate(&self) -> (r: Command)
        ensures
            r@ == self@,
    {
        match self {
            Command::AddRoute { app_id, hostname, path_prefix } => Command::AddRoute {
                app_id: app_id.clone(),
                hostname: hostname.clone(),
                path_prefix: path_prefix.clone(),
            },
            Command::RemoveRoute { app_id, hostname, path_prefix } => Command::RemoveRoute {
                app_id: app_id.clone(),
                hostname: hostname.clone(),
                path_prefix: path_prefix.clone(),
            },
            Command::AddBackend { app_id, backend_id, address } => Command::AddBackend {
                app_id: app_id.clone(),
                backend_id: backend_id.clone(),
                address: address.clone(),
            },
            Command::RemoveBackend { app_id, backend_id, address } => Command::RemoveBackend {
                app_id: app_id.clone(),
                backend_id: backend_id.clone(),
                address: address.clone(),
            },
            Command::AddCertificate { certificate, chain, key, fingerprint, hostnames } => {
                let r = Command::AddCertificate {
                    certificate: certificate.clone(),
                    chain: clone_strings(chain),
                    key: key.clone(),
                    fingerprint: clone_bytes(fingerprint),
                    hostnames: clone_strings(hostnames),
                };
                proof {
                    assert(r@ == self@);
                }
                r
            },
        }
    }
}

/// A copy of a vector of strings, equal text in each slot.
fn clone_strings(v: &Vec<String>) -> (r: Vec<String>)
    ensures
        r.deep_view() == v.deep_view(),
{
    let mut r: Vec<String> = Vec::new();
    let mut i: usize = 0;
    while i < v.len()
        invariant
            i <= v.len(),
            r@.len() == i,
            forall|j: int| 0 <= j < i ==> r@[j]@ == v@[j]@,
        decreases v.len() - i,
    {
        r.push(v[i].clone());
        i = i + 1;
    }
    proof {
        assert(r.deep_view() =~= v.deep_view());
    }
    r
}

/// A copy of a byte vector.
fn clone_bytes(v: &Vec<u8>) -> (r: Vec<u8>)
    ensures
        r@ == v@,
{
    let mut r: Vec<u8> = Vec::new();
    let mut i: usize = 0;
    while i < v.len()
        invariant
            i <= v.len(),
            r@ =~= v@.take(i as int),
        decreases v.len() - i,
    {
        r.push(v[i]);
        i = i + 1;
    }
    proof {
        assert(r@ =~= v@);
    }
    r
}

/// The backend identifier derived from an application id: the add/remove pair
/// for one logical target always agrees on it.
pub fn backend_id_for(app_id: &str) -> (r: String)
    ensures
        r@ == app_id@ + "-0"@,
{
    concat2(app_id, "-0")
}

/// The well-known path at which the challenge proof is served.
pub fn challenge_path(token: &str) -> (r: String)
    ensures
        r@ == "/.well-known/acme-challenge/"@ + token@,
{
    concat2("/.well-known/acme-challenge/", token)
}

/// The script that installs the temporary challenge route: a route for the
/// hostname and challenge path, then a backend pointing at the responder.
pub open spec fn setup_script_spec(
    app_id: Seq<char>,
    hostname: Seq<char>,
    path_prefix: Seq<char>,
    address: Seq<char>,
) -> Seq<CommandV> {
    seq![
        CommandV::AddRoute { app_id, hostname, path_prefix },
        CommandV::AddBackend { app_id, backend_id: app_id + "-0"@, address },
    ]
}

/// The script that removes the temporary challenge route again.
pub open spec fn teardown_script_spec(
    app_id: Seq<char>,
    hostname: Seq<char>,
    path_prefix: Seq<char>,
    address: Seq<char>,
) -> Seq<CommandV> {
    seq![
        CommandV::RemoveRoute { app_id, hostname, path_prefix },
        CommandV::RemoveBackend { app_id, backend_id: app_id + "-0"@, address },
    ]
}

/// Builds the setup script.
pub fn setup_commands(app_id: &str, hostname: &str, path_prefix: &str, address: &str) -> (r: Vec<
    Command,
>)
    ensures
        r@.len() == 2,
        cmds_view(r@) == setup_script_spec(app_id@, hostname@, path_prefix@, address@),
{
    let mut r: Vec<Command> = Vec::new();
    r.push(
        Command::AddRoute {
            app_id: app_id.to_owned(),
            hostname: hostname.to_owned(),
            path_prefix: path_prefix.to_owned(),
        },
    );
    r.push(
        Command::AddBackend {
            app_id: app_id.to_owned(),
            backend_id: backend_id_for(app_id),
            address: address.to_owned(),
        },
    );
    proof {
        assert(cmds_view(r@) =~= setup_script_spec(app_id@, hostname@, path_prefix@, address@));
    }
    r
}

/// Builds the teardown script.
pub fn teardown_commands(app_id: &str, hostname: &str, path_prefix: &str, address: &str) -> (r: Vec<
    Command,
>)
    ensures
        r@.len() == 2,
        cmds_view(r@) == teardown_script_spec(app_id@, hostname@, path_prefix@, address@),
{
    let mut r: Vec<Command> = Vec::new();
    r.push(
        Command::RemoveRoute {
            app_id: app_id.to_owned(),
            hostname: hostname.to_owned(),
            path_prefix: path_prefix.to_owned(),
        },
    );
    r.push(
        Command::RemoveBackend {
            app_id: app_id.to_owned(),
            backend_id: backend_id_for(app_id),
            address: address.to_owned(),
        },
    );
    proof {
        assert(cmds_view(r@) =~= teardown_script_spec(app_id@, hostname@, path_prefix@, address@));
    }
    r
}

/// The human-readable label logged when a command succeeds, selected by
/// variant — the same variant always yields the same label.
pub open spec fn success_label_spec(c: CommandV) -> Seq<char> {
    match c {
        CommandV::AddRoute { .. } => "front added"@,
        CommandV::RemoveRoute { .. } => "front removed"@,
        CommandV::AddBackend { .. } => "backend added"@,
        CommandV::RemoveBackend { .. } => "backend removed"@,
        CommandV::AddCertificate { .. } => "certificate added"@,
    }
}

/// Selects the success label for a command.
pub fn success_label(c: &Command) -> (r: String)
    ensures
        r@ == success_label_spec(c@),
{
    match c {
        Command::AddRoute { .. } => "front added".to_owned(),
        Command::RemoveRoute { .. } => "front removed".to_owned(),
        Command::AddBackend { .. } => "backend added".to_owned(),
        Command::RemoveBackend { .. } => "backend removed".to_owned(),
        Command::AddCertificate { .. } => "certificate added".to_owned(),
    }
}

} // verus!
