//! Health probes of workloads.
use vstd::prelude::*;

use crate::error::DroidError;
use crate::models::{HttpProbe, ProbeConfig};
use crate::status::{is_success, status_line, status_text, succeeded};
use crate::text::{cat2, cat3, cat5, decimal, show, show_signed, signed_decimal, views};

verus! {

/// How long the agent waits for the answer to a request of a probe, in seconds.
pub const HTTP_TIMEOUT_SECS: u64 = 30;

/// What a probe does.
#[derive(Debug)]
pub enum ProbeAction {
    /// Run a program in the workload.
    Exec { command: Vec<String> },
    /// Send a request.
    Get { url: String },
}

/// What came of a probe.
#[derive(Debug)]
pub enum ProbeOutcome {
    /// It did not end in time.
    TimedOut,
    /// The program could not be started.
    NotStarted(DroidError),
    /// It is not known how the program ended.
    Lost(String),
    /// The program has ended, with a code if it was not killed.
    Exited { success: bool, code: Option<i32> },
    /// The request was not answered.
    NoAnswer(String),
    /// The request was answered with a status.
    Answered { status: u16 },
}

/// The address that a probe asks.
pub open spec fn probe_address(probe: HttpProbe) -> Seq<char> {
    "http://"@ + probe.host@ + ":"@ + decimal(probe.port as nat) + probe.path@
}

/// The probe has neither a program nor a request.
pub open spec fn is_void(config: ProbeConfig) -> bool {
    config.exec_command is None && config.http_get is None
}

/// Runs health probes.
#[derive(Debug, Clone, Copy)]
pub struct HealthProbeServiceImpl {
    /// How long the answer to a request of a probe is waited for, in seconds.
    pub http_timeout_secs: u64,
}

impl HealthProbeServiceImpl {
    /// Requests are waited for as long as the agent does.
    pub fn new() -> (r: Self)
        ensures
            r.http_timeout_secs == HTTP_TIMEOUT_SECS,
    {
        HealthProbeServiceImpl { http_timeout_secs: HTTP_TIMEOUT_SECS }
    }

    /// What a probe does. A probe with a program and a request runs the program.
    pub fn execute_probe(&self, config: &ProbeConfig) -> (r: Result<ProbeAction, DroidError>)
        ensures
            match (config.exec_command, config.http_get) {
                (Some(command), _) => r matches Ok(ProbeAction::Exec { command: c }) && views(c@)
                    == views(command@),
                (None, Some(http)) => r matches Ok(ProbeAction::Get { url }) && url@
                    == probe_address(http),
                (None, None) => r matches Err(DroidError::Config(m)) && m@
                    == "probe has no exec or httpGet configured"@,
            },
    {
        if let Some(command) = &config.exec_command {
            let c: Vec<String> = command.clone();
            assert(views(c@) =~= views(command@));
            return Ok(ProbeAction::Exec { command: c });
        }
        if let Some(http) = &config.http_get {
            let url: String = cat5(
                "http://",
                http.host.as_str(),
                ":",
                show(http.port as u64).as_str(),
                http.path.as_str(),
            );
            return Ok(ProbeAction::Get { url });
        }
        Err(DroidError::Config("probe has no exec or httpGet configured".to_owned()))
    }

    /// Whether a probe has passed, and otherwise why not. A probe with nothing to do has not.
    pub fn run_probe(&self, config: &ProbeConfig, outcome: ProbeOutcome) -> (r: Result<
        (),
        DroidError,
    >)
        ensures
            is_void(*config) ==> (r matches Err(DroidError::Config(m)) && m@
                == "probe has no exec or httpGet configured"@),
            !is_void(*config) ==> match outcome {
                ProbeOutcome::TimedOut => r matches Err(DroidError::ProbeFailed(m)) && m@
                    == "probe timed out after "@ + decimal(config.timeout_seconds as nat) + "s"@,
                ProbeOutcome::NotStarted(e) => r == Err::<(), DroidError>(e),
                ProbeOutcome::Lost(text) => r matches Err(DroidError::Process(m)) && m@
                    == "probe wait: "@ + text@,
                ProbeOutcome::Exited { success, code } => if success {
                    r is Ok
                } else {
                    r matches Err(DroidError::ProbeFailed(m)) && m@
                        == "exec probe exited with status "@ + signed_decimal(
                        match code {
                            Some(c) => c as int,
                            None => -1,
                        },
                    )
                },
                ProbeOutcome::NoAnswer(text) => r matches Err(DroidError::ProbeFailed(m)) && m@
                    == "HTTP probe error: "@ + text@,
                ProbeOutcome::Answered { status } => if is_success(status) {
                    r is Ok
                } else {
                    r matches Err(DroidError::ProbeFailed(m)) && m@
                        == "HTTP probe returned status "@ + status_line(status)
                },
            },
    {
        if let Err(e) = self.execute_probe(config) {
            return Err(e);
        }
        match outcome {
            ProbeOutcome::TimedOut => Err(
                DroidError::ProbeFailed(
                    cat3(
                        "probe timed out after ",
                        show(config.timeout_seconds as u64).as_str(),
                        "s",
                    ),
                ),
            ),
            ProbeOutcome::NotStarted(e) => Err(e),
            ProbeOutcome::Lost(text) => Err(
                DroidError::Process(cat2("probe wait: ", text.as_str())),
            ),
            ProbeOutcome::Exited { success, code } => {
                if success {
                    Ok(())
                } else {
                    let shown: i32 = match code {
                        Some(c) => c,
                        None => -1,
                    };
                    Err(
                        DroidError::ProbeFailed(
                            cat2("exec probe exited with status ", show_signed(shown).as_str()),
                        ),
                    )
                }
            },
            ProbeOutcome::NoAnswer(text) => Err(
                DroidError::ProbeFailed(cat2("HTTP probe error: ", text.as_str())),
            ),
            ProbeOutcome::Answered { status } => {
                if succeeded(status) {
                    Ok(())
                } else {
                    Err(http_refusal(status_text(status).as_str()))
                }
            },
        }
    }
}

/// Why a probe has failed whose request was answered with the status `status`.
pub fn http_refusal(status: &str) -> (r: DroidError)
    ensures
        r matches DroidError::ProbeFailed(m) && m@ == "HTTP probe returned status "@ + status@,
{
    DroidError::ProbeFailed(cat2("HTTP probe returned status ", status))
}

// ---------------------------------------------------------------------------

/// A probe runs the program that it names, word for word. One that names none asks for the path
/// that it names, of the host and the port that it names. One that names neither is an error.
pub proof fn law_probes_do_what_they_name(
    service: &HealthProbeServiceImpl,
    config: &ProbeConfig,
    r: Result<ProbeAction, DroidError>,
)
    requires
        call_ensures(HealthProbeServiceImpl::execute_probe, (service, config), r),
    ensures
        config.exec_command matches Some(words) ==> (r matches Ok(ProbeAction::Exec { command })
            && command@.len() == words@.len() && forall|i: int|
            0 <= i < words@.len() ==> (#[trigger] command@[i])@ == words@[i]@),
        config.exec_command is None ==> (config.http_get matches Some(http) ==> (
        r matches Ok(ProbeAction::Get { url }) && url@ == "http://"@ + http.host@ + ":"@ + decimal(
            http.port as nat,
        ) + http.path@)),
        config.exec_command is None && config.http_get is None ==> (
        r matches Err(DroidError::Config(m)) && m@ == "probe has no exec or httpGet configured"@),
{
    if let Some(words) = config.exec_command {
        let command = r->Ok_0->command;
        assert(views(command@).len() == command@.len());
        assert(views(words@).len() == words@.len());
        assert forall|i: int| 0 <= i < words@.len() implies (#[trigger] command@[i])@
            == words@[i]@ by {
            assert(views(command@)[i] == views(words@)[i]);
        }
    }
}

/// A probe passes just when it has something to do and that went well: its program has ended
/// with success, or its request was granted.
pub proof fn law_probes_pass_only_when_all_is_well(
    service: &HealthProbeServiceImpl,
    config: &ProbeConfig,
    outcome: ProbeOutcome,
    r: Result<(), DroidError>,
)
    requires
        call_ensures(HealthProbeServiceImpl::run_probe, (service, config, outcome), r),
    ensures
        r is Ok <==> (config.exec_command is Some || config.http_get is Some) && match outcome {
            ProbeOutcome::Exited { success, .. } => success,
            ProbeOutcome::Answered { status } => 200 <= status < 300,
            _ => false,
        },
{
}

/// A probe that has not passed tells why.
pub proof fn law_probes_tell_why_they_failed(
    service: &HealthProbeServiceImpl,
    config: &ProbeConfig,
    outcome: ProbeOutcome,
    r: Result<(), DroidError>,
)
    requires
        call_ensures(HealthProbeServiceImpl::run_probe, (service, config, outcome), r),
        config.exec_command is Some || config.http_get is Some,
        r is Err,
    ensures
        match outcome {
            ProbeOutcome::TimedOut => r matches Err(DroidError::ProbeFailed(m)) && m@
                == "probe timed out after "@ + decimal(config.timeout_seconds as nat) + "s"@,
            ProbeOutcome::NotStarted(e) => r == Err::<(), DroidError>(e),
            ProbeOutcome::Lost(reason) => r matches Err(DroidError::Process(m)) && m@
                == "probe wait: "@ + reason@,
            ProbeOutcome::Exited { code, .. } => r matches Err(DroidError::ProbeFailed(m)) && m@
                == "exec probe exited with status "@ + match code {
                Some(c) => signed_decimal(c as int),
                None => "-1"@,
            },
            ProbeOutcome::NoAnswer(reason) => r matches Err(DroidError::ProbeFailed(m)) && m@
                == "HTTP probe error: "@ + reason@,
            ProbeOutcome::Answered { status } => r matches Err(DroidError::ProbeFailed(m)) && m@
                == "HTTP probe returned status "@ + status_line(status),
        },
{
    reveal_strlit("-1");
    assert("-1"@ =~= signed_decimal(-1)) by {
        reveal_strlit("-");
        assert(decimal(1) =~= seq!['1']);
    }
}

} // verus!
