//! What the supervisor decides: whether to start, what to start with, and
//! how to end.

use vstd::prelude::*;
use crate::config::{port_of, Config};
use crate::inject::{evaluate_text, inject_payload, Injection};
use crate::json::json_string;
use crate::payload::{flag_text, make_payload, rendered};
use crate::secrets::{generate_secret, is_secret};
use crate::server::{auth_view, BrokerContext, BrokerView};
use crate::text::decimal_digits;

verus! {

/// How often the supervisor sends a frame to the debugger before it gives up.
pub const SEND_TRIES: u32 = 5;

/// How long an instance that was told to terminate is given to let go.
pub const RELEASE_PAUSE_MILLIS: u64 = 50;

/// How long the start of the broker waits for the supervisor to settle.
pub const START_DELAY_MILLIS: u64 = 100;

/// What to do about an instance that may be there already.
#[derive(Clone, Copy, Debug, PartialEq, Eq, Structural)]
pub enum Startup {
    /// No other instance: go on.
    Proceed,
    /// Tell the other instance to terminate, in at most `max_tries` sends,
    /// then go on.
    Replace { max_tries: u32 },
    /// Another instance is there and may not be replaced: exit with 1.
    Abort,
}

/// Decides what to do once the probe for another instance has answered.
pub fn decide_startup(other_running: bool, replace_other_instances: bool) -> (r: Startup)
    ensures
        r == if !other_running {
            Startup::Proceed
        } else if replace_other_instances {
            Startup::Replace { max_tries: SEND_TRIES }
        } else {
            Startup::Abort
        },
{
    if !other_running {
        Startup::Proceed
    } else if replace_other_instances {
        Startup::Replace { max_tries: SEND_TRIES }
    } else {
        Startup::Abort
    }
}

/// What ended the supervisor's wait.
#[derive(Clone, Copy, Debug, PartialEq, Eq)]
pub enum Wake {
    /// The user interrupted the program.
    Interrupt,
    /// The exit signal came, with `true` for an orderly end; `None` stands
    /// for a signal whose senders are all gone.
    ExitSignal(Option<bool>),
}

/// How the program ends.
#[derive(Clone, Copy, Debug, PartialEq, Eq, Structural)]
pub struct Shutdown {
    /// How often to send the injected instance the frame that terminates
    /// it; 0 to send none.
    pub kill_tries: u32,
    /// Whether a critical error is to be logged.
    pub critical: bool,
    /// The exit code of the process.
    pub exit_code: u8,
}

/// How the program ends after `wake`: an interrupt ends it at once with 0;
/// the exit signal has the injected instance terminated first, and ends the
/// program with 1 if it came with `false`.
pub open spec fn shutdown_after(wake: Wake) -> Shutdown {
    match wake {
        Wake::Interrupt => Shutdown { kill_tries: 0, critical: false, exit_code: 0 },
        Wake::ExitSignal(Some(false)) => Shutdown {
            kill_tries: SEND_TRIES,
            critical: true,
            exit_code: 1,
        },
        Wake::ExitSignal(_) => Shutdown { kill_tries: SEND_TRIES, critical: false, exit_code: 0 },
    }
}

/// Decides how the program ends.
pub fn shutdown(wake: Wake) -> (r: Shutdown)
    ensures
        r == shutdown_after(wake),
{
    match wake {
        Wake::Interrupt => Shutdown { kill_tries: 0, critical: false, exit_code: 0 },
        Wake::ExitSignal(Some(false)) => Shutdown {
            kill_tries: SEND_TRIES,
            critical: true,
            exit_code: 1,
        },
        Wake::ExitSignal(_) => Shutdown { kill_tries: SEND_TRIES, critical: false, exit_code: 0 },
    }
}

/// What the broker is started with.
pub struct Launch {
    /// The address that the listener binds.
    pub hostname: String,
    /// The broker, with the rendered payload in it.
    pub broker: BrokerContext,
    /// The injection of the payload.
    pub injection: Injection,
}

/// The payload for a listener at `host`: the template filled in with the
/// host's port, the secret, and `true` for replacing.
pub open spec fn payload_for(template: Seq<char>, host: Seq<char>, secret: Seq<char>) -> Seq<
    char,
> {
    rendered(template, decimal_digits(port_of(host)->0 as nat), secret, flag_text(true))
}

/// Whether `launch` is what the settings, the template and the secret call
/// for.
pub open spec fn launches(
    launch: Launch,
    cfg: Config,
    template: Seq<char>,
    secret: Seq<char>,
) -> bool {
    let payload = payload_for(template, cfg.conductor.hostname@, secret);
    &&& launch.hostname@ == cfg.conductor.hostname@
    &&& launch.broker@ == BrokerView::initial(secret, auth_view(cfg.auth), payload)
    &&& launch.broker@.wf()
    &&& launch.injection.frame@ == evaluate_text(1, json_string(payload))
    &&& launch.injection.tries_left == SEND_TRIES
}

/// Prepares the start of the broker with a given secret: renders the
/// payload, sets the broker up, and gets the injection ready. There is
/// nothing to start where the listener's address names no port.
pub fn launch(cfg: Config, template: &str, steam_secret: String) -> (r: Option<Launch>)
    ensures
        match r {
            Some(l) => port_of(cfg.conductor.hostname@) is Some && launches(
                l,
                cfg,
                template@,
                steam_secret@,
            ),
            None => port_of(cfg.conductor.hostname@) is None,
        },
{
    let port = match cfg.conductor.port() {
        Some(port) => port,
        None => {
            return None;
        },
    };
    let payload = make_payload(template, port, true, steam_secret.clone());
    let injection = inject_payload(payload.as_str(), SEND_TRIES);
    let broker = BrokerContext::new(steam_secret, cfg.auth, payload);
    Some(Launch { hostname: cfg.conductor.hostname, broker, injection })
}

/// Prepares the start of the broker: makes a fresh secret and renders the
/// payload with it. `template` is what the payload file holds, `None` where
/// it could not be read. Where nothing comes back, the start has failed and
/// the exit signal is due with `false`.
pub fn start(cfg: Config, template: Option<&str>) -> (r: Option<Launch>)
    ensures
        r is Some <==> template is Some && port_of(cfg.conductor.hostname@) is Some,
        r matches Some(l) ==> is_secret(l.broker@.steam_secret) && launches(
            l,
            cfg,
            template->0@,
            l.broker@.steam_secret,
        ),
{
    match template {
        Some(text) => launch(cfg, text, generate_secret()),
        None => None,
    }
}

} // verus!
