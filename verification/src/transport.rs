//! How the server listens: on a TCP port of every interface, or on a local
//! domain socket at a path. The configuration names exactly one of the two,
//! and that is checked before anything is bound.

use vstd::prelude::*;
use vstd::string::*;

verus! {

/// Where the server accepts connections.
#[derive(Debug, Clone, PartialEq, Eq)]
pub enum Transport {
    /// A TCP listener on every interface, at the port.
    Tcp { port: u16 },
    /// A local domain socket at the path.
    Unix { path: String },
}

/// Why a configuration names no transport.
#[derive(Debug, Clone, Copy, PartialEq, Eq)]
pub enum ConfigError {
    /// Neither a port nor a socket path was given.
    NothingGiven,
    /// Both a port and a socket path were given.
    BothGiven,
}

/// One thing to do before the server can accept connections.
#[derive(Debug, Clone, Copy, PartialEq, Eq)]
pub enum StartupStep {
    /// Make sure that the directory of the socket exists.
    CreateParentDirectory,
    /// Remove what a previous run left at the socket's path.
    RemoveStaleSocket,
    /// Bind the local domain socket.
    BindUnix,
    /// Bind the TCP listener.
    BindTcp,
}

/// What follows when a step of the startup fails.
#[derive(Debug, Clone, Copy, PartialEq, Eq)]
pub enum OnFailure {
    /// The startup goes on with the next step.
    Continue,
    /// The startup ends, and the server never accepts a connection.
    Abort,
}

/// The transport that a configuration names: the one that is given, where
/// exactly one is.
pub open spec fn selection(port: Option<u16>, socket_path: Option<String>) -> Result<
    Transport,
    ConfigError,
> {
    match (port, socket_path) {
        (Some(port), None) => Ok(Transport::Tcp { port }),
        (None, Some(path)) => Ok(Transport::Unix { path }),
        (None, None) => Err(ConfigError::NothingGiven),
        (Some(_), Some(_)) => Err(ConfigError::BothGiven),
    }
}

/// The steps that bring a transport up, in the order they are taken.
pub open spec fn plan(transport: Transport) -> Seq<StartupStep> {
    match transport {
        Transport::Tcp { .. } => seq![StartupStep::BindTcp],
        Transport::Unix { .. } => seq![
            StartupStep::CreateParentDirectory,
            StartupStep::RemoveStaleSocket,
            StartupStep::BindUnix,
        ],
    }
}

/// What follows the failure of a step. Only the removal of a stale socket
/// may fail: most often there is none to remove.
pub open spec fn failure_policy(step: StartupStep) -> OnFailure {
    match step {
        StartupStep::RemoveStaleSocket => OnFailure::Continue,
        _ => OnFailure::Abort,
    }
}

/// The character of a decimal digit.
pub open spec fn digit(d: nat) -> char {
    if d == 0 {
        '0'
    } else if d == 1 {
        '1'
    } else if d == 2 {
        '2'
    } else if d == 3 {
        '3'
    } else if d == 4 {
        '4'
    } else if d == 5 {
        '5'
    } else if d == 6 {
        '6'
    } else if d == 7 {
        '7'
    } else if d == 8 {
        '8'
    } else {
        '9'
    }
}

/// A number in decimal, without leading zeros.
pub open spec fn decimal(n: nat) -> Seq<char>
    decreases n,
{
    if n < 10 {
        seq![digit(n)]
    } else {
        decimal(n / 10).push(digit(n % 10))
    }
}

/// The address of a TCP listener on every interface: `0.0.0.0`, a colon,
/// and the port in decimal.
pub open spec fn address(port: u16) -> Seq<char> {
    "0.0.0.0:"@ + decimal(port as nat)
}

/// Resolves a configuration into the one transport it names. A
/// configuration that names none, or both, is refused.
pub fn select_transport(port: Option<u16>, socket_path: Option<String>) -> (choice: Result<
    Transport,
    ConfigError,
>)
    ensures
        choice == selection(port, socket_path),
{
    match (port, socket_path) {
        (Some(port), None) => Ok(Transport::Tcp { port }),
        (None, Some(path)) => Ok(Transport::Unix { path }),
        (None, None) => Err(ConfigError::NothingGiven),
        (Some(_), Some(_)) => Err(ConfigError::BothGiven),
    }
}

impl ConfigError {
    /// The error in words.
    pub fn describe(&self) -> (message: &'static str)
        ensures
            message@ == (match *self {
                ConfigError::NothingGiven => "one of a port and a socket path is required"@,
                ConfigError::BothGiven => "a port and a socket path cannot be used together"@,
            }),
    {
        match self {
            ConfigError::NothingGiven => "one of a port and a socket path is required",
            ConfigError::BothGiven => "a port and a socket path cannot be used together",
        }
    }
}

impl Transport {
    /// The steps that bring the transport up, in the order they are taken.
    /// For a socket, what a previous run left at the path is removed before
    /// the socket is bound.
    pub fn startup_plan(&self) -> (steps: Vec<StartupStep>)
        ensures
            steps@ == plan(*self),
    {
        match self {
            Transport::Tcp { .. } => {
                let steps = vec![StartupStep::BindTcp];
                assert(steps@ =~= plan(*self));
                steps
            },
            Transport::Unix { .. } => {
                let steps = vec![
                    StartupStep::CreateParentDirectory,
                    StartupStep::RemoveStaleSocket,
                    StartupStep::BindUnix,
                ];
                assert(steps@ =~= plan(*self));
                steps
            },
        }
    }
}

impl StartupStep {
    /// What follows when the step fails.
    pub fn on_failure(&self) -> (policy: OnFailure)
        ensures
            policy == failure_policy(*self),
    {
        match self {
            StartupStep::RemoveStaleSocket => OnFailure::Continue,
            _ => OnFailure::Abort,
        }
    }
}

/// The digit `d` as a string.
fn digit_str(d: u16) -> (text: &'static str)
    requires
        d < 10,
    ensures
        text@ == seq![digit(d as nat)],
{
    proof {
        reveal_strlit("0");
        reveal_strlit("1");
        reveal_strlit("2");
        reveal_strlit("3");
        reveal_strlit("4");
        reveal_strlit("5");
        reveal_strlit("6");
        reveal_strlit("7");
        reveal_strlit("8");
        reveal_strlit("9");
    }
    let text = if d == 0 {
        "0"
    } else if d == 1 {
        "1"
    } else if d == 2 {
        "2"
    } else if d == 3 {
        "3"
    } else if d == 4 {
        "4"
    } else if d == 5 {
        "5"
    } else if d == 6 {
        "6"
    } else if d == 7 {
        "7"
    } else if d == 8 {
        "8"
    } else {
        "9"
    };
    assert(text@ =~= seq![digit(d as nat)]);
    text
}

/// Appends `n` in decimal.
fn push_decimal(n: u16, out: &mut String)
    ensures
        final(out)@ == old(out)@ + decimal(n as nat),
    decreases n,
{
    if n >= 10 {
        push_decimal(n / 10, out);
    }
    out.append(digit_str(n % 10));
    assert(out@ =~= old(out)@ + decimal(n as nat));
}

/// The address at which a TCP listener for `port` binds, on every
/// interface.
pub fn bind_address(port: u16) -> (text: String)
    ensures
        text@ == address(port),
{
    let mut text = String::from_str("0.0.0.0:");
    push_decimal(port, &mut text);
    text
}

} // verus!
