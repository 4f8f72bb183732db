//! What an operator process is configured with, and the schedule that
//! follows from it.

use vstd::prelude::*;
use vstd::string::StringExecFns;

verus! {

/// The vault folder that is mirrored where none is named.
pub const DEFAULT_FOLDER: &'static str = "kubernetes";

/// The seconds between two passes over all objects where none are given.
pub const DEFAULT_RECONCILE_INTERVAL_SECS: u64 = 300;

/// The seconds between two refreshes of the cache where none are given.
pub const DEFAULT_SECRET_INTERVAL_SECS: u64 = 120;

/// The port of the metrics endpoint where none is given.
pub const DEFAULT_METRICS_PORT: u16 = 8000;

/// The address on which the metrics endpoint listens: every interface.
pub const METRICS_HOST: &'static str = "0.0.0.0";

/// The configuration of a process.
#[derive(Debug, Clone, PartialEq, Eq)]
pub struct Args {
    /// The name of the vault folder whose items are mirrored.
    pub folder: String,
    /// The seconds between two passes over all objects.
    pub reconcile_interval: u64,
    /// The seconds between two refreshes of the credential cache.
    pub secret_interval: u64,
    /// Whether to write the resource definition and stop.
    pub generate_crd: bool,
    /// The port of the metrics endpoint.
    pub metrics_port: u16,
    /// The namespace in which the lease is held.
    pub namespace: String,
}

impl Args {
    /// The configuration of a process that is told its namespace and
    /// nothing else.
    pub fn with_defaults(namespace: String) -> (args: Args)
        ensures
            args.folder@ == DEFAULT_FOLDER@,
            args.reconcile_interval == DEFAULT_RECONCILE_INTERVAL_SECS,
            args.secret_interval == DEFAULT_SECRET_INTERVAL_SECS,
            args.generate_crd == false,
            args.metrics_port == DEFAULT_METRICS_PORT,
            args.namespace == namespace,
    {
        Args {
            folder: DEFAULT_FOLDER.to_owned(),
            reconcile_interval: DEFAULT_RECONCILE_INTERVAL_SECS,
            secret_interval: DEFAULT_SECRET_INTERVAL_SECS,
            generate_crd: false,
            metrics_port: DEFAULT_METRICS_PORT,
            namespace,
        }
    }

    /// The seconds between two firings of `timer`.
    pub fn period_secs(&self, timer: Timer) -> (secs: u64)
        ensures
            secs == match timer {
                Timer::Reconcile => self.reconcile_interval,
                Timer::Refresh => self.secret_interval,
            },
    {
        match timer {
            Timer::Reconcile => self.reconcile_interval,
            Timer::Refresh => self.secret_interval,
        }
    }

    /// The address to which the metrics endpoint binds.
    pub fn metrics_address(&self) -> (address: String)
        ensures
            address@ == bind_address(self.metrics_port as nat),
    {
        let mut address = String::from_str(METRICS_HOST);
        address.append(":");
        let port = decimal_string(self.metrics_port);
        address.append(port.as_str());
        address
    }
}

/// One of the two timers of a serving process. They run independently: a
/// refresh of the cache is never forced by a pass, nor a pass by a refresh.
#[derive(Debug, Clone, Copy, PartialEq, Eq, Structural)]
pub enum Timer {
    /// Fires a pass over every declaring object that is known.
    Reconcile,
    /// Fires a refresh of the credential cache.
    Refresh,
}

/// The decimal digit `d`, as text.
pub open spec fn digit(d: nat) -> Seq<char> {
    if d == 0 {
        "0"@
    } else if d == 1 {
        "1"@
    } else if d == 2 {
        "2"@
    } else if d == 3 {
        "3"@
    } else if d == 4 {
        "4"@
    } else if d == 5 {
        "5"@
    } else if d == 6 {
        "6"@
    } else if d == 7 {
        "7"@
    } else if d == 8 {
        "8"@
    } else {
        "9"@
    }
}

/// The decimal numeral of `n`, without leading zeros.
pub open spec fn decimal(n: nat) -> Seq<char>
    decreases n,
{
    if n < 10 {
        digit(n)
    } else {
        decimal(n / 10) + digit(n % 10)
    }
}

/// The address of the metrics endpoint on `port`: the host, a colon, and
/// the port's numeral.
pub open spec fn bind_address(port: nat) -> Seq<char> {
    METRICS_HOST@ + ":"@ + decimal(port)
}

fn digit_str(d: u16) -> (text: &'static str)
    requires
        d < 10,
    ensures
        text@ == digit(d as nat),
{
    if d == 0 {
        "0"
    } else if d == 1 {
        "1"
    } else if d == 2 {
        "2"
    } else if d == 3 {
        "3"
    } else if d == 4 {
        "4"
    } else if d == 5 {
        "5"
    } else if d == 6 {
        "6"
    } else if d == 7 {
        "7"
    } else if d == 8 {
        "8"
    } else {
        "9"
    }
}

/// The decimal numeral of `n`.
pub fn decimal_string(n: u16) -> (text: String)
    ensures
        text@ == decimal(n as nat),
    decreases n,
{
    if n < 10 {
        String::from_str(digit_str(n))
    } else {
        let mut text = decimal_string(n / 10);
        text.append(digit_str(n % 10));
        text
    }
}

} // verus!
