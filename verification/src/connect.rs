//! Connection establishment decisions: exactly one server-side
//! routing redirect is followed, and connection failures carry a
//! message naming the host, the port, and the reason.  The caller
//! opens the TCP sessions and drives the driver handshake; this
//! module decides what each outcome means.

use vstd::prelude::*;
use vstd::string::*;
use crate::text::{dec_str, decimal_string};

verus! {

/// What one driver handshake attempt came back with.
#[derive(Debug)]
pub enum ConnectOutcome {
    /// The session is up.
    Connected,
    /// The server answered with a routing redirect to this host and
    /// port; `detail` is the driver's rendering of the redirect, for
    /// the failure message should the redirect not be followable.
    Routed { host: String, port: u16, detail: String },
    /// The driver failed; `detail` is its error text.
    Failed { detail: String },
}

/// What the caller does after one handshake attempt.
#[derive(Debug)]
pub enum ConnectDirective {
    /// Use the session.
    Done,
    /// Open a fresh TCP session to the redirected host and port,
    /// with the same configuration, and hand the driver handshake
    /// again.
    Reconnect { host: String, port: u16 },
    /// Report the connection as failed with this message.
    Fail { message: String },
}

/// The redirect-following state of one connection attempt.
#[derive(Debug)]
pub struct ConnectFlow {
    /// A routing redirect was already followed once.
    pub redirected: bool,
}

impl ConnectFlow {
    pub fn new() -> (r: Self)
        ensures
            !r.redirected,
    {
        ConnectFlow { redirected: false }
    }

    /// Decide what one handshake outcome means: success stands, a
    /// first redirect is followed, and anything after a redirect, or
    /// a plain driver failure, fails with a message naming the
    /// reason.
    pub fn on_outcome(&mut self, outcome: ConnectOutcome) -> (d: ConnectDirective)
        ensures
            final(self).redirected == (old(self).redirected || outcome is Routed),
            outcome is Connected ==> d is Done,
            outcome matches ConnectOutcome::Routed { host, port, detail } ==> (if !old(
                self,
            ).redirected {
                d matches ConnectDirective::Reconnect { host: h, port: p } && h@ == host@ && p
                    == port
            } else {
                d matches ConnectDirective::Fail { message } && message@
                    == "Routing connection failed: "@ + detail@
            }),
            outcome matches ConnectOutcome::Failed { detail } ==> (if !old(self).redirected {
                d matches ConnectDirective::Fail { message } && message@ == "Connection failed: "@
                    + detail@
            } else {
                d matches ConnectDirective::Fail { message } && message@
                    == "Routing connection failed: "@ + detail@
            }),
    {
        match outcome {
            ConnectOutcome::Connected => ConnectDirective::Done,
            ConnectOutcome::Routed { host, port, detail } => {
                if self.redirected {
                    let mut message = String::new();
                    message.append("Routing connection failed: ");
                    message.append(detail.as_str());
                    ConnectDirective::Fail { message }
                } else {
                    self.redirected = true;
                    ConnectDirective::Reconnect { host, port }
                }
            },
            ConnectOutcome::Failed { detail } => {
                let mut message = String::new();
                if self.redirected {
                    message.append("Routing connection failed: ");
                } else {
                    message.append("Connection failed: ");
                }
                message.append(detail.as_str());
                ConnectDirective::Fail { message }
            },
        }
    }
}

/// `TCP connect to host:port failed: detail`.
pub fn tcp_connect_failed_message(host: &str, port: u16, detail: &str) -> (r: String)
    ensures
        r@ == "TCP connect to "@ + host@ + ":"@ + dec_str(port as nat) + " failed: "@ + detail@,
{
    let mut out = String::new();
    out.append("TCP connect to ");
    out.append(host);
    out.append(":");
    out.append(decimal_string(port as u64).as_str());
    out.append(" failed: ");
    out.append(detail);
    out
}

/// `TCP connect to host:port timed out after Nms`.
pub fn tcp_connect_timeout_message(host: &str, port: u16, timeout_ms: u64) -> (r: String)
    ensures
        r@ == "TCP connect to "@ + host@ + ":"@ + dec_str(port as nat) + " timed out after "@
            + dec_str(timeout_ms as nat) + "ms"@,
{
    let mut out = String::new();
    out.append("TCP connect to ");
    out.append(host);
    out.append(":");
    out.append(decimal_string(port as u64).as_str());
    out.append(" timed out after ");
    out.append(decimal_string(timeout_ms).as_str());
    out.append("ms");
    out
}

/// `Routing TCP connect to host:port failed: detail`.
pub fn routing_tcp_connect_failed_message(host: &str, port: u16, detail: &str) -> (r: String)
    ensures
        r@ == "Routing TCP connect to "@ + host@ + ":"@ + dec_str(port as nat) + " failed: "@
            + detail@,
{
    let mut out = String::new();
    out.append("Routing TCP connect to ");
    out.append(host);
    out.append(":");
    out.append(decimal_string(port as u64).as_str());
    out.append(" failed: ");
    out.append(detail);
    out
}

/// `Routing TCP connect to host:port timed out`.
pub fn routing_tcp_connect_timeout_message(host: &str, port: u16) -> (r: String)
    ensures
        r@ == "Routing TCP connect to "@ + host@ + ":"@ + dec_str(port as nat) + " timed out"@,
{
    let mut out = String::new();
    out.append("Routing TCP connect to ");
    out.append(host);
    out.append(":");
    out.append(decimal_string(port as u64).as_str());
    out.append(" timed out");
    out
}

} // verus!
