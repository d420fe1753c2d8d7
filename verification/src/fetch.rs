//! The reachability probe: resolving a domain and a path into an absolute
//! URL, and deciding the outcome of the race between a fetch and a deadline.
//!
//! The fetch and the timer themselves run outside this module. What is decided
//! here is which outcome each of their signals produces, and that only the
//! first signal counts.

use vstd::prelude::*;
use vstd::string::StringExecFns;
use crate::syntax::{colon_led, has_scheme, is_colon_led, names_scheme};

verus! {

/// The default deadline of a probe, in seconds.
pub const TIMEOUT: u64 = 10;

/// The one status code that counts as success. Every other code, the other
/// codes of the 2xx range among them, is reported as a bad status.
pub const STATUS_OK: u16 = 200;

/// The outcome of a probe. The URL variants carry the serialization of the
/// resolved absolute URL; `Malformed` carries the path as it was given.
#[derive(Debug, Clone)]
pub enum UrlState {
    /// The fetch completed with status 200.
    Accessible(String),
    /// The fetch completed with any other status.
    BadStatus(String, u16),
    /// The fetch failed at the transport layer.
    ConnectionFailed(String),
    /// The deadline passed before the fetch completed.
    TimedOut(String),
    /// Domain and path did not resolve into a valid URL.
    Malformed(String),
}

/// What a participant of the race reports.
#[derive(Debug, Clone, Copy)]
pub enum Signal {
    /// The fetch completed with this status code.
    Responded(u16),
    /// The fetch failed before any response arrived.
    TransportFailed,
    /// The timer fired.
    DeadlineElapsed,
}

/// A probe in progress: waiting for the first signal about a URL, or decided.
#[derive(Debug, Clone)]
pub enum Probe {
    /// The URL resolved and no signal has arrived yet; the payload is the
    /// URL to fetch.
    Pending(String),
    /// The outcome is fixed.
    Decided(UrlState),
}

/// The absolute URL, in serialized form, that `reference` resolves to against
/// the absolute URL written as `base`, by the rules of reference resolution;
/// `None` where `base` is no absolute URL or the resolution fails.
pub uninterp spec fn resolved_url(base: Seq<char>, reference: Seq<char>) -> Option<Seq<char>>;

/// Parses `base` with `url::Url::parse` and resolves `reference` against it
/// with `url::Url::join`. Both report failure as an error value, which becomes
/// `None` here; a success is handed back as the URL's serialization. The
/// result depends on the two texts alone, and the contract only gives it its
/// name.
#[verifier::external_body]
fn resolve(base: &str, reference: &str) -> (url: Option<String>)
    ensures
        match url {
            Some(u) => resolved_url(base@, reference@) == Some(u@),
            None => resolved_url(base@, reference@) is None,
        },
{
    match url::Url::parse(base) {
        Ok(parsed) => match parsed.join(reference) {
            Ok(joined) => Some(String::from(joined)),
            Err(_) => None,
        },
        Err(_) => None,
    }
}

/// The base that a domain stands for: the domain itself where it names a
/// scheme, otherwise the domain under the `http` scheme.
pub open spec fn base_of(domain: Seq<char>) -> Seq<char> {
    if has_scheme(domain) {
        domain
    } else {
        "http://"@ + domain
    }
}

/// What `path` resolves to on `domain`: nothing where the path has a colon in
/// its first segment and no scheme before it, otherwise what resolving it
/// against the domain's base gives.
pub open spec fn resolution(domain: Seq<char>, path: Seq<char>) -> Option<Seq<char>> {
    if is_colon_led(path) {
        None
    } else {
        resolved_url(base_of(domain), path)
    }
}

/// Resolves `path` as a reference against the base that `domain` stands for.
/// An absolute `path` overrides the base; a relative one is merged with it.
/// Returns the serialized URL, or `None` where the two do not resolve.
pub fn build_url(domain: &str, path: &str) -> (url: Option<String>)
    ensures
        match url {
            Some(u) => resolution(domain@, path@) == Some(u@),
            None => resolution(domain@, path@) is None,
        },
{
    if colon_led(path) {
        return None;
    }
    if names_scheme(domain) {
        resolve(domain, path)
    } else {
        let mut base = String::from_str("http://");
        base.append(domain);
        resolve(base.as_str(), path)
    }
}

/// The text of one decimal digit.
pub open spec fn digit_text(d: nat) -> Seq<char> {
    if d == 0 {
        "0"@
    } else if d == 1 {
        "1"@
    } else if d == 2 {
        "2"@
    } else if d == 3 {
        "3"@
    } else if d == 4 {
        "4"@
    } else if d == 5 {
        "5"@
    } else if d == 6 {
        "6"@
    } else if d == 7 {
        "7"@
    } else if d == 8 {
        "8"@
    } else {
        "9"@
    }
}

/// The decimal numeral of `n`, without leading zeros.
pub open spec fn decimal(n: nat) -> Seq<char>
    decreases n,
{
    if n < 10 {
        digit_text(n)
    } else {
        decimal(n / 10) + digit_text(n % 10)
    }
}

fn digit_str(d: u16) -> (text: &'static str)
    requires
        d < 10,
    ensures
        text@ == digit_text(d as nat),
{
    if d == 0 {
        "0"
    } else if d == 1 {
        "1"
    } else if d == 2 {
        "2"
    } else if d == 3 {
        "3"
    } else if d == 4 {
        "4"
    } else if d == 5 {
        "5"
    } else if d == 6 {
        "6"
    } else if d == 7 {
        "7"
    } else if d == 8 {
        "8"
    } else {
        "9"
    }
}

/// Appends the decimal numeral of `n` to `out`.
pub fn push_decimal(out: &mut String, n: u16)
    ensures
        final(out)@ == old(out)@ + decimal(n as nat),
    decreases n,
{
    if n >= 10 {
        push_decimal(out, n / 10);
    }
    out.append(digit_str(n % 10));
    assert(out@ =~= old(out)@ + decimal(n as nat));
}

impl UrlState {
    /// The canonical one-line rendering of an outcome.
    pub open spec fn rendering(self) -> Seq<char> {
        match self {
            UrlState::Accessible(url) => "!! "@ + url@,
            UrlState::BadStatus(url, status) => "!! "@ + url@ + " ("@ + decimal(status as nat)
                + ")"@,
            UrlState::ConnectionFailed(url) => "!! "@ + url@ + " (connection failed)"@,
            UrlState::TimedOut(url) => "!! "@ + url@ + " (timed out)"@,
            UrlState::Malformed(path) => "!! "@ + path@ + " (malformed)"@,
        }
    }

    /// Renders the outcome for a report or a log.
    pub fn render(&self) -> (text: String)
        ensures
            text@ == self.rendering(),
    {
        let mut text = String::from_str("!! ");
        match self {
            UrlState::Accessible(url) => {
                text.append(url.as_str());
            },
            UrlState::BadStatus(url, status) => {
                text.append(url.as_str());
                text.append(" (");
                push_decimal(&mut text, *status);
                text.append(")");
            },
            UrlState::ConnectionFailed(url) => {
                text.append(url.as_str());
                text.append(" (connection failed)");
            },
            UrlState::TimedOut(url) => {
                text.append(url.as_str());
                text.append(" (timed out)");
            },
            UrlState::Malformed(path) => {
                text.append(path.as_str());
                text.append(" (malformed)");
            },
        }
        text
    }
}

/// The outcome that `signal` decides for the probe of `url`.
pub open spec fn outcome_of(url: String, signal: Signal) -> UrlState {
    match signal {
        Signal::Responded(status) => if status == STATUS_OK {
            UrlState::Accessible(url)
        } else {
            UrlState::BadStatus(url, status)
        },
        Signal::TransportFailed => UrlState::ConnectionFailed(url),
        Signal::DeadlineElapsed => UrlState::TimedOut(url),
    }
}

/// Classifies the first signal of the race for `url`.
pub fn classify(url: String, signal: Signal) -> (state: UrlState)
    ensures
        state == outcome_of(url, signal),
{
    match signal {
        Signal::Responded(status) => {
            if status == STATUS_OK {
                UrlState::Accessible(url)
            } else {
                UrlState::BadStatus(url, status)
            }
        },
        Signal::TransportFailed => UrlState::ConnectionFailed(url),
        Signal::DeadlineElapsed => UrlState::TimedOut(url),
    }
}

impl Probe {
    /// Whether the probe has its outcome.
    pub open spec fn is_decided(self) -> bool {
        self is Decided
    }

    /// The probe after `signal` has arrived: a pending probe is decided by
    /// it, a decided probe ignores it.
    pub open spec fn delivered(self, signal: Signal) -> Probe {
        match self {
            Probe::Pending(url) => Probe::Decided(outcome_of(url, signal)),
            Probe::Decided(state) => Probe::Decided(state),
        }
    }

    /// Starts a probe from the result of resolving its URL: pending on the
    /// URL where there is one, otherwise decided at once as malformed, with
    /// the path as given and no fetch to make.
    pub fn from_resolution(resolved: Option<String>, path: &str) -> (probe: Probe)
        ensures
            match resolved {
                Some(url) => probe == Probe::Pending(url),
                None => probe matches Probe::Decided(UrlState::Malformed(p)) && p@ == path@,
            },
    {
        match resolved {
            Some(url) => Probe::Pending(url),
            None => Probe::Decided(UrlState::Malformed(path.to_owned())),
        }
    }

    /// Starts the probe of `path` on `domain`. Where the two resolve, the
    /// probe is pending on the resolved URL and the race may start; where
    /// they do not, it is decided as malformed before any fetch.
    pub fn begin(domain: &str, path: &str) -> (probe: Probe)
        ensures
            match resolution(domain@, path@) {
                Some(u) => probe matches Probe::Pending(url) && url@ == u,
                None => probe matches Probe::Decided(UrlState::Malformed(p)) && p@ == path@,
            },
    {
        Probe::from_resolution(build_url(domain, path), path)
    }

    /// Hands a signal of the race to the probe. The first signal decides the
    /// outcome; any later one is dropped.
    pub fn deliver(self, signal: Signal) -> (next: Probe)
        ensures
            next == self.delivered(signal),
    {
        match self {
            Probe::Pending(url) => Probe::Decided(classify(url, signal)),
            Probe::Decided(state) => Probe::Decided(state),
        }
    }

    /// The URL to fetch while the probe is pending.
    pub fn target(&self) -> (url: Option<&String>)
        ensures
            match *self {
                Probe::Pending(u) => url == Some(&u),
                Probe::Decided(_) => url is None,
            },
    {
        match self {
            Probe::Pending(u) => Some(u),
            Probe::Decided(_) => None,
        }
    }

    /// The outcome, once there is one.
    pub fn outcome(self) -> (state: Option<UrlState>)
        ensures
            match self {
                Probe::Pending(_) => state is None,
                Probe::Decided(s) => state == Some(s),
            },
    {
        match self {
            Probe::Pending(_) => None,
            Probe::Decided(s) => Some(s),
        }
    }
}

/// One signal decides any probe: after it the probe has an outcome, whatever
/// the signal was.
pub proof fn one_signal_decides(probe: Probe, signal: Signal)
    ensures
        probe.delivered(signal).is_decided(),
{
}

/// The first signal wins: once a signal has arrived, a later one changes
/// nothing, so a probe never has a second outcome.
pub proof fn later_signal_is_dropped(probe: Probe, first: Signal, later: Signal)
    ensures
        probe.delivered(first).delivered(later) == probe.delivered(first),
{
}

/// Every outcome of a race is one of the four that carry the probed URL,
/// and which one is fixed by the first signal alone: success only for a
/// response with the exact status 200, and never `Malformed`.
pub proof fn race_outcome_is_classified(url: String, signal: Signal)
    ensures
        !(outcome_of(url, signal) is Malformed),
        outcome_of(url, signal) is Accessible <==> signal == Signal::Responded(STATUS_OK),
        outcome_of(url, signal) is BadStatus <==> (signal is Responded && signal
            != Signal::Responded(STATUS_OK)),
        outcome_of(url, signal) is ConnectionFailed <==> signal is TransportFailed,
        outcome_of(url, signal) is TimedOut <==> signal is DeadlineElapsed,
{
}

} // verus!
