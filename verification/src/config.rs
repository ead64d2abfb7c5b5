//! The settings that the broker is started with.

use vstd::prelude::*;
use crate::text::chars_of;

verus! {

/// Client authentication: whether it is on, and the secrets it accepts.
#[derive(Debug, PartialEq, Eq)]
pub struct AuthConfig {
    pub enabled: bool,
    pub tokens: Option<Vec<String>>,
}

/// Where the broker listens and what it injects.
#[derive(Debug, PartialEq, Eq)]
pub struct MainConfig {
    /// Address that the listener binds.
    pub hostname: String,
    /// Path of the payload template, relative to the executable's directory.
    pub payload_path: String,
    /// Whether an instance that is already injected may be terminated.
    pub replace_other_instances: bool,
}

/// All settings.
#[derive(Debug, PartialEq, Eq)]
pub struct Config {
    pub conductor: MainConfig,
    pub auth: Option<AuthConfig>,
}

pub struct AuthConfigView {
    pub enabled: bool,
    pub tokens: Option<Seq<Seq<char>>>,
}

/// The views of a list of strings.
pub open spec fn strings_view(strings: Seq<String>) -> Seq<Seq<char>> {
    strings.map_values(|s: String| s@)
}

impl View for AuthConfig {
    type V = AuthConfigView;

    open spec fn view(&self) -> AuthConfigView {
        AuthConfigView {
            enabled: self.enabled,
            tokens: match self.tokens {
                Some(tokens) => Some(strings_view(tokens@)),
                None => None,
            },
        }
    }
}

impl AuthConfigView {
    /// Authentication that is switched on needs at least one secret to accept.
    pub open spec fn usable(self) -> bool {
        self.enabled ==> (self.tokens matches Some(tokens) && tokens.len() > 0)
    }
}

impl AuthConfig {
    /// Whether these settings can be served: with authentication enabled
    /// there is at least one token.
    pub fn is_usable(&self) -> (r: bool)
        ensures
            r == self@.usable(),
    {
        if !self.enabled {
            return true;
        }
        match &self.tokens {
            Some(tokens) => tokens.len() > 0,
            None => false,
        }
    }
}

/// Whether `c` is a decimal digit.
pub open spec fn is_digit(c: char) -> bool {
    '0' <= c && c <= '9'
}

/// The number that a string of decimal digits writes.
pub open spec fn digits_value(digits: Seq<char>) -> nat
    decreases digits.len(),
{
    if digits.len() == 0 {
        0
    } else {
        digits_value(digits.drop_last()) * 10 + (digits.last() as nat - '0' as nat) as nat
    }
}

/// Whether `text` writes the port `port`: one decimal digit or more, and
/// nothing else.
pub open spec fn writes_port(text: Seq<char>, port: u16) -> bool {
    &&& text.len() > 0
    &&& forall|i: int| 0 <= i < text.len() ==> is_digit(#[trigger] text[i])
    &&& digits_value(text) == port
}

/// Whether the last colon of `host` stands at `at`.
pub open spec fn is_last_colon(host: Seq<char>, at: int) -> bool {
    &&& 0 <= at < host.len()
    &&& host[at] == ':'
    &&& forall|j: int| at < j < host.len() ==> #[trigger] host[j] != ':'
}

/// Whether `host` ends in the port `port`: a colon, and behind the last
/// colon the port in decimal.
pub open spec fn ends_in_port(host: Seq<char>, port: u16) -> bool {
    exists|at: int| is_last_colon(host, at) && writes_port(#[trigger] host.skip(at + 1), port)
}

/// The port that `host` ends in, if it ends in one.
pub open spec fn port_of(host: Seq<char>) -> Option<u16> {
    if exists|port: u16| ends_in_port(host, port) {
        Some(choose|port: u16| ends_in_port(host, port))
    } else {
        None
    }
}

/// The number that digits write does not get smaller with more digits.
proof fn lemma_value_grows(digits: Seq<char>, n: int)
    requires
        0 <= n <= digits.len(),
        forall|i: int| 0 <= i < digits.len() ==> is_digit(#[trigger] digits[i]),
    ensures
        digits_value(digits.take(n)) <= digits_value(digits),
    decreases digits.len(),
{
    if n == digits.len() {
        assert(digits.take(n) =~= digits);
    } else {
        lemma_value_grows(digits.drop_last(), n);
        assert(digits.drop_last().take(n) =~= digits.take(n));
    }
}

/// A host has one last colon at most, and one port at most.
pub proof fn port_is_unique(host: Seq<char>, a: u16, b: u16)
    requires
        ends_in_port(host, a),
        ends_in_port(host, b),
    ensures
        a == b,
{
    let i = choose|at: int| is_last_colon(host, at) && writes_port(#[trigger] host.skip(at + 1), a);
    let j = choose|at: int| is_last_colon(host, at) && writes_port(#[trigger] host.skip(at + 1), b);
    if i < j {
        assert(host[j] != ':');
    } else if j < i {
        assert(host[i] != ':');
    }
}

impl MainConfig {
    /// The port that the listener's address ends in, which is the port that
    /// the payload connects to.
    pub fn port(&self) -> (r: Option<u16>)
        ensures
            r == port_of(self.hostname@),
            match r {
                Some(port) => ends_in_port(self.hostname@, port),
                None => forall|port: u16| !ends_in_port(self.hostname@, port),
            },
    {
        let r = self.read_port();
        proof {
            if let Some(port) = r {
                port_is_unique(self.hostname@, port, port_of(self.hostname@)->0);
            }
        }
        r
    }

    fn read_port(&self) -> (r: Option<u16>)
        ensures
            match r {
                Some(port) => ends_in_port(self.hostname@, port),
                None => forall|port: u16| !ends_in_port(self.hostname@, port),
            },
    {
        let host = chars_of(self.hostname.as_str());
        let mut at: usize = host.len();
        while at > 0 && host[at - 1] != ':'
            invariant
                at <= host.len(),
                forall|j: int| at <= j < host.len() ==> #[trigger] host@[j] != ':',
            decreases at,
        {
            at = at - 1;
        }
        if at == 0 {
            assert forall|port: u16| !ends_in_port(host@, port) by {
                if ends_in_port(host@, port) {
                    let c = choose|c: int|
                        is_last_colon(host@, c) && writes_port(#[trigger] host@.skip(c + 1), port);
                    assert(host@[c] != ':');
                }
            }
            return None;
        }
        let ghost colon = at - 1;
        let ghost digits = host@.skip(at as int);
        assert(is_last_colon(host@, colon));
        assert forall|port: u16| ends_in_port(host@, port) implies writes_port(digits, port) by {
            let c = choose|c: int|
                is_last_colon(host@, c) && writes_port(#[trigger] host@.skip(c + 1), port);
            if c < colon {
                assert(host@[colon] != ':');
            } else if colon < c {
                assert(host@[c] != ':');
            }
        }
        if at == host.len() {
            return None;
        }
        let mut value: u32 = 0;
        let mut i: usize = at;
        assert(digits.take(0) =~= Seq::empty());
        while i < host.len()
            invariant
                at <= i <= host.len(),
                at < host.len(),
                digits == host@.skip(at as int),
                host@ == self.hostname@,
                forall|port: u16| ends_in_port(host@, port) ==> writes_port(digits, port),
                is_last_colon(host@, at - 1),
                forall|j: int| 0 <= j < i - at ==> is_digit(#[trigger] digits[j]),
                value == digits_value(digits.take(i - at)),
                value <= 65535,
            decreases host.len() - i,
        {
            let c = host[i];
            assert(digits[i - at] == c);
            if !('0' <= c && c <= '9') {
                return None;
            }
            let ghost next = digits.take(i - at + 1);
            assert(next.drop_last() =~= digits.take(i - at));
            assert(next.last() == c);
            let d: u32 = (c as u32) - ('0' as u32);
            value = value * 10 + d;
            if value > 65535 {
                proof {
                    assert forall|port: u16| !ends_in_port(host@, port) by {
                        if ends_in_port(host@, port) {
                            lemma_value_grows(digits, i - at + 1);
                        }
                    }
                }
                return None;
            }
            i = i + 1;
        }
        assert(digits.take(i - at) =~= digits);
        let port = value as u16;
        assert(writes_port(digits, port));
        assert(host@.skip((at - 1) + 1) =~= digits);
        assert(ends_in_port(host@, port));
        Some(port)
    }
}

impl Config {
    /// Whether the broker can start with these settings: the `auth` table is
    /// absent or usable.
    pub fn auth_is_usable(&self) -> (r: bool)
        ensures
            r == match self.auth {
                Some(auth) => auth@.usable(),
                None => true,
            },
    {
        match &self.auth {
            Some(auth) => auth.is_usable(),
            None => true,
        }
    }
}

} // verus!
