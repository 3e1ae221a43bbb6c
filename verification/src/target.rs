//! Target normalization and run planning.
//!
//! A raw target string that carries no port delimiter gets the configured
//! default port appended, exactly once, before any probing starts; the
//! normalized form is what every downstream record shows. Planning a run
//! normalizes the whole target list and rejects an empty one as a
//! configuration error before any work is dispatched.

use vstd::prelude::*;

verus! {

/// A startup failure, reported before any probe runs.
#[derive(Debug, PartialEq, Eq, Structural)]
pub enum ConfigError {
    /// The target list was empty.
    NoTargets,
}

impl ConfigError {
    /// The human-readable description of this configuration error.
    pub fn message(&self) -> (m: String)
        ensures
            m@ == "No Endpoints given"@,
    {
        "No Endpoints given".to_owned()
    }
}

/// The decimal digits of `n`, most significant first.
pub open spec fn spec_decimal(n: nat) -> Seq<char>
    decreases n,
{
    if n < 10 {
        seq![spec_digit(n)]
    } else {
        spec_decimal(n / 10).push(spec_digit(n % 10))
    }
}

/// The character for one decimal digit.
pub open spec fn spec_digit(d: nat) -> char {
    if d == 0 {
        '0'
    } else if d == 1 {
        '1'
    } else if d == 2 {
        '2'
    } else if d == 3 {
        '3'
    } else if d == 4 {
        '4'
    } else if d == 5 {
        '5'
    } else if d == 6 {
        '6'
    } else if d == 7 {
        '7'
    } else if d == 8 {
        '8'
    } else {
        '9'
    }
}

/// Whether the string holds a port delimiter.
pub open spec fn has_colon(s: Seq<char>) -> bool {
    exists|i: int| 0 <= i < s.len() && s[i] == ':'
}

/// The normalized form of a raw target: unchanged when it already names a
/// port, and with `:` and the default port's decimal digits appended when it
/// does not.
pub open spec fn spec_normalized(host: Seq<char>, port: nat) -> Seq<char> {
    if has_colon(host) {
        host
    } else {
        host + seq![':'] + spec_decimal(port)
    }
}

fn digit_str(d: u16) -> (s: &'static str)
    requires
        d < 10,
    ensures
        s@ == seq![spec_digit(d as nat)],
{
    proof {
        reveal_strlit("0");
        reveal_strlit("1");
        reveal_strlit("2");
        reveal_strlit("3");
        reveal_strlit("4");
        reveal_strlit("5");
        reveal_strlit("6");
        reveal_strlit("7");
        reveal_strlit("8");
        reveal_strlit("9");
    }
    let s = match d {
        0 => "0",
        1 => "1",
        2 => "2",
        3 => "3",
        4 => "4",
        5 => "5",
        6 => "6",
        7 => "7",
        8 => "8",
        _ => "9",
    };
    proof {
        assert(s@ =~= seq![spec_digit(d as nat)]);
    }
    s
}

/// The decimal rendering of a port number.
pub fn decimal_string(n: u16) -> (s: String)
    ensures
        s@ == spec_decimal(n as nat),
    decreases n,
{
    if n < 10 {
        digit_str(n).to_owned()
    } else {
        let mut s = decimal_string(n / 10);
        s.append(digit_str(n % 10));
        proof {
            assert(s@ =~= spec_decimal(n as nat));
        }
        s
    }
}

fn contains_colon(s: &String) -> (r: bool)
    ensures
        r == has_colon(s@),
{
    let length = s.as_str().unicode_len();
    let mut i: usize = 0;
    while i < length
        invariant
            length == s@.len(),
            i <= length,
            forall|j: int| 0 <= j < i ==> s@[j] != ':',
        decreases length - i,
    {
        if s.as_str().get_char(i) == ':' {
            return true;
        }
        i = i + 1;
    }
    false
}

/// Appends the default port to a raw target that names none; a target that
/// already holds a port delimiter passes through unchanged. Normalization is
/// performed once, before dispatch, and its result is the identifier every
/// downstream record carries.
pub fn normalize_target(host: &String, default_port: u16) -> (normalized: String)
    ensures
        normalized@ == spec_normalized(host@, default_port as nat),
{
    if contains_colon(host) {
        host.clone()
    } else {
        proof {
            reveal_strlit(":");
        }
        let mut normalized = host.clone();
        normalized.append(":");
        let port = decimal_string(default_port);
        normalized.append(port.as_str());
        proof {
            assert(normalized@ =~= spec_normalized(host@, default_port as nat));
        }
        normalized
    }
}

/// Normalizes the whole target list, or reports the configuration error when
/// the list is empty: an empty run performs no work and produces no outcome
/// and no statistics record.
pub fn plan_targets(hosts: &Vec<String>, default_port: u16) -> (r: Result<
    Vec<String>,
    ConfigError,
>)
    ensures
        r is Err <==> hosts@.len() == 0,
        r matches Err(e) ==> e == ConfigError::NoTargets,
        r matches Ok(targets) ==> targets@.len() == hosts@.len() && forall|i: int|
            0 <= i < hosts@.len() ==> (#[trigger] targets@[i])@ == spec_normalized(
                hosts@[i]@,
                default_port as nat,
            ),
{
    if hosts.len() == 0 {
        return Err(ConfigError::NoTargets);
    }
    let mut targets: Vec<String> = Vec::new();
    let mut i: usize = 0;
    while i < hosts.len()
        invariant
            i <= hosts.len(),
            targets@.len() == i,
            forall|j: int|
                0 <= j < i ==> (#[trigger] targets@[j])@ == spec_normalized(
                    hosts@[j]@,
                    default_port as nat,
                ),
        decreases hosts.len() - i,
    {
        let normalized = normalize_target(&hosts[i], default_port);
        targets.push(normalized);
        i = i + 1;
    }
    Ok(targets)
}

/// How many outcomes a complete run delivers: one per attempt per normalized
/// target. `None` when that count does not fit the machine's word.
pub fn expected_event_count(target_count: usize, attempts: usize) -> (r: Option<usize>)
    ensures
        r matches Some(total) ==> total == target_count * attempts,
        r is None <==> target_count * attempts > usize::MAX,
{
    target_count.checked_mul(attempts)
}

} // verus!
