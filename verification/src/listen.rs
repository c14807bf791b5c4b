//! Addresses to listen at, and what a form is checked for.

use crate::text::{
    all_digits, chars_of, decimal, is_blank, is_digit, lemma_decimal_reads_back, parse_unsigned,
    push_decimal, str_is_blank, string_of, unsigned_value, without_plus,
};
use vstd::prelude::*;

verus! {

/// What is wrong with a form.
#[derive(Clone, Copy, Debug, PartialEq, Eq, Structural)]
pub enum ConfigValidationError {
    EmptyDeviceName,
    InvalidPort,
    EmptyHost,
    MissingListenPort,
    InvalidListenPort,
}

impl ConfigValidationError {
    /// What the error says, in words.
    pub open spec fn words(self) -> Seq<char> {
        match self {
            ConfigValidationError::EmptyDeviceName => "device name must not be empty"@,
            ConfigValidationError::InvalidPort => "port must be between 1 and 65535"@,
            ConfigValidationError::EmptyHost => "host must not be empty"@,
            ConfigValidationError::MissingListenPort => "listen address must include a port"@,
            ConfigValidationError::InvalidListenPort => "listen port is invalid"@,
        }
    }

    /// The words of the error.
    pub fn text(self) -> (text: String)
        ensures
            text@ == self.words(),
    {
        match self {
            ConfigValidationError::EmptyDeviceName => "device name must not be empty".to_owned(),
            ConfigValidationError::InvalidPort => "port must be between 1 and 65535".to_owned(),
            ConfigValidationError::EmptyHost => "host must not be empty".to_owned(),
            ConfigValidationError::MissingListenPort =>
                "listen address must include a port".to_owned(),
            ConfigValidationError::InvalidListenPort => "listen port is invalid".to_owned(),
        }
    }
}

/// A closing bracket and a colon stand at a place.
pub open spec fn closes_at(s: Seq<char>, i: int) -> bool {
    0 <= i && i + 1 < s.len() && s[i] == ']' && s[i + 1] == ':'
}

/// The first place, from a given one on, at which a bracket closes before a colon.
pub open spec fn first_close(s: Seq<char>, from: int) -> Option<int>
    decreases s.len() - from,
{
    if from >= s.len() {
        None
    } else if closes_at(s, from) {
        Some(from)
    } else {
        first_close(s, from + 1)
    }
}

/// The place of the last colon.
pub open spec fn last_colon(s: Seq<char>) -> Option<int>
    decreases s.len(),
{
    if s.len() == 0 {
        None
    } else if s.last() == ':' {
        Some(s.len() - 1)
    } else {
        last_colon(s.drop_last())
    }
}

/// The host and the port of an address. Behind an opening bracket the host
/// ends where the bracket closes before a colon; else it ends at the last
/// colon.
pub open spec fn host_and_port(s: Seq<char>) -> Option<(Seq<char>, Seq<char>)> {
    if s.len() > 0 && s[0] == '[' {
        match first_close(s, 1) {
            Some(i) => Some((s.subrange(1, i), s.skip(i + 2))),
            None => None,
        }
    } else {
        match last_colon(s) {
            Some(i) => Some((s.take(i), s.skip(i + 1))),
            None => None,
        }
    }
}

fn find_close(chars: &Vec<char>, from: usize) -> (at: Option<usize>)
    ensures
        match at {
            Some(i) => first_close(chars@, from as int) == Some(i as int) && i + 1 < chars@.len()
                && from <= i,
            None => first_close(chars@, from as int) is None,
        },
{
    let total: usize = chars.len();
    let mut i: usize = from;
    while i < total
        invariant
            total == chars@.len(),
            from <= i,
            i <= total || i == from,
            first_close(chars@, i as int) == first_close(chars@, from as int),
        decreases total - i,
    {
        if chars[i] == ']' && i + 1 < total && chars[i + 1] == ':' {
            return Some(i);
        }
        i = i + 1;
    }
    None
}

fn find_last_colon(chars: &Vec<char>) -> (at: Option<usize>)
    ensures
        match at {
            Some(i) => last_colon(chars@) == Some(i as int) && i < chars@.len(),
            None => last_colon(chars@) is None,
        },
{
    let mut i: usize = chars.len();
    assert(chars@.take(i as int) =~= chars@);
    while i > 0
        invariant
            i <= chars@.len(),
            last_colon(chars@) == last_colon(chars@.take(i as int)),
        decreases i,
    {
        assert(chars@.take(i as int).drop_last() =~= chars@.take(i - 1));
        if chars[i - 1] == ':' {
            return Some(i - 1);
        }
        i = i - 1;
    }
    None
}

fn split_host_port(value: &str) -> (out: Option<(String, String)>)
    ensures
        match out {
            Some((host, port)) => host_and_port(value@) == Some((host@, port@)),
            None => host_and_port(value@) is None,
        },
{
    let chars: Vec<char> = chars_of(value);
    let total: usize = chars.len();
    if total > 0 && chars[0] == '[' {
        match find_close(&chars, 1) {
            Some(i) => {
                assert(chars@.skip(i + 2) =~= chars@.subrange(i + 2, total as int));
                Some((string_of(&chars, 1, i), string_of(&chars, i + 2, total)))
            },
            None => None,
        }
    } else {
        match find_last_colon(&chars) {
            Some(i) => {
                assert(chars@.take(i as int) =~= chars@.subrange(0, i as int));
                assert(chars@.skip(i + 1) =~= chars@.subrange(i + 1, total as int));
                Some((string_of(&chars, 0, i), string_of(&chars, i + 1, total)))
            },
            None => None,
        }
    }
}

/// The port of an address to listen at, or what is wrong with it.
pub open spec fn listen_port(listen: Seq<char>) -> Result<nat, ConfigValidationError> {
    match host_and_port(listen) {
        None => Err(ConfigValidationError::MissingListenPort),
        Some((_, port)) => match unsigned_value(port, u16::MAX as nat) {
            Some(n) => if n != 0 {
                Ok(n)
            } else {
                Err(ConfigValidationError::InvalidListenPort)
            },
            None => Err(ConfigValidationError::InvalidListenPort),
        },
    }
}

/// Reads the port of an address to listen at.
pub fn parse_listen_port(listen: &str) -> (out: Result<u16, ConfigValidationError>)
    ensures
        match out {
            Ok(port) => listen_port(listen@) == Ok::<nat, ConfigValidationError>(port as nat),
            Err(error) => listen_port(listen@) == Err::<nat, ConfigValidationError>(error),
        },
{
    match split_host_port(listen) {
        None => Err(ConfigValidationError::MissingListenPort),
        Some((_, port)) => match parse_unsigned(port.as_str(), u16::MAX as u64) {
            Some(n) => if n != 0 {
                Ok(n as u16)
            } else {
                Err(ConfigValidationError::InvalidListenPort)
            },
            None => Err(ConfigValidationError::InvalidListenPort),
        },
    }
}

/// The host that an address to listen at names; all of them where it names none.
pub open spec fn listen_host(listen: Option<Seq<char>>) -> Seq<char> {
    match listen {
        Some(listen) => match host_and_port(listen) {
            Some((host, _)) => if is_blank(host) {
                "0.0.0.0"@
            } else {
                host
            },
            None => "0.0.0.0"@,
        },
        None => "0.0.0.0"@,
    }
}

/// A host that already stands in brackets.
pub open spec fn is_bracketed(host: Seq<char>) -> bool {
    host.len() > 0 && host[0] == '[' && host.last() == ']'
}

/// An address of a host and a port: a host with a colon in it is put in
/// brackets, unless it is in brackets already.
pub open spec fn address(host: Seq<char>, port: nat) -> Seq<char> {
    if !is_bracketed(host) && host.contains(':') {
        seq!['['] + host + seq![']', ':'] + decimal(port)
    } else {
        host + seq![':'] + decimal(port)
    }
}

/// An address to listen at with another port.
pub open spec fn relocated(listen: Option<Seq<char>>, port: nat) -> Seq<char> {
    address(listen_host(listen), port)
}

fn has_colon(chars: &Vec<char>) -> (found: bool)
    ensures
        found == chars@.contains(':'),
{
    let mut i: usize = 0;
    while i < chars.len()
        invariant
            i <= chars@.len(),
            forall|k: int| 0 <= k < i ==> chars@[k] != ':',
        decreases chars@.len() - i,
    {
        if chars[i] == ':' {
            return true;
        }
        i = i + 1;
    }
    false
}

/// Gives an address to listen at another port.
pub fn update_listen_port(listen: Option<&str>, port: u16) -> (out: String)
    ensures
        out@ == relocated(
            match listen {
                Some(listen) => Some(listen@),
                None => None,
            },
            port as nat,
        ),
{
    let mut host: String = "0.0.0.0".to_owned();
    if let Some(listen) = listen {
        if let Some((named, _)) = split_host_port(listen) {
            if !str_is_blank(named.as_str()) {
                host = named;
            }
        }
    }
    let chars: Vec<char> = chars_of(host.as_str());
    let total: usize = chars.len();
    let bracketed: bool = total > 0 && chars[0] == '[' && chars[total - 1] == ']';
    let mut out: String = String::new();
    if !bracketed && has_colon(&chars) {
        out.push('[');
        out.append(host.as_str());
        out.push(']');
        out.push(':');
        push_decimal(&mut out, port as u64);
        assert(out@ =~= seq!['['] + host@ + seq![']', ':'] + decimal(port as nat));
    } else {
        out.append(host.as_str());
        out.push(':');
        push_decimal(&mut out, port as u64);
        assert(out@ =~= host@ + seq![':'] + decimal(port as nat));
    }
    out
}

/// Checks that a device has a name.
pub fn validate_device_name(name: &str) -> (out: Result<(), ConfigValidationError>)
    ensures
        out == (if is_blank(name@) {
            Err(ConfigValidationError::EmptyDeviceName)
        } else {
            Ok(())
        }),
{
    if str_is_blank(name) {
        Err(ConfigValidationError::EmptyDeviceName)
    } else {
        Ok(())
    }
}

/// Checks that a port can be connected to.
pub fn validate_port(port: u16) -> (out: Result<(), ConfigValidationError>)
    ensures
        out == (if port == 0 {
            Err(ConfigValidationError::InvalidPort)
        } else {
            Ok(())
        }),
{
    if port == 0 {
        Err(ConfigValidationError::InvalidPort)
    } else {
        Ok(())
    }
}

/// Checks that a host has a name.
pub fn validate_host(host: &str) -> (out: Result<(), ConfigValidationError>)
    ensures
        out == (if is_blank(host@) {
            Err(ConfigValidationError::EmptyHost)
        } else {
            Ok(())
        }),
{
    if str_is_blank(host) {
        Err(ConfigValidationError::EmptyHost)
    } else {
        Ok(())
    }
}

proof fn lemma_first_close_is(s: Seq<char>, from: int, at: int)
    requires
        0 <= from <= at,
        closes_at(s, at),
        forall|i: int| from <= i < at ==> !#[trigger] closes_at(s, i),
    ensures
        first_close(s, from) == Some(at),
    decreases at - from,
{
    if from < at {
        assert(!closes_at(s, from));
        lemma_first_close_is(s, from + 1, at);
    }
}

proof fn lemma_last_colon_before_digits(s: Seq<char>, at: int)
    requires
        0 <= at < s.len(),
        s[at] == ':',
        all_digits(s.skip(at + 1)),
    ensures
        last_colon(s) == Some(at),
    decreases s.len(),
{
    if at + 1 < s.len() {
        let tail = s.skip(at + 1);
        assert(is_digit(tail[tail.len() - 1]));
        assert(s.last() != ':');
        let shorter = s.drop_last();
        assert forall|i: int| 0 <= i < shorter.skip(at + 1).len() implies is_digit(
            #[trigger] shorter.skip(at + 1)[i],
        ) by {
            assert(shorter.skip(at + 1)[i] == tail[i]);
        }
        lemma_last_colon_before_digits(shorter, at);
    }
}

/// A host that can be told from a port: no bracket closes before a colon in
/// it, and where it opens a bracket it also closes it or is put in brackets.
pub open spec fn can_be_told_apart(host: Seq<char>) -> bool {
    &&& forall|i: int| !#[trigger] closes_at(host, i)
    &&& host.len() > 0 && host[0] == '[' ==> is_bracketed(host) || host.contains(':')
}

/// What an address of a host and a port reads back as: the host, without the
/// brackets that it may have come with, and the port.
pub proof fn law_address_reads_back(host: Seq<char>, port: nat)
    requires
        can_be_told_apart(host),
    ensures
        host_and_port(address(host, port)) == Some(
            (
                if is_bracketed(host) {
                    host.subrange(1, host.len() - 1)
                } else {
                    host
                },
                decimal(port),
            ),
        ),
{
    let text = address(host, port);
    let digits = decimal(port);
    lemma_decimal_reads_back(port);
    if !is_bracketed(host) && host.contains(':') {
        let at = host.len() as int + 1;
        assert(text[0] == '[');
        assert(closes_at(text, at));
        assert forall|i: int| 1 <= i < at implies !#[trigger] closes_at(text, i) by {
            assert(!closes_at(host, i - 1));
            assert(text[i] == host[i - 1]);
            if i + 1 < at {
                assert(text[i + 1] == host[i]);
            }
        }
        lemma_first_close_is(text, 1, at);
        assert(text.subrange(1, at) =~= host);
        assert(text.skip(at + 2) =~= digits);
    } else if is_bracketed(host) {
        let at = host.len() - 1;
        assert(host.len() > 1);
        assert(closes_at(text, at));
        assert forall|i: int| 1 <= i < at implies !#[trigger] closes_at(text, i) by {
            assert(!closes_at(host, i));
        }
        lemma_first_close_is(text, 1, at);
        assert(text.subrange(1, at) =~= host.subrange(1, host.len() - 1));
        assert(text.skip(at + 2) =~= digits);
    } else {
        let at = host.len() as int;
        assert(text.skip(at + 1) =~= digits);
        lemma_last_colon_before_digits(text, at);
        assert(text[0] != '[') by {
            if host.len() > 0 {
                assert(text[0] == host[0]);
            } else {
                assert(text[0] == ':');
            }
        }
        assert(text.take(at) =~= host);
    }
}

/// A port that an address to listen at is given is the port that is read from
/// it, whatever port it had before.
pub proof fn law_updated_port_is_read_back(listen: Option<Seq<char>>, port: u16)
    requires
        port != 0,
        can_be_told_apart(listen_host(listen)),
    ensures
        listen_port(relocated(listen, port as nat)) == Ok::<nat, ConfigValidationError>(
            port as nat,
        ),
{
    law_address_reads_back(listen_host(listen), port as nat);
    lemma_decimal_reads_back(port as nat);
    assert(without_plus(decimal(port as nat)) == decimal(port as nat));
}

} // verus!
