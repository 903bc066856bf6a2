//! The arguments of the command line: the port and the host to bind.
//!
//! After the program's name, an argument list is a run of options. The port
//! is given as `-p N`, `-pN`, `-p=N`, `--port N` or `--port=N`, the host in
//! the same ways with `-s` and `--host`; each may be given once. A value in
//! an argument of its own does not begin with a hyphen, unless it is the
//! hyphen alone. `-h`, `--help`, `-V` and `--version` ask for the usage or
//! the version instead.

use vstd::prelude::*;
use vstd::string::*;

verus! {

/// The two options.
#[derive(Clone, Copy, Debug, PartialEq, Eq, Structural)]
pub enum Flag {
    Port,
    Host,
}

/// What one argument is.
pub enum Token {
    /// An option, with its value where the argument holds it after `=`.
    Option(Flag, Option<Seq<char>>),
    /// A request for the usage.
    Help,
    /// A request for the version.
    Version,
    /// Anything else.
    Other,
}

/// Whether `text` begins with `prefix`.
pub open spec fn has_prefix(text: Seq<char>, prefix: Seq<char>) -> bool {
    prefix.len() <= text.len() && text.subrange(0, prefix.len() as int) == prefix
}

/// The value written behind a short option in the same argument: what
/// follows the two characters of the option, without the equals sign that
/// may come first.
pub open spec fn attached(t: Seq<char>) -> Seq<char> {
    if t.len() > 2 && t[2] == '=' {
        t.subrange(3, t.len() as int)
    } else {
        t.subrange(2, t.len() as int)
    }
}

/// What an argument is.
pub open spec fn classify(t: Seq<char>) -> Token {
    if t == "-p"@ || t == "--port"@ {
        Token::Option(Flag::Port, None)
    } else if t == "-s"@ || t == "--host"@ {
        Token::Option(Flag::Host, None)
    } else if has_prefix(t, "--port="@) {
        Token::Option(Flag::Port, Some(t.subrange("--port="@.len() as int, t.len() as int)))
    } else if has_prefix(t, "--host="@) {
        Token::Option(Flag::Host, Some(t.subrange("--host="@.len() as int, t.len() as int)))
    } else if has_prefix(t, "-p"@) {
        Token::Option(Flag::Port, Some(attached(t)))
    } else if has_prefix(t, "-s"@) {
        Token::Option(Flag::Host, Some(attached(t)))
    } else if t == "-h"@ || t == "--help"@ {
        Token::Help
    } else if t == "-V"@ || t == "--version"@ {
        Token::Version
    } else {
        Token::Other
    }
}

/// The value of a decimal digit.
pub open spec fn digit_value(c: char) -> Option<nat> {
    if '0' <= c && c <= '9' {
        Some((c as nat - '0' as nat) as nat)
    } else {
        None
    }
}

/// The number that a run of one or more decimal digits writes.
pub open spec fn decimal(s: Seq<char>) -> Option<nat>
    decreases s.len(),
{
    if s.len() == 0 {
        None
    } else if s.len() == 1 {
        digit_value(s[0])
    } else {
        match (decimal(s.drop_last()), digit_value(s.last())) {
            (Some(high), Some(low)) => Some(10 * high + low),
            _ => None,
        }
    }
}

/// The port that a text writes: decimal digits, after a plus sign or none,
/// that write a number of sixteen bits.
pub open spec fn port_number(s: Seq<char>) -> Option<u16> {
    let digits = if s.len() > 0 && s[0] == '+' {
        s.drop_first()
    } else {
        s
    };
    match decimal(digits) {
        Some(n) => if n <= 65535 {
            Some(n as u16)
        } else {
            None
        },
        None => None,
    }
}

/// Why an argument list is refused.
#[derive(Debug)]
pub enum ArgsError {
    /// An argument that is no option; holds the argument.
    UnknownArgument(String),
    /// An option at the end of the list, without its value.
    MissingValue(Flag),
    /// A port that is no number of sixteen bits; holds the text.
    InvalidPort(String),
    /// An option given a second time.
    Repeated(Flag),
    /// The usage was asked for.
    HelpRequested,
    /// The version was asked for.
    VersionRequested,
}

/// An `ArgsError` as plain values.
pub enum ArgsFault {
    UnknownArgument(Seq<char>),
    MissingValue(Flag),
    InvalidPort(Seq<char>),
    Repeated(Flag),
    HelpRequested,
    VersionRequested,
}

impl View for ArgsError {
    type V = ArgsFault;

    open spec fn view(&self) -> ArgsFault {
        match *self {
            ArgsError::UnknownArgument(t) => ArgsFault::UnknownArgument(t@),
            ArgsError::MissingValue(f) => ArgsFault::MissingValue(f),
            ArgsError::InvalidPort(t) => ArgsFault::InvalidPort(t@),
            ArgsError::Repeated(f) => ArgsFault::Repeated(f),
            ArgsError::HelpRequested => ArgsFault::HelpRequested,
            ArgsError::VersionRequested => ArgsFault::VersionRequested,
        }
    }
}

/// The options read so far.
pub struct Seen {
    pub port: Option<u16>,
    pub host: Option<Seq<char>>,
}

/// Whether an argument can be the value of the option before it: it does
/// not begin with a hyphen, or is the hyphen alone.
pub open spec fn is_value(t: Seq<char>) -> bool {
    t.len() <= 1 || t[0] != '-'
}

/// Reads the arguments from position `i` on, after `seen` has been read.
/// An option takes its value from its own argument, or else from the next
/// one. The first argument that cannot be read decides the failure.
pub open spec fn scan(tokens: Seq<Seq<char>>, i: int, seen: Seen) -> Result<Seen, ArgsFault>
    decreases tokens.len() - i,
{
    if i < 0 || i >= tokens.len() {
        Ok(seen)
    } else {
        match classify(tokens[i]) {
            Token::Help => Err(ArgsFault::HelpRequested),
            Token::Version => Err(ArgsFault::VersionRequested),
            Token::Other => Err(ArgsFault::UnknownArgument(tokens[i])),
            Token::Option(flag, inline) => {
                let taken: int = if inline is None {
                    2
                } else {
                    1
                };
                let value = if inline is Some {
                    inline
                } else if i + 1 < tokens.len() && is_value(tokens[i + 1]) {
                    Some(tokens[i + 1])
                } else {
                    None
                };
                if flag == Flag::Port && seen.port is Some || flag == Flag::Host && seen.host
                    is Some {
                    Err(ArgsFault::Repeated(flag))
                } else if value is None {
                    Err(ArgsFault::MissingValue(flag))
                } else if flag == Flag::Host {
                    scan(tokens, i + taken, Seen { port: seen.port, host: value })
                } else if port_number(value->Some_0) is None {
                    Err(ArgsFault::InvalidPort(value->Some_0))
                } else {
                    scan(tokens, i + taken, Seen { port: port_number(value->Some_0), host: seen.host })
                }
            },
        }
    }
}

/// The arguments as plain values.
pub struct ArgsView {
    pub port: u16,
    pub host: Seq<char>,
}

/// The host that is bound when none is given.
pub open spec fn default_host() -> Seq<char> {
    "127.0.0.1"@
}

/// What an argument list asks for. The first argument is the program's name
/// and is passed over. A port that is not given is 0, which leaves the choice
/// to the system; a host that is not given is the local one.
pub open spec fn arguments(tokens: Seq<Seq<char>>) -> Result<ArgsView, ArgsFault> {
    match scan(tokens, 1, Seen { port: None, host: None }) {
        Ok(seen) => Ok(
            ArgsView {
                port: if seen.port is Some {
                    seen.port->Some_0
                } else {
                    0
                },
                host: if seen.host is Some {
                    seen.host->Some_0
                } else {
                    default_host()
                },
            },
        ),
        Err(fault) => Err(fault),
    }
}

/// The texts of an argument list.
pub open spec fn texts(args: Seq<&str>) -> Seq<Seq<char>> {
    Seq::new(args.len(), |i: int| args[i]@)
}

/// The arguments of the command line.
#[derive(Debug)]
pub struct Args {
    pub port: u16,
    pub host: String,
}

impl View for Args {
    type V = ArgsView;

    open spec fn view(&self) -> ArgsView {
        ArgsView { port: self.port, host: self.host@ }
    }
}

/// Read arguments, or the refusal, as plain values.
pub open spec fn parsed_args(r: Result<Args, ArgsError>) -> Result<ArgsView, ArgsFault> {
    match r {
        Ok(a) => Ok(a@),
        Err(e) => Err(e@),
    }
}

/// A number written by a run of digits is not smaller than the number written
/// by any run of digits that it begins with.
proof fn lemma_decimal_grows(s: Seq<char>, k: int)
    requires
        0 < k <= s.len(),
        decimal(s.subrange(0, k)) is Some,
    ensures
        decimal(s) is Some ==> decimal(s)->Some_0 >= decimal(s.subrange(0, k))->Some_0,
    decreases s.len() - k,
{
    if k < s.len() {
        assert(s.subrange(0, s.len() as int) =~= s);
        if decimal(s) is Some {
            let t = s.drop_last();
            assert(t.subrange(0, k) =~= s.subrange(0, k));
            if k < t.len() {
                lemma_decimal_grows(t, k);
            } else {
                assert(t =~= s.subrange(0, k));
            }
        }
    } else {
        assert(s.subrange(0, k) =~= s);
    }
}

/// Whether two texts are the same.
fn same_text(a: &str, b: &str) -> (e: bool)
    ensures
        e == (a@ == b@),
{
    let n = a.unicode_len();
    if n != b.unicode_len() {
        return false;
    }
    let mut i: usize = 0;
    while i < n
        invariant
            i <= n,
            n == a@.len(),
            n == b@.len(),
            forall|j: int| 0 <= j < i ==> a@[j] == b@[j],
        decreases n - i,
    {
        if a.get_char(i) != b.get_char(i) {
            return false;
        }
        i += 1;
    }
    assert(a@ =~= b@);
    true
}

/// Whether `text` begins with `prefix`.
fn starts_with(text: &str, prefix: &str) -> (b: bool)
    ensures
        b == has_prefix(text@, prefix@),
{
    let n = prefix.unicode_len();
    if n > text.unicode_len() {
        return false;
    }
    same_text(text.substring_char(0, n), prefix)
}

/// Whether an argument can be the value of the option before it.
fn value_like(t: &str) -> (b: bool)
    ensures
        b == is_value(t@),
{
    t.unicode_len() <= 1 || t.get_char(0) != '-'
}

/// Reads a port.
pub fn parse_port(text: &str) -> (port: Option<u16>)
    ensures
        port == port_number(text@),
{
    let n = text.unicode_len();
    let start: usize = if n > 0 && text.get_char(0) == '+' {
        1
    } else {
        0
    };
    let ghost digits = text@.subrange(start as int, n as int);
    proof {
        if start == 1 {
            assert(digits =~= text@.drop_first());
        } else {
            assert(digits =~= text@);
        }
    }
    if start == n {
        return None;
    }
    let mut value: u32 = 0;
    let mut i: usize = start;
    while i < n
        invariant
            start <= i <= n,
            start < n,
            n == text@.len(),
            digits == text@.subrange(start as int, n as int),
            digits == if text@.len() > 0 && text@[0] == '+' {
                text@.drop_first()
            } else {
                text@
            },
            value <= 65535,
            i > start ==> decimal(digits.subrange(0, i - start)) == Some(value as nat),
            i == start ==> value == 0,
        decreases n - i,
    {
        let c = text.get_char(i);
        let ghost k = i - start;
        proof {
            assert(digits[k] == c);
            let upto = digits.subrange(0, k + 1);
            assert(upto.last() == c);
            assert(upto.drop_last() =~= digits.subrange(0, k));
            assert(digits.subrange(0, digits.len() as int) =~= digits);
        }
        if !('0' <= c && c <= '9') {
            proof {
                lemma_digits_needed(digits, k);
            }
            return None;
        }
        let low: u32 = (c as u32) - ('0' as u32);
        let wide: u32 = value * 10 + low;
        proof {
            assert(digit_value(c) == Some(low as nat));
            assert(decimal(digits.subrange(0, k + 1)) == Some(wide as nat));
        }
        if wide > 65535 {
            proof {
                lemma_decimal_grows(digits, k + 1);
            }
            return None;
        }
        value = wide;
        i += 1;
    }
    proof {
        assert(digits.subrange(0, n - start) =~= digits);
    }
    Some(value as u16)
}

/// A run of characters with one that is no digit writes no number.
proof fn lemma_digits_needed(s: Seq<char>, k: int)
    requires
        0 <= k < s.len(),
        digit_value(s[k]) is None,
    ensures
        decimal(s) is None,
    decreases s.len(),
{
    if s.len() > 1 {
        if k < s.len() - 1 {
            lemma_digits_needed(s.drop_last(), k);
        }
    }
}

impl Args {
    /// Reads an argument list.
    pub fn try_parse_from(args: Vec<&str>) -> (r: Result<Args, ArgsError>)
        ensures
            parsed_args(r) == arguments(texts(args@)),
    {
        let n = args.len();
        let ghost tokens = texts(args@);
        let mut port: Option<u16> = None;
        let mut host: Option<String> = None;
        let mut i: usize = 1;
        while i < n
            invariant
                1 <= i,
                n == args@.len(),
                tokens == texts(args@),
                scan(tokens, 1, Seen { port: None, host: None }) == scan(
                    tokens,
                    i as int,
                    Seen {
                        port,
                        host: match host {
                            Some(h) => Some(h@),
                            None => None,
                        },
                    },
                ),
            decreases n - i,
        {
            let t: &str = args[i];
            assert(tokens[i as int] == t@);
            let len = t.unicode_len();
            let is_port = same_text(t, "-p") || same_text(t, "--port");
            let is_host = same_text(t, "-s") || same_text(t, "--host");
            let port_inline = !is_port && !is_host && starts_with(t, "--port=");
            let host_inline = !is_port && !is_host && !port_inline && starts_with(t, "--host=");
            let long_inline = port_inline || host_inline;
            let port_attached = !is_port && !is_host && !long_inline && starts_with(t, "-p");
            let host_attached = !is_port && !is_host && !long_inline && !port_attached
                && starts_with(t, "-s");
            proof {
                reveal_strlit("--port=");
                reveal_strlit("--host=");
                reveal_strlit("-p");
                reveal_strlit("-s");
            }
            if !(is_port || is_host || long_inline || port_attached || host_attached) {
                if same_text(t, "-h") || same_text(t, "--help") {
                    return Err(ArgsError::HelpRequested);
                }
                if same_text(t, "-V") || same_text(t, "--version") {
                    return Err(ArgsError::VersionRequested);
                }
                return Err(ArgsError::UnknownArgument(String::from_str(t)));
            }
            let inline = long_inline || port_attached || host_attached;
            let for_port = is_port || port_inline || port_attached;
            if (for_port && port.is_some()) || (!for_port && host.is_some()) {
                return Err(
                    ArgsError::Repeated(
                        if for_port {
                            Flag::Port
                        } else {
                            Flag::Host
                        },
                    ),
                );
            }
            let value: &str = if long_inline {
                t.substring_char(7, len)
            } else if inline {
                if len > 2 && t.get_char(2) == '=' {
                    t.substring_char(3, len)
                } else {
                    t.substring_char(2, len)
                }
            } else if i + 1 < n && value_like(args[i + 1]) {
                assert(tokens[i + 1] == args@[i + 1]@);
                args[i + 1]
            } else {
                assert(i + 1 < n ==> tokens[i + 1] == args@[i + 1]@);
                return Err(
                    ArgsError::MissingValue(
                        if for_port {
                            Flag::Port
                        } else {
                            Flag::Host
                        },
                    ),
                );
            };
            if for_port {
                match parse_port(value) {
                    Some(p) => {
                        port = Some(p);
                    },
                    None => {
                        return Err(ArgsError::InvalidPort(String::from_str(value)));
                    },
                }
            } else {
                host = Some(String::from_str(value));
            }
            i = if inline {
                i + 1
            } else {
                i + 2
            };
        }
        Ok(
            Args {
                port: match port {
                    Some(p) => p,
                    None => 0,
                },
                host: match host {
                    Some(h) => h,
                    None => String::from_str("127.0.0.1"),
                },
            },
        )
    }

    /// Reads an argument list that is known to be well formed.
    pub fn parse_from(args: Vec<&str>) -> (a: Args)
        requires
            arguments(texts(args@)) is Ok,
        ensures
            Ok::<ArgsView, ArgsFault>(a@) == arguments(texts(args@)),
    {
        match Args::try_parse_from(args) {
            Ok(a) => a,
            Err(_) => {
                assert(false);
                Args { port: 0, host: String::from_str("127.0.0.1") }
            },
        }
    }
}

} // verus!
