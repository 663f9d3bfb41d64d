//! The configuration data model: the local profile descriptors and the
//! application configuration that the remote registry delivers.

use vstd::prelude::*;
use vstd::string::StrSliceExecFns;
use vstd::string::StringExecFns;

verus! {

/// Base profile descriptor, read from the well-known profile file.
/// It only names the active environment.
#[derive(Clone, Debug)]
pub struct Env {
    pub profiles: Profiles,
}

impl Env {
    /// The JSON text describing this descriptor:
    /// `{"profiles":{"active":"<name>"}}`, with the name escaped for JSON.
    pub fn to_json_string(&self) -> (r: String)
        ensures
            r@ == "{\"profiles\":{\"active\":\""@ + json_escaped(self.profiles.active@)
                + "\"}}"@,
    {
        let mut out = String::from_str("{\"profiles\":{\"active\":\"");
        append_escaped(&mut out, self.profiles.active.as_str());
        out.append("\"}}");
        out
    }
}

/// A lower-case hexadecimal digit.
pub open spec fn hex_digit(n: int) -> char {
    if n == 0 {
        '0'
    } else if n == 1 {
        '1'
    } else if n == 2 {
        '2'
    } else if n == 3 {
        '3'
    } else if n == 4 {
        '4'
    } else if n == 5 {
        '5'
    } else if n == 6 {
        '6'
    } else if n == 7 {
        '7'
    } else if n == 8 {
        '8'
    } else if n == 9 {
        '9'
    } else if n == 10 {
        'a'
    } else if n == 11 {
        'b'
    } else if n == 12 {
        'c'
    } else if n == 13 {
        'd'
    } else if n == 14 {
        'e'
    } else {
        'f'
    }
}

/// One rendered character of a JSON string: the quote, the backslash, and
/// the controls with a short escape take a two-character escape, any other
/// control character takes the six-character `\u00..` escape, and every
/// remaining character stands as itself.
pub open spec fn json_escaped_char(c: char) -> Seq<char> {
    if c == '"' {
        seq!['\\', '"']
    } else if c == '\\' {
        seq!['\\', '\\']
    } else if c == '\u{8}' {
        seq!['\\', 'b']
    } else if c == '\t' {
        seq!['\\', 't']
    } else if c == '\n' {
        seq!['\\', 'n']
    } else if c == '\u{c}' {
        seq!['\\', 'f']
    } else if c == '\r' {
        seq!['\\', 'r']
    } else if (c as u32) < 32 {
        seq!['\\', 'u', '0', '0', hex_digit(c as u32 as int / 16), hex_digit(c as u32 as int % 16)]
    } else {
        seq![c]
    }
}

fn hex_digit_str(d: u32) -> (r: &'static str)
    requires
        d < 16,
    ensures
        r@ == seq![hex_digit(d as int)],
{
    proof {
        reveal_strlit("0");
        reveal_strlit("1");
        reveal_strlit("2");
        reveal_strlit("3");
        reveal_strlit("4");
        reveal_strlit("5");
        reveal_strlit("6");
        reveal_strlit("7");
        reveal_strlit("8");
        reveal_strlit("9");
        reveal_strlit("a");
        reveal_strlit("b");
        reveal_strlit("c");
        reveal_strlit("d");
        reveal_strlit("e");
        reveal_strlit("f");
    }
    let r = match d {
        0 => "0",
        1 => "1",
        2 => "2",
        3 => "3",
        4 => "4",
        5 => "5",
        6 => "6",
        7 => "7",
        8 => "8",
        9 => "9",
        10 => "a",
        11 => "b",
        12 => "c",
        13 => "d",
        14 => "e",
        _ => "f",
    };
    proof {
        assert(r@ =~= seq![hex_digit(d as int)]);
    }
    r
}

/// A string rendered for a JSON document, character by character.
pub open spec fn json_escaped(s: Seq<char>) -> Seq<char>
    decreases s.len(),
{
    if s.len() == 0 {
        Seq::empty()
    } else {
        json_escaped_char(s[0]) + json_escaped(s.skip(1))
    }
}

fn append_escaped(out: &mut String, s: &str)
    ensures
        final(out)@ == old(out)@ + json_escaped(s@),
{
    proof {
        reveal_strlit("\\\"");
        reveal_strlit("\\\\");
        reveal_strlit("\\b");
        reveal_strlit("\\t");
        reveal_strlit("\\n");
        reveal_strlit("\\f");
        reveal_strlit("\\r");
        reveal_strlit("\\u00");
        assert(s@.skip(0) =~= s@);
    }
    let n = s.unicode_len();
    let mut i: usize = 0;
    while i < n
        invariant
            n == s@.len(),
            i <= n,
            out@ + json_escaped(s@.skip(i as int)) == old(out)@ + json_escaped(s@),
        decreases n - i,
    {
        let ghost prev = out@;
        let ghost suffix = s@.skip(i as int);
        let c = s.get_char(i);
        proof {
            assert(suffix[0] == s@[i as int]);
            assert(suffix.skip(1) =~= s@.skip(i as int + 1));
            reveal_strlit("\\\"");
            reveal_strlit("\\\\");
            reveal_strlit("\\b");
            reveal_strlit("\\t");
            reveal_strlit("\\n");
            reveal_strlit("\\f");
            reveal_strlit("\\r");
            reveal_strlit("\\u00");
        }
        if c == '"' {
            out.append("\\\"");
        } else if c == '\\' {
            out.append("\\\\");
        } else if c == '\u{8}' {
            out.append("\\b");
        } else if c == '\t' {
            out.append("\\t");
        } else if c == '\n' {
            out.append("\\n");
        } else if c == '\u{c}' {
            out.append("\\f");
        } else if c == '\r' {
            out.append("\\r");
        } else if (c as u32) < 32 {
            let code = c as u32;
            out.append("\\u00");
            out.append(hex_digit_str(code / 16));
            out.append(hex_digit_str(code % 16));
            proof {
                assert(out@ =~= prev + json_escaped_char(suffix[0]));
            }
        } else {
            out.append(s.substring_char(i, i + 1));
            proof {
                assert(s@.subrange(i as int, i as int + 1) =~= json_escaped_char(suffix[0]));
            }
        }
        proof {
            assert(out@ =~= prev + json_escaped_char(suffix[0]));
            assert(out@ + json_escaped(s@.skip(i as int + 1)) =~= prev + (json_escaped_char(
                suffix[0],
            ) + json_escaped(suffix.skip(1))));
        }
        i = i + 1;
    }
    proof {
        assert(s@.skip(n as int) =~= Seq::<char>::empty());
        assert(out@ + json_escaped(Seq::<char>::empty()) =~= out@);
    }
}

/// The active environment name, for example `dev` or `prod`.
#[derive(Clone, Debug)]
pub struct Profiles {
    pub active: String,
}

/// Connection properties for the remote registry, read from the
/// environment-specific profile file.
#[derive(Clone, Debug)]
pub struct Nacos {
    pub nacos: NacosConfig,
}

/// Where the registry lives and which config entry this process reads.
/// `data_id` may contain a placeholder token that is substituted with the
/// active environment name before the first fetch.
#[derive(Clone, Debug)]
pub struct NacosConfig {
    pub server_addr: String,
    pub namespace: String,
    pub group: Option<String>,
    pub data_id: String,
}

/// The application configuration delivered by the registry: the listen
/// endpoints of this process and its logging policy.
#[derive(Clone, Debug)]
pub struct Application {
    pub shutdown_timeout: u64,
    pub workers: usize,
    pub hosts: Vec<String>,
    pub hosts_v6: Vec<String>,
    pub port: u16,
    pub log: Log,
}

/// Top-level shape of the remote payload: one `application` object.
#[derive(Clone, Debug)]
pub struct Ac {
    pub application: Application,
}

/// Logging policy: a severity threshold name, and where and how log files
/// are written.
#[derive(Clone, Debug)]
pub struct Log {
    pub level: String,
    pub path: String,
    pub rotation: Rotation,
    pub file_name_prefix: String,
}

/// How often the log file rolls over.
#[derive(Clone, Copy, PartialEq, Eq, Structural, Debug)]
pub enum Rotation {
    Hourly,
    Daily,
    Never,
}

/// The character sequences of a list of strings, in order.
pub open spec fn views_of(v: Seq<String>) -> Seq<Seq<char>> {
    Seq::new(v.len(), |i: int| v[i]@)
}

/// The logging policy at the specification level: strings as character
/// sequences.
pub struct LogModel {
    pub level: Seq<char>,
    pub path: Seq<char>,
    pub rotation: Rotation,
    pub file_name_prefix: Seq<char>,
}

impl Log {
    pub open spec fn model(&self) -> LogModel {
        LogModel {
            level: self.level@,
            path: self.path@,
            rotation: self.rotation,
            file_name_prefix: self.file_name_prefix@,
        }
    }
}

/// The application configuration at the specification level.
pub struct ApplicationModel {
    pub shutdown_timeout: u64,
    pub workers: usize,
    pub hosts: Seq<Seq<char>>,
    pub hosts_v6: Seq<Seq<char>>,
    pub port: u16,
    pub log: LogModel,
}

impl Application {
    pub open spec fn model(&self) -> ApplicationModel {
        ApplicationModel {
            shutdown_timeout: self.shutdown_timeout,
            workers: self.workers,
            hosts: views_of(self.hosts@),
            hosts_v6: views_of(self.hosts_v6@),
            port: self.port,
            log: self.log.model(),
        }
    }
}

/// The registry connection properties at the specification level.
pub struct NacosModel {
    pub server_addr: Seq<char>,
    pub namespace: Seq<char>,
    pub group: Option<Seq<char>>,
    pub data_id: Seq<char>,
}

impl NacosConfig {
    pub open spec fn model(&self) -> NacosModel {
        NacosModel {
            server_addr: self.server_addr@,
            namespace: self.namespace@,
            group: match self.group {
                Some(g) => Some(g@),
                None => None,
            },
            data_id: self.data_id@,
        }
    }
}

} // verus!
