//! Configuration: from the settings found in the environment to the values the
//! server and the supervisor run with, and the checks made at boot.
use vstd::prelude::*;
use vstd::string::*;
use crate::text::{decimal, decimal_text, texts};

verus! {

pub const DEFAULT_PORT: u16 = 4444;

/// Whether `c` is an ASCII decimal digit.
pub open spec fn is_digit(c: char) -> bool {
    '0' <= c && c <= '9'
}

/// The value of a run of decimal digits.
pub open spec fn digits_value(s: Seq<char>) -> nat
    decreases s.len(),
{
    if s.len() == 0 {
        0
    } else {
        digits_value(s.drop_last()) * 10 + ((s.last() as u32) - ('0' as u32)) as nat
    }
}

/// The digits of an unsigned number in text: all of it, or all after one
/// leading `+`.
pub open spec fn unsigned_digits(s: Seq<char>) -> Seq<char> {
    if s.len() > 0 && s[0] == '+' {
        s.subrange(1, s.len() as int)
    } else {
        s
    }
}

/// The number that `s` writes in decimal, if it is one and at most `limit`.
pub open spec fn unsigned_value(s: Seq<char>, limit: nat) -> Option<nat> {
    let d = unsigned_digits(s);
    if d.len() > 0 && (forall|i: int| 0 <= i < d.len() ==> is_digit(#[trigger] d[i])) && digits_value(d) <= limit {
        Some(digits_value(d))
    } else {
        None
    }
}

proof fn lemma_digits_grow(d: Seq<char>, i: int, j: int)
    requires
        0 <= i <= j <= d.len(),
        forall|k: int| 0 <= k < d.len() ==> is_digit(#[trigger] d[k]),
    ensures
        digits_value(d.subrange(0, i)) <= digits_value(d.subrange(0, j)),
    decreases j - i,
{
    if i < j {
        lemma_digits_grow(d, i, j - 1);
        let p = d.subrange(0, j);
        assert(p.drop_last() =~= d.subrange(0, j - 1));
        assert(is_digit(d[j - 1]));
    }
}

/// Reads an unsigned decimal number of at most `limit`, with an optional
/// leading `+`, as the standard library's integer parsing does.
pub fn parse_unsigned(s: &str, limit: u64) -> (r: Option<u64>)
    ensures
        r matches Some(v) ==> unsigned_value(s@, limit as nat) == Some(v as nat),
        r is None ==> unsigned_value(s@, limit as nat) is None,
{
    let n = s.unicode_len();
    let start: usize = if n > 0 && s.get_char(0) == '+' {
        1
    } else {
        0
    };
    let ghost d = unsigned_digits(s@);
    if start == n {
        return None;
    }
    let mut value: u64 = 0;
    let mut i: usize = start;
    while i < n
        invariant
            start <= i <= n,
            n == s@.len(),
            start < n,
            d == s@.subrange(start as int, n as int),
            d == unsigned_digits(s@),
            forall|k: int| 0 <= k < i - start ==> is_digit(#[trigger] d[k]),
            value == digits_value(d.subrange(0, i - start)),
            value <= limit,
        decreases n - i,
    {
        let c = s.get_char(i);
        assert(d[i - start] == c);
        if !('0' <= c && c <= '9') {
            proof {
                let k = i - start;
                assert(!is_digit(d[k]));
                assert(!(forall|k: int| 0 <= k < d.len() ==> is_digit(#[trigger] d[k])));
            }
            return None;
        }
        let digit = (c as u32 - '0' as u32) as u64;
        assert(d.subrange(0, i + 1 - start).drop_last() =~= d.subrange(0, i - start));
        if digit > limit || value > (limit - digit) / 10 {
            proof {
                assert(value * 10 + digit > limit);
                let p = d.subrange(0, i + 1 - start);
                assert(p.last() == c);
                assert(digits_value(p) == value * 10 + digit);
                if forall|k: int| 0 <= k < d.len() ==> is_digit(#[trigger] d[k]) {
                    lemma_digits_grow(d, i + 1 - start, d.len() as int);
                    assert(d.subrange(0, d.len() as int) =~= d);
                    assert(digits_value(d) > limit);
                }
            }
            return None;
        }
        value = value * 10 + digit;
        i += 1;
    }
    assert(d.subrange(0, d.len() as int) =~= d);
    Some(value)
}

/// Settings as found in the environment; `None` where a variable is unset.
pub struct EnvSettings {
    /// `STATIC_FILES_DIR`
    pub static_files_dir: Option<String>,
    /// `SERVER_PORT`
    pub server_port: Option<String>,
    /// `APPLICATION_PORT`
    pub application_port: Option<String>,
    /// `SERVER_HOST`
    pub server_host: Option<String>,
    /// `TARGET_DIR`
    pub target_dir: Option<String>,
    /// `APPLICATION_DIR`
    pub application_dir: Option<String>,
    /// `DATA_DIR`
    pub data_dir: Option<String>,
    /// `APPLICATION_HOST`
    pub application_host: Option<String>,
}

/// What the server and the supervisor run with.
pub struct AppConfig {
    pub static_files_dir: String,
    pub server_port: u16,
    pub server_host: String,
    pub target_dir: String,
    pub foundry_args: Vec<String>,
    pub foundry_script: String,
}

/// The text of a setting, or `default` where it is unset.
pub open spec fn setting_or(o: Option<String>, default: Seq<char>) -> Seq<char> {
    match o {
        Some(v) => v@,
        None => default,
    }
}

fn value_or(o: &Option<String>, default: &str) -> (r: String)
    ensures
        r@ == setting_or(*o, default@),
{
    match o {
        Some(v) => v.clone(),
        None => default.to_owned(),
    }
}

/// The listening port: `SERVER_PORT`, else `APPLICATION_PORT`, read as a port
/// number; 4444 where neither is set or the one read is no port number.
pub open spec fn resolved_port(s: EnvSettings) -> u16 {
    let text = match s.server_port {
        Some(p) => Some(p@),
        None => match s.application_port {
            Some(p) => Some(p@),
            None => None,
        },
    };
    match text {
        Some(t) => match unsigned_value(t, 65535) {
            Some(v) => v as u16,
            None => DEFAULT_PORT,
        },
        None => DEFAULT_PORT,
    }
}

/// Where archives are unpacked: `TARGET_DIR`, else `APPLICATION_DIR`, else the
/// fallback directory.
pub open spec fn resolved_target_dir(s: EnvSettings, fallback: Seq<char>) -> Seq<char> {
    match s.target_dir {
        Some(t) => t@,
        None => setting_or(s.application_dir, fallback),
    }
}

pub open spec fn application_dir_of(s: EnvSettings) -> Seq<char> {
    setting_or(s.application_dir, "/foundryvtt"@)
}

pub open spec fn data_dir_of(s: EnvSettings) -> Seq<char> {
    setting_or(s.data_dir, "/foundrydata"@)
}

/// A file name joined under a directory path.
pub open spec fn path_join(dir: Seq<char>, name: Seq<char>) -> Seq<char> {
    if dir.len() == 0 {
        name
    } else if dir.last() == '/' {
        dir + name
    } else {
        dir + "/"@ + name
    }
}

/// The arguments the application is started with.
pub open spec fn foundry_args_of(s: EnvSettings) -> Seq<Seq<char>> {
    seq![
        "--dataPath="@ + data_dir_of(s),
        "--port="@ + decimal_text(resolved_port(s) as nat),
        "--hostname="@ + setting_or(s.application_host, "foundry.vtt"@),
        "--noupnp"@,
        "--proxySSL"@,
    ]
}

/// The target directory named by the settings: `TARGET_DIR`, else
/// `APPLICATION_DIR`; `None` where neither is set and a fallback is needed.
pub fn configured_target_dir(s: &EnvSettings) -> (r: Option<String>)
    ensures
        r is None <==> (s.target_dir is None && s.application_dir is None),
        r matches Some(d) ==> forall|fallback: Seq<char>| d@ == resolved_target_dir(*s, fallback),
{
    match &s.target_dir {
        Some(t) => Some(t.clone()),
        None => match &s.application_dir {
            Some(a) => Some(a.clone()),
            None => None,
        },
    }
}

fn join_path(dir: &str, name: &str) -> (r: String)
    ensures
        r@ == path_join(dir@, name@),
{
    let n = dir.unicode_len();
    let mut r = dir.to_owned();
    if n == 0 {
        return name.to_owned();
    }
    if dir.get_char(n - 1) != '/' {
        r.append("/");
    }
    r.append(name);
    r
}

fn with_prefix(prefix: &str, value: &str) -> (r: String)
    ensures
        r@ == prefix@ + value@,
{
    let mut r = prefix.to_owned();
    r.append(value);
    r
}

fn port_of(s: &EnvSettings) -> (r: u16)
    ensures
        r == resolved_port(*s),
{
    let text = match &s.server_port {
        Some(p) => Some(p),
        None => match &s.application_port {
            Some(p) => Some(p),
            None => None,
        },
    };
    match text {
        Some(t) => match parse_unsigned(t.as_str(), 65535) {
            Some(v) => v as u16,
            None => DEFAULT_PORT,
        },
        None => DEFAULT_PORT,
    }
}

impl AppConfig {
    /// The configuration that `s` describes. `fallback_target` is where archives
    /// go when neither `TARGET_DIR` nor `APPLICATION_DIR` is set.
    pub fn from_settings(s: &EnvSettings, fallback_target: &str) -> (r: AppConfig)
        ensures
            r.static_files_dir@ == setting_or(s.static_files_dir, "static"@),
            r.server_port == resolved_port(*s),
            r.server_host@ == setting_or(s.server_host, "0.0.0.0"@),
            r.target_dir@ == resolved_target_dir(*s, fallback_target@),
            texts(r.foundry_args@) == foundry_args_of(*s),
            r.foundry_script@ == path_join(application_dir_of(*s), "main.js"@),
    {
        let server_port = port_of(s);
        let target_dir = match configured_target_dir(s) {
            Some(t) => t,
            None => fallback_target.to_owned(),
        };
        let data_dir = value_or(&s.data_dir, "/foundrydata");
        let host = value_or(&s.application_host, "foundry.vtt");
        let port_text = decimal(server_port as u64);
        let mut foundry_args: Vec<String> = Vec::new();
        foundry_args.push(with_prefix("--dataPath=", data_dir.as_str()));
        foundry_args.push(with_prefix("--port=", port_text.as_str()));
        foundry_args.push(with_prefix("--hostname=", host.as_str()));
        foundry_args.push("--noupnp".to_owned());
        foundry_args.push("--proxySSL".to_owned());
        assert(texts(foundry_args@) =~= foundry_args_of(*s));
        let app_dir = value_or(&s.application_dir, "/foundryvtt");
        AppConfig {
            static_files_dir: value_or(&s.static_files_dir, "static"),
            server_port,
            server_host: value_or(&s.server_host, "0.0.0.0"),
            target_dir,
            foundry_args,
            foundry_script: join_path(app_dir.as_str(), "main.js"),
        }
    }
}

} // verus!
