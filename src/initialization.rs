//! Checks made at boot, on the settings found in the environment, and the
//! summary of the host written to the log.
use vstd::prelude::*;
use vstd::string::*;
use crate::config::{application_dir_of, data_dir_of, parse_unsigned, setting_or, unsigned_value, EnvSettings};
use crate::text::texts;

verus! {

/// Why the settings cannot be used.
#[derive(Clone, Debug, PartialEq, Eq)]
pub enum ConfigError {
    /// These required variables are unset, in this order.
    MissingVariables(Vec<String>),
    /// The application and data directories are the same path.
    SameDirectories,
    /// `APPLICATION_PORT` is not a number (its text).
    InvalidPort(String),
}

/// The required variables that are unset, in the order `APPLICATION_DIR`,
/// `DATA_DIR`, `APPLICATION_HOST`.
pub open spec fn missing_variables(s: EnvSettings) -> Seq<Seq<char>> {
    (if s.application_dir is None { seq!["APPLICATION_DIR"@] } else { Seq::empty() })
        + (if s.data_dir is None { seq!["DATA_DIR"@] } else { Seq::empty() })
        + (if s.application_host is None { seq!["APPLICATION_HOST"@] } else { Seq::empty() })
}

/// Fails, naming them, where required variables are unset.
pub fn check_required_env(s: &EnvSettings) -> (r: Result<(), ConfigError>)
    ensures
        missing_variables(*s).len() == 0 <==> r is Ok,
        r matches Err(e) ==> e matches ConfigError::MissingVariables(names) && texts(names@)
            == missing_variables(*s),
{
    let mut names: Vec<String> = Vec::new();
    if s.application_dir.is_none() {
        names.push("APPLICATION_DIR".to_owned());
    }
    if s.data_dir.is_none() {
        names.push("DATA_DIR".to_owned());
    }
    if s.application_host.is_none() {
        names.push("APPLICATION_HOST".to_owned());
    }
    assert(texts(names@) =~= missing_variables(*s));
    if names.len() == 0 {
        Ok(())
    } else {
        Err(ConfigError::MissingVariables(names))
    }
}

/// The text of `APPLICATION_PORT`, "4444" where it is unset.
pub open spec fn application_port_text(s: EnvSettings) -> Seq<char> {
    setting_or(s.application_port, "4444"@)
}

/// Fails where the application and data directories coincide, or where
/// `APPLICATION_PORT` is no 32-bit unsigned number; the first check wins.
pub fn validate_env(s: &EnvSettings) -> (r: Result<(), ConfigError>)
    ensures
        application_dir_of(*s) == data_dir_of(*s) ==> r == Err::<(), ConfigError>(ConfigError::SameDirectories),
        application_dir_of(*s) != data_dir_of(*s) && unsigned_value(application_port_text(*s), u32::MAX as nat) is None
            ==> (r matches Err(ConfigError::InvalidPort(t)) && t@ == application_port_text(*s)),
        application_dir_of(*s) != data_dir_of(*s) && unsigned_value(application_port_text(*s), u32::MAX as nat) is Some
            ==> r is Ok,
{
    let app_dir = match &s.application_dir {
        Some(d) => d.clone(),
        None => "/foundryvtt".to_owned(),
    };
    let data_dir = match &s.data_dir {
        Some(d) => d.clone(),
        None => "/foundrydata".to_owned(),
    };
    if app_dir == data_dir {
        return Err(ConfigError::SameDirectories);
    }
    let port = match &s.application_port {
        Some(p) => p.clone(),
        None => "4444".to_owned(),
    };
    match parse_unsigned(port.as_str(), 4294967295) {
        Some(_) => Ok(()),
        None => Err(ConfigError::InvalidPort(port)),
    }
}

/// What was learned about the host at boot, each as the trimmed output of the
/// command that reports it.
pub struct SystemInfo {
    pub hostname: String,
    pub kernel: String,
    pub os: String,
    pub cpu: String,
    pub memory: String,
    pub disk: String,
    pub node_version: String,
    pub npm_version: String,
}

/// The summary lines written to the log; an empty CPU name reads "Unknown".
pub open spec fn system_info_lines(i: SystemInfo) -> Seq<Seq<char>> {
    let cpu = if i.cpu@.len() == 0 { "Unknown"@ } else { i.cpu@ };
    seq![
        "System Information:"@,
        "  - Hostname: "@ + i.hostname@,
        "  - OS: "@ + i.os@ + " (Kernel: "@ + i.kernel@ + ")"@,
        "  - Resources: CPU: "@ + cpu + ", Memory: "@ + i.memory@ + ", Free Disk: "@ + i.disk@,
        "  - Node: v"@ + i.node_version@ + ", NPM: v"@ + i.npm_version@,
    ]
}

/// The host summary, one line per entry, to be written to the log.
pub fn print_system_info(info: &SystemInfo) -> (r: Vec<String>)
    ensures
        texts(r@) == system_info_lines(*info),
{
    let cpu: &str = if info.cpu.unicode_len() == 0 {
        "Unknown"
    } else {
        info.cpu.as_str()
    };
    let mut lines: Vec<String> = Vec::new();
    lines.push("System Information:".to_owned());
    let mut host = "  - Hostname: ".to_owned();
    host.append(info.hostname.as_str());
    lines.push(host);
    let mut os = "  - OS: ".to_owned();
    os.append(info.os.as_str());
    os.append(" (Kernel: ");
    os.append(info.kernel.as_str());
    os.append(")");
    lines.push(os);
    let mut res = "  - Resources: CPU: ".to_owned();
    res.append(cpu);
    res.append(", Memory: ");
    res.append(info.memory.as_str());
    res.append(", Free Disk: ");
    res.append(info.disk.as_str());
    lines.push(res);
    let mut node = "  - Node: v".to_owned();
    node.append(info.node_version.as_str());
    node.append(", NPM: v");
    node.append(info.npm_version.as_str());
    lines.push(node);
    assert(texts(lines@) =~= system_info_lines(*info));
    lines
}

} // verus!
