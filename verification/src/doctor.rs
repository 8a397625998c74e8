//! Health-check bookkeeping.
//!
//! The caller probes the environment — home directory, configuration file,
//! library directory — and hands the observations in as plain values. This
//! module decides the findings and the process exit code; rendering them,
//! as human-readable lines or as JSON, is the caller's step.

use vstd::prelude::*;

verus! {

/// What the caller found when probing for the configuration file.
pub enum ConfigProbe {
    /// No file at the configuration path.
    Missing,
    /// A file that could not be read; carries the I/O error text.
    Unreadable(String),
    /// The file's content.
    Content(String),
}

/// One health check's inputs: the resolved home directory, the
/// configuration probe, whether the library directory exists, and the
/// running program's version.
pub struct DoctorProbe {
    pub home: String,
    pub config: ConfigProbe,
    pub library_directory_exists: bool,
    pub version: String,
}

/// The findings of one health check.
pub struct DoctorOutput {
    pub config_file_exists: bool,
    pub config_valid_toml: bool,
    pub library_directory_exists: bool,
    pub version: String,
    pub errors: Vec<String>,
    pub warnings: Vec<String>,
}

/// The health check's outcome: the findings, whether JSON output was asked
/// for, and the exit code — zero when healthy, one when errors were found.
pub struct DoctorReport {
    pub output: DoctorOutput,
    pub json: bool,
    pub exit_code: i32,
}

/// Names what `toml::from_str::<toml::Value>` accepts: whether a string
/// parses as a TOML document depends on the string alone.
pub uninterp spec fn toml_accepts(s: Seq<char>) -> bool;

/// Relies on `toml::from_str::<toml::Value>`: parses the whole string as a
/// TOML document; success depends on the content alone.
#[verifier::external_body]
fn toml_is_valid(content: &str) -> (r: bool)
    ensures
        r == toml_accepts(content@),
{
    toml::from_str::<toml::Value>(content).is_ok()
}

/// Where the configuration file is looked for, under `home`.
pub open spec fn config_path_of(home: Seq<char>) -> Seq<char> {
    home + "/.config/prompter/config.toml"@
}

/// Where the library directory is looked for, under `home`.
pub open spec fn library_path_of(home: Seq<char>) -> Seq<char> {
    home + "/.local/prompter/library"@
}

/// The error lines that the configuration probe gives rise to: exactly one
/// for a missing file, an unreadable file, or content that is not TOML;
/// none for readable, valid content.
pub open spec fn config_errors(probe: DoctorProbe) -> Seq<Seq<char>> {
    match probe.config {
        ConfigProbe::Missing => seq!["Config file not found: "@ + config_path_of(probe.home@)],
        ConfigProbe::Unreadable(m) => seq!["Failed to read config: "@ + m@],
        ConfigProbe::Content(c) => if toml_accepts(c@) {
            Seq::<Seq<char>>::empty()
        } else {
            seq!["Config is invalid TOML: "@ + config_path_of(probe.home@)]
        },
    }
}

/// The error line for a missing library directory, if any.
pub open spec fn library_errors(probe: DoctorProbe) -> Seq<Seq<char>> {
    if probe.library_directory_exists {
        Seq::<Seq<char>>::empty()
    } else {
        seq!["Library directory not found: "@ + library_path_of(probe.home@)]
    }
}

/// All error lines of one health check, configuration first.
pub open spec fn doctor_errors(probe: DoctorProbe) -> Seq<Seq<char>> {
    config_errors(probe) + library_errors(probe)
}

/// Decide the health-check findings and exit code from what the caller
/// observed. `json` only records which output form was asked for: both
/// forms rest on the same findings.
pub fn run_doctor_with_json(json: bool, probe: &DoctorProbe) -> (r: DoctorReport)
    ensures
        r.json == json,
        r.output.config_file_exists == !(probe.config is Missing),
        r.output.config_valid_toml == (probe.config matches ConfigProbe::Content(c)
            && toml_accepts(c@)),
        r.output.library_directory_exists == probe.library_directory_exists,
        r.output.version@ == probe.version@,
        r.output.errors.deep_view() == doctor_errors(*probe),
        r.output.warnings.len() == 0,
        r.exit_code == if doctor_errors(*probe).len() == 0 {
            0int
        } else {
            1int
        },
{
    let mut config_path: String = probe.home.clone();
    config_path.append("/.config/prompter/config.toml");
    let mut library_path: String = probe.home.clone();
    library_path.append("/.local/prompter/library");

    let mut errors: Vec<String> = Vec::new();
    let warnings: Vec<String> = Vec::new();

    let config_file_exists: bool = !matches!(&probe.config, ConfigProbe::Missing);
    let mut config_valid_toml: bool = false;

    match &probe.config {
        ConfigProbe::Missing => {
            let mut msg: String = ("Config file not found: ").to_owned();
            msg.append(config_path.as_str());
            errors.push(msg);
        },
        ConfigProbe::Unreadable(io_error) => {
            let mut msg: String = ("Failed to read config: ").to_owned();
            msg.append(io_error.as_str());
            errors.push(msg);
        },
        ConfigProbe::Content(content) => {
            if toml_is_valid(content.as_str()) {
                config_valid_toml = true;
            } else {
                let mut msg: String = ("Config is invalid TOML: ").to_owned();
                msg.append(config_path.as_str());
                errors.push(msg);
            }
        },
    }

    if !probe.library_directory_exists {
        let mut msg: String = ("Library directory not found: ").to_owned();
        msg.append(library_path.as_str());
        errors.push(msg);
    }

    proof {
        assert(errors.deep_view() =~~= doctor_errors(*probe));
    }
    let exit_code: i32 = if errors.len() == 0 {
        0
    } else {
        1
    };
    DoctorReport {
        output: DoctorOutput {
            config_file_exists,
            config_valid_toml,
            library_directory_exists: probe.library_directory_exists,
            version: probe.version.clone(),
            errors,
            warnings,
        },
        json,
        exit_code,
    }
}

} // verus!
