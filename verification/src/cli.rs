use vstd::prelude::*;

verus! {

/// Output format of the rendered report.
#[derive(Debug, Clone, Copy, PartialEq, Eq, Structural)]
pub enum OutputFormat {
    Json,
    Yaml,
    Markdown,
    Html,
}

/// Rubric evaluation mode.
#[derive(Debug, Clone, Copy, PartialEq, Eq, Structural)]
pub enum RubricMode {
    /// Evaluate rubric against the whole crJSON document (conformance checks)
    Conformance,
    /// Evaluate rubric per-manifest for signal detection
    Signals,
}

/// Which trust lists are consulted.
#[derive(Debug, Clone, Copy, PartialEq, Eq, Structural)]
pub enum TrustMode {
    /// Official C2PA trust list only
    Default,
    /// Official list first, then ITL list
    Itl,
    /// Custom trust list (requires a trust list path or URL)
    Custom,
}

/// The name under which a trust mode is reported.
pub open spec fn trust_mode_name(mode: TrustMode) -> Seq<char> {
    match mode {
        TrustMode::Default => seq!['d', 'e', 'f', 'a', 'u', 'l', 't'],
        TrustMode::Itl => seq!['i', 't', 'l'],
        TrustMode::Custom => seq!['c', 'u', 's', 't', 'o', 'm'],
    }
}

impl TrustMode {
    /// The lower-case name of the mode (`default`, `itl` or `custom`).
    pub fn as_str(&self) -> (r: &'static str)
        ensures
            r@ == trust_mode_name(*self),
    {
        match self {
            TrustMode::Default => {
                let s = "default";
                proof {
                    reveal_strlit("default");
                }
                s
            },
            TrustMode::Itl => {
                let s = "itl";
                proof {
                    reveal_strlit("itl");
                }
                s
            },
            TrustMode::Custom => {
                let s = "custom";
                proof {
                    reveal_strlit("custom");
                }
                s
            },
        }
    }
}

/// The options of one validation run. Paths are held as strings.
#[derive(Debug, Clone)]
pub struct Cli {
    /// Files or glob patterns to validate.
    pub inputs: Vec<String>,
    /// Output file or directory.
    pub output: Option<String>,
    pub format: OutputFormat,
    /// YAML profile to evaluate against each asset's crJSON indicators.
    pub profile: Option<String>,
    pub trust_mode: TrustMode,
    /// Path or URL to a PEM trust list; required in custom trust mode.
    pub trust_list: Option<String>,
    /// c2pa-rs settings overlay (JSON or TOML).
    pub settings: Option<String>,
    /// Fail on warnings, not only invalid assets.
    pub strict: bool,
    pub verbose: u8,
    /// Rubric YAML file.
    pub rubric: Option<String>,
    /// Directory of rubric YAML files.
    pub rubric_dir: Option<String>,
    pub rubric_mode: RubricMode,
    /// Extract crJSON from binary assets without rubric evaluation.
    pub emit_crjson: bool,
    /// Treat inputs as pre-existing crJSON files.
    pub crjson: bool,
    /// Fail rubric evaluation if any trait fails.
    pub rubric_strict: bool,
    /// Certificate (PEM or DER) to check against a certificate profile schema.
    pub cert_profile: Option<String>,
    /// Certificate profile JSON schema to check the certificate against.
    pub cert_schema: Option<String>,
    /// Write the certificate's JSON form instead of checking it.
    pub emit_cert_json: bool,
}

/// How much is logged.
#[derive(Debug, Clone, Copy, PartialEq, Eq, Structural)]
pub enum LogLevel {
    Warn,
    Info,
    Debug,
}

/// Warnings only by default; each `-v` logs more: information, then debugging.
pub fn log_level(verbose: u8) -> (r: LogLevel)
    ensures
        r == if verbose == 0 {
            LogLevel::Warn
        } else if verbose == 1 {
            LogLevel::Info
        } else {
            LogLevel::Debug
        },
{
    if verbose == 0 {
        LogLevel::Warn
    } else if verbose == 1 {
        LogLevel::Info
    } else {
        LogLevel::Debug
    }
}

} // verus!
