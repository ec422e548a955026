// Release artifact manifest for deterministic builds.
use crate::infra::clock::{utc_now_rfc3339, utc_rfc3339_shape};
use crate::text::{trim, trim_spec};
use vstd::prelude::*;
use vstd::string::StringExecFns;

verus! {

/// Release manifest with build metadata for reproducibility verification.
#[derive(Debug, Clone)]
pub struct ReleaseManifest {
    pub version: String,
    pub git_tag: String,
    pub git_commit: String,
    pub rust_toolchain: String,
    pub target: String,
    pub build_timestamp: String,
    pub binary_sha256: String,
}

/// The recorded value of a command's output: the output trimmed, or
/// `unknown` when the command could not be run.
pub open spec fn recorded_output(output: Option<Seq<char>>) -> Seq<char> {
    match output {
        Some(o) => trim_spec(o),
        None => trim_spec("unknown"@),
    }
}

fn record_output(output: Option<String>) -> (r: String)
    ensures
        r@ == recorded_output(
            match output {
                Some(o) => Some(o@),
                None => None,
            },
        ),
{
    match output {
        Some(o) => trim(o.as_str()),
        None => trim("unknown"),
    }
}

impl ReleaseManifest {
    /// Build a manifest from the outputs of `git describe --tags --always`,
    /// `git rev-parse HEAD` and `rustc --version` (each `None` when the
    /// command could not be run), stamped with the current time.
    pub fn generate(
        version: &str,
        target: &str,
        binary_sha256: &str,
        git_describe_output: Option<String>,
        git_rev_parse_output: Option<String>,
        rustc_version_output: Option<String>,
    ) -> (m: Self)
        ensures
            m.version@ == version@,
            m.target@ == target@,
            m.binary_sha256@ == binary_sha256@,
            utc_rfc3339_shape(m.build_timestamp@),
            m.git_tag@ == recorded_output(
                match git_describe_output {
                    Some(o) => Some(o@),
                    None => None,
                },
            ),
            m.git_commit@ == recorded_output(
                match git_rev_parse_output {
                    Some(o) => Some(o@),
                    None => None,
                },
            ),
            m.rust_toolchain@ == recorded_output(
                match rustc_version_output {
                    Some(o) => Some(o@),
                    None => None,
                },
            ),
    {
        ReleaseManifest {
            version: String::from_str(version),
            git_tag: record_output(git_describe_output),
            git_commit: record_output(git_rev_parse_output),
            rust_toolchain: record_output(rustc_version_output),
            target: String::from_str(target),
            build_timestamp: utc_now_rfc3339(),
            binary_sha256: String::from_str(binary_sha256),
        }
    }
}

} // verus!
