//! Human-readable identifiers and a deep link derived from build metadata.

use crate::opt_view;
use vstd::prelude::*;

verus! {

/// What the CI platform tells about the running build; every identifier may be absent.
pub struct BuildMetadata {
    /// The build number within the build's job.
    pub name: Option<String>,
    pub job_name: Option<String>,
    pub pipeline_name: Option<String>,
    pub team_name: String,
    /// Public base URL of the CI server.
    pub atc_external_url: String,
}

/// Identifiers of a build, ready for display.
pub struct FormattedBuildInfo {
    pub job_name: String,
    pub build_name: String,
    pub build_number: String,
    pub build_url: Option<String>,
}

/// What `urlencoding::encode` makes of `s`.
pub uninterp spec fn url_encoded(s: Seq<char>) -> Seq<char>;

/// Relies on `urlencoding::encode`: percent-encodes every byte of the UTF-8
/// form of `s` but alphanumerics and `-`, `_`, `.`, `~`.
#[verifier::external_body]
fn url_encode(s: &str) -> (r: String)
    ensures
        r@ == url_encoded(s@),
{
    urlencoding::encode(s)
}

/// Whether pipeline name, job name and build number are all present.
pub open spec fn is_known_build(m: &BuildMetadata) -> bool {
    &&& m.pipeline_name is Some
    &&& m.job_name is Some
    &&& m.name is Some
}

/// `<pipeline>/<job>` of a known build, else `unknown job`.
pub open spec fn spec_job_name(m: &BuildMetadata) -> Seq<char> {
    if is_known_build(m) {
        m.pipeline_name->0@ + "/"@ + m.job_name->0@
    } else {
        "unknown job"@
    }
}

/// `<pipeline>/<job> #<number>` of a known build, else `unknown build`.
pub open spec fn spec_build_name(m: &BuildMetadata) -> Seq<char> {
    if is_known_build(m) {
        m.pipeline_name->0@ + "/"@ + m.job_name->0@ + " #"@ + m.name->0@
    } else {
        "unknown build"@
    }
}

/// `#<number>` of a known build, else `unknown build`.
pub open spec fn spec_build_number(m: &BuildMetadata) -> Seq<char> {
    if is_known_build(m) {
        "#"@ + m.name->0@
    } else {
        "unknown build"@
    }
}

/// The build's page on the CI server, for a known build.
pub open spec fn spec_build_url(m: &BuildMetadata) -> Option<Seq<char>> {
    if is_known_build(m) {
        Some(
            m.atc_external_url@ + "/teams/"@ + url_encoded(m.team_name@) + "/pipelines/"@
                + url_encoded(m.pipeline_name->0@) + "/jobs/"@ + url_encoded(m.job_name->0@)
                + "/builds/"@ + m.name->0@,
        )
    } else {
        None
    }
}

/// Formats the identifiers of the build that `build_metadata` describes; a build
/// that lacks pipeline name, job name or number is an unknown build.
pub fn formatted_build_info_from_params(build_metadata: &BuildMetadata) -> (r: FormattedBuildInfo)
    ensures
        r.job_name@ == spec_job_name(build_metadata),
        r.build_name@ == spec_build_name(build_metadata),
        r.build_number@ == spec_build_number(build_metadata),
        opt_view(r.build_url) == spec_build_url(build_metadata),
{
    match (&build_metadata.pipeline_name, &build_metadata.job_name, &build_metadata.name) {
        (Some(pipeline_name), Some(job_name), Some(name)) => {
            let mut job = pipeline_name.clone();
            job.append("/");
            job.append(job_name.as_str());
            let mut build_name = job.clone();
            build_name.append(" #");
            build_name.append(name.as_str());
            let mut build_number = String::from_str("#");
            build_number.append(name.as_str());
            let mut url = build_metadata.atc_external_url.clone();
            url.append("/teams/");
            url.append(url_encode(build_metadata.team_name.as_str()).as_str());
            url.append("/pipelines/");
            url.append(url_encode(pipeline_name.as_str()).as_str());
            url.append("/jobs/");
            url.append(url_encode(job_name.as_str()).as_str());
            url.append("/builds/");
            url.append(name.as_str());
            FormattedBuildInfo {
                job_name: job,
                build_name,
                build_number,
                build_url: Some(url),
            }
        },
        _ => FormattedBuildInfo {
            job_name: String::from_str("unknown job"),
            build_name: String::from_str("unknown build"),
            build_number: String::from_str("unknown build"),
            build_url: None,
        },
    }
}

} // verus!
