//! Builds and the observation events derived from them.

use vstd::prelude::*;

verus! {

/// State of a build as reported by an upstream collector.
#[derive(Clone, Copy, Debug, PartialEq, Eq, Structural)]
pub enum BuildStatus {
    Unknown,
    Success,
    Failed,
    Running,
    Queued,
    Canceled,
}

/// Continuous-integration service a build originates from.
#[derive(Clone, Copy, Debug, PartialEq, Eq, Structural)]
pub enum BuildProvider {
    TeamCity,
    AzureDevOps,
    GitHub,
}

/// The name of a status as it appears in outgoing messages.
pub open spec fn status_label(s: BuildStatus) -> Seq<char> {
    match s {
        BuildStatus::Unknown => "Unknown"@,
        BuildStatus::Success => "Success"@,
        BuildStatus::Failed => "Failed"@,
        BuildStatus::Running => "Running"@,
        BuildStatus::Queued => "Queued"@,
        BuildStatus::Canceled => "Canceled"@,
    }
}

/// The name of a provider as it appears in outgoing messages.
pub open spec fn provider_label(p: BuildProvider) -> Seq<char> {
    match p {
        BuildProvider::TeamCity => "TeamCity"@,
        BuildProvider::AzureDevOps => "AzureDevOps"@,
        BuildProvider::GitHub => "GitHub"@,
    }
}

pub fn status_name(s: BuildStatus) -> (r: &'static str)
    ensures
        r@ == status_label(s),
{
    match s {
        BuildStatus::Unknown => "Unknown",
        BuildStatus::Success => "Success",
        BuildStatus::Failed => "Failed",
        BuildStatus::Running => "Running",
        BuildStatus::Queued => "Queued",
        BuildStatus::Canceled => "Canceled",
    }
}

pub fn provider_name(p: BuildProvider) -> (r: &'static str)
    ensures
        r@ == provider_label(p),
{
    match p {
        BuildProvider::TeamCity => "TeamCity",
        BuildProvider::AzureDevOps => "AzureDevOps",
        BuildProvider::GitHub => "GitHub",
    }
}

/// One monitored build. Immutable once constructed.
pub struct Build {
    pub build_id: String,
    pub provider: BuildProvider,
    pub collector: String,
    pub project_id: String,
    pub project_name: String,
    pub definition_id: String,
    pub definition_name: String,
    pub build_number: String,
    pub status: BuildStatus,
    pub branch: String,
    pub url: String,
    pub started_at: String,
    pub author: Option<String>,
}

impl Build {
    #[allow(clippy::too_many_arguments)]
    pub fn new(
        build_id: String,
        provider: BuildProvider,
        collector: String,
        project_id: String,
        project_name: String,
        definition_id: String,
        definition_name: String,
        build_number: String,
        status: BuildStatus,
        branch: String,
        url: String,
        started_at: String,
        author: Option<String>,
    ) -> (b: Build)
        ensures
            b.build_id == build_id,
            b.provider == provider,
            b.collector == collector,
            b.project_id == project_id,
            b.project_name == project_name,
            b.definition_id == definition_id,
            b.definition_name == definition_name,
            b.build_number == build_number,
            b.status == status,
            b.branch == branch,
            b.url == url,
            b.started_at == started_at,
            b.author == author,
    {
        Build {
            build_id,
            provider,
            collector,
            project_id,
            project_name,
            definition_id,
            definition_name,
            build_number,
            status,
            branch,
            url,
            started_at,
            author,
        }
    }
}

/// A discrete event emitted by the upstream monitor.
pub enum Observation {
    DuckStatusChanged(BuildStatus),
    BuildStatusChanged(Build),
    ShuttingDown,
}

/// The line sent to chat providers when a build changes status.
pub open spec fn build_message(b: &Build) -> Seq<char> {
    provider_label(b.provider) + " build status for "@ + b.project_name@ + "::"@
        + b.definition_name@ + " ("@ + b.branch@ + ") changed to *"@ + status_label(b.status)
        + "*"@
}

/// Builds the chat line for `b`, exactly `build_message`.
pub fn build_message_text(b: &Build) -> (r: String)
    ensures
        r@ == build_message(b),
{
    let mut out = String::new();
    out.append(provider_name(b.provider));
    out.append(" build status for ");
    out.append(b.project_name.as_str());
    out.append("::");
    out.append(b.definition_name.as_str());
    out.append(" (");
    out.append(b.branch.as_str());
    out.append(") changed to *");
    out.append(status_name(b.status));
    out.append("*");
    proof {
        assert(out@ =~= build_message(b));
    }
    out
}

/// The collector an observation originates from, where it has one.
pub open spec fn observation_collector(o: &Observation) -> Option<Seq<char>> {
    match o {
        Observation::BuildStatusChanged(b) => Some(b.collector@),
        _ => None,
    }
}

} // verus!
