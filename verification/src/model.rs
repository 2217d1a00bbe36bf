use std::collections::HashMap;
use vstd::prelude::*;

verus! {

/// The cluster information and licence information a host-side receiver
/// service hands back, combined into one record.
#[derive(Debug)]
pub struct ClusterData {
    pub cluster_info: ESClusterInfo,
    pub license_info: ESLicense,
}

/// How many endpoints a metadata pass processed.
#[derive(Default)]
pub struct EndpointMetadataResult {
    pub processed_endpoints: u32,
}

/// Identity and version of a search cluster.
#[derive(Debug)]
pub struct ESClusterInfo {
    pub cluster_uuid: String,
    pub cluster_name: String,
    pub version: Option<ESVersion>,
}

/// The version record a search cluster reports.
#[derive(Debug)]
pub struct ESVersion {
    pub number: String,
    pub build_flavor: String,
    pub build_type: String,
    pub build_hash: String,
    pub build_date: String,
    pub build_snapshot: Option<bool>,
    pub lucene_version: String,
    pub minimum_wire_compatibility_version: String,
    pub minimum_index_compatibility_version: String,
}

/// The licence record a search cluster reports.
#[derive(Debug)]
pub struct ESLicense {
    pub status: String,
    pub uid: String,
    pub kind: String,
    pub issue_date: Option<String>,
    pub issue_date_in_millis: Option<i32>,
    pub expiry_date: Option<String>,
    pub expirty_date_in_millis: Option<i32>,
    pub max_nodes: Option<u32>,
    pub issued_to: Option<String>,
    pub issuer: Option<String>,
    pub start_date_in_millis: Option<u32>,
}

/// Identifiers of the endpoint metric documents found, with the total count.
pub struct EndpointMetricsAbstract {
    pub endpoint_metric_ids: Vec<String>,
    pub total_endpoints: u32,
}

/// The agent a document belongs to.
pub struct Agent {
    pub id: String,
    pub version: Option<String>,
}

/// The event envelope of a policy response document.
pub struct Event {
    pub agent_id_status: String,
}

/// One action a policy applied, with its outcome.
pub struct PolicyAction {
    pub name: String,
    pub message: String,
    pub status: String,
}

/// A bare version string.
pub struct Version {
    pub version: String,
}

/// The artifact versions an endpoint runs with.
pub struct Artifact {
    pub global: Version,
}

/// The policy state an endpoint reports.
pub struct Policy {
    pub applied: PolicyApplied,
}

/// The applied part of a policy: its actions, artifacts and overall status.
pub struct PolicyApplied {
    pub actions: Vec<PolicyAction>,
    pub artifacts: Artifact,
    pub status: String,
}

/// Endpoint configuration that is not carried by a policy.
pub struct NonPolicyConfiguration {
    pub isolation: bool,
}

/// The endpoint section of a metadata or policy response document.
pub struct Endpoint {
    pub policy: Option<Policy>,
    pub configuration: Option<NonPolicyConfiguration>,
    pub state: Option<NonPolicyConfiguration>,
    pub capabilities: Option<Vec<String>>,
}

/// A policy response document as the endpoint writes it.
pub struct EndpointPolicyResponseDocument {
    pub agent: Agent,
    pub event: Event,
    pub endpoint: Endpoint,
}

/// The agent envelope of a metadata document.
pub struct Elastic {
    pub agent: Agent,
}

/// A metadata document as the endpoint writes it.
pub struct EndpointMetadataDocument {
    pub timestamp: String,
    pub agent: Agent,
    pub endpoint: Endpoint,
    pub elastic: Elastic,
}

/// A package policy record.
pub struct PackagePolicy {
    pub id: String,
    pub version: Option<String>,
    pub agents: Option<i32>,
    pub revision: i32,
    pub updated_at: String,
    pub updated_by: String,
    pub created_at: String,
    pub created_by: String,
}

/// The input streams a package policy carries.
pub struct PackagePolicyInput {
    pub streams: Vec<PackagePolicyInputStream>,
}

/// One input stream of a package policy.
pub struct PackagePolicyInputStream {
    pub id: String,
}

/// An agent policy record.
pub struct AgentPolicy {
    pub id: String,
    pub package_policies: Option<Vec<PackagePolicy>>,
    pub is_managed: bool,
    pub updated_at: String,
    pub updated_by: String,
    pub revision: i32,
    pub agents: Option<i32>,
    pub is_protected: bool,
    pub keep_monitoring_alive: Option<bool>,
    pub name: String,
    pub namespace: String,
    pub description: Option<String>,
    pub is_default: Option<bool>,
    pub is_default_fleet_server: Option<bool>,
    pub has_fleet_server: Option<bool>,
    pub unenroll_timeout: Option<i32>,
    pub inactivity_timeout: Option<i32>,
    pub is_preconfigured: Option<bool>,
    pub data_output_id: Option<String>,
    pub monitoring_output_id: Option<String>,
    pub download_source_id: Option<String>,
    pub fleet_server_host_id: Option<String>,
    pub schema_version: Option<String>,
}

/// The privileges a policy asks of the search cluster.
pub struct Elasticsearch {
    pub privileges: Privileges,
}

/// Cluster privileges by name.
pub struct Privileges {
    pub cluster: Vec<String>,
}

/// The package a package policy installs.
pub struct PackagePolicyPackage {
    pub name: String,
    pub title: String,
    pub version: String,
    pub experimental_data_stream_features: Option<Vec<ExperimentalDataStreamFeature>>,
}

/// Experimental feature switches for one data stream.
pub struct ExperimentalDataStreamFeature {
    pub data_stream: String,
    pub features: HashMap<String, bool>,
}

} // verus!
