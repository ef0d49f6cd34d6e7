//! Sources that replay projections are read from.

use vstd::prelude::*;

verus! {

#[derive(Debug, Clone, Copy, PartialEq, Eq)]
pub enum ReplayProjectionFamily {
    FirstHostCapture,
    SessionLifecycle,
    FixtureFamily,
    RetainedWitness,
}

#[derive(Debug, Clone, PartialEq, Eq)]
pub struct ReplayFixtureFamilySource {
    pub source_schema_id: String,
    pub source_fixture_family: String,
    pub source_case_ids: Vec<String>,
    pub registry_pin: Option<String>,
}

#[derive(Debug, Clone, PartialEq, Eq)]
pub struct ReplayRetainedWitnessSource {
    pub witness_id: String,
    pub source_fixture_family: String,
    pub source_case_ids: Vec<String>,
    pub witness_lifecycle_state: String,
    pub retention_policy_id: Option<String>,
    pub registry_pin: Option<String>,
    pub source_bundle_ref: Option<String>,
    pub reduction_manifest_ref: Option<String>,
}

/// A first host capture to replay: where it came from, the session it
/// belongs to, and the capture packet (`P`).
#[derive(Debug, Clone, PartialEq, Eq)]
pub struct ReplayFirstHostCaptureSource<P> {
    pub source_artifact_family: String,
    pub session_id: Option<String>,
    pub packet: P,
}

pub struct ReplayProjectionService;

} // verus!
