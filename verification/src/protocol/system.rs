//! Platform and connection message shapes.

use crate::protocol::common::Facility;
use vstd::prelude::*;

verus! {

/// Requests the service configuration.
#[derive(Debug, Clone, PartialEq)]
pub struct GetConfig;

/// The services the platform routes requests to.
#[derive(Debug, Clone, PartialEq)]
pub struct GetConfigResponse {
    pub services: Vec<Service>,
}

/// Asks whether the platform has internet connectivity.
#[derive(Debug, Clone, PartialEq)]
pub struct GetInternetConnectedState;

/// Requests the platform settings.
#[derive(Debug, Clone, PartialEq)]
pub struct GetSettings;

/// The platform settings.
#[derive(Debug, Clone, PartialEq)]
pub struct GetSettingsResponse {
    pub language: String,
    pub environment: String,
    pub is_igo_available: bool,
    pub is_igo_enabled: bool,
    pub is_telemetry_enabled: bool,
    pub is_manual_offline: bool,
}

/// Requests the platform's UTC time.
#[derive(Debug, Clone, PartialEq)]
pub struct GetUtcTime;

/// The platform's UTC time.
#[derive(Debug, Clone, PartialEq)]
pub struct GetUtcTimeResponse {
    pub time: String,
}

/// Whether the platform has internet connectivity.
#[derive(Debug, Clone, PartialEq)]
pub struct InternetConnectedState {
    pub connected: i32,
}

/// Asks the game to restore its window.
#[derive(Debug, Clone, PartialEq)]
pub struct RestoreRequest;

/// One routable service and its facility.
#[derive(Debug, Clone, PartialEq)]
pub struct Service {
    pub name: String,
    pub facility: Facility,
}

/// The settings that can be asked for one by one.
#[derive(Debug, Clone, Copy, PartialEq, Eq, Structural)]
pub enum Setting {
    Language,
    Environment,
    IsIgoAvailable,
    IsIgoEnabled,
    IsTelemetryEnabled,
    IsManualOffline,
}

} // verus!
