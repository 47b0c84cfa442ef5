//! The identity of a device while its modules report.
use crate::versioning::snapshot;
use crate::versioning::snapshot::{collect_identity_state, Traceability};
use crate::versioning::types::{
    GpsModuleIdentity, HardwareIdentity, IdentityConfig, IdentityField, IdentityState,
    RadioModuleIdentity, SdCardIdentity,
};
use vstd::prelude::*;

verus! {

/// Keeps the identity of a device.
pub struct IdentityVersioningService {
    state: IdentityState,
}

impl View for IdentityVersioningService {
    type V = IdentityState;

    closed spec fn view(&self) -> IdentityState {
        self.state
    }
}

impl IdentityVersioningService {
    /// The identity of a device as it starts.
    pub fn new(config: &IdentityConfig, trace: &Traceability) -> (service: Self)
        ensures
            service@.device == snapshot::device_of(*config, *trace),
            service@.firmware == snapshot::firmware_of(config.calculate_runtime_crc32, *trace),
            service@.hardware == (HardwareIdentity {
                board_revision: config.board_revision,
                sd_card: IdentityField::Unknown,
                gps_module: IdentityField::Unknown,
                radio_module: IdentityField::Unknown,
            }),
    {
        IdentityVersioningService { state: collect_identity_state(config, trace) }
    }

    /// The present identity.
    pub fn state(&self) -> (state: &IdentityState)
        ensures
            *state == self@,
    {
        &self.state
    }

    /// Takes in what the memory card reports.
    pub fn set_sd_card_identity(&mut self, identity: IdentityField<SdCardIdentity>)
        ensures
            final(self)@ == (IdentityState {
                hardware: HardwareIdentity { sd_card: identity, ..old(self)@.hardware },
                ..old(self)@
            }),
    {
        self.state.hardware.sd_card = identity;
    }

    /// Takes in what the GPS receiver reports.
    pub fn set_gps_module_identity(&mut self, identity: IdentityField<GpsModuleIdentity>)
        ensures
            final(self)@ == (IdentityState {
                hardware: HardwareIdentity { gps_module: identity, ..old(self)@.hardware },
                ..old(self)@
            }),
    {
        self.state.hardware.gps_module = identity;
    }

    /// Takes in what the radio reports.
    pub fn set_radio_module_identity(&mut self, identity: IdentityField<RadioModuleIdentity>)
        ensures
            final(self)@ == (IdentityState {
                hardware: HardwareIdentity { radio_module: identity, ..old(self)@.hardware },
                ..old(self)@
            }),
    {
        self.state.hardware.radio_module = identity;
    }

    /// Replaces what is known about the board and its modules.
    pub fn set_hardware_identity(&mut self, identity: HardwareIdentity)
        ensures
            final(self)@ == (IdentityState { hardware: identity, ..old(self)@ }),
    {
        self.state.hardware = identity;
    }
}

} // verus!
