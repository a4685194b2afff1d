//! Balloon configuration values and the builder that holds the single
//! balloon device of a virtual machine.

use crate::device::{fresh_state, stats_enabled_for, stats_of, Balloon, BalloonError, BalloonState, BalloonStats};
use vstd::prelude::*;

verus! {

/// The settings a balloon device is created with.
#[derive(Clone, Copy, Debug, PartialEq, Eq, Structural)]
pub struct BalloonDeviceConfig {
    /// Number of pages that the balloon should contain.
    pub num_pages: u32,
    /// Whether the guest must obtain permission from the host to deflate.
    pub must_tell_host: bool,
    /// Whether the balloon deflates when the guest is out of memory.
    pub deflate_on_oom: bool,
    /// Interval in seconds between refreshing statistics; zero disables them.
    pub stats_polling_interval_s: u16,
}

/// The settings that can change while the device runs.
#[derive(Clone, Copy, Debug, PartialEq, Eq, Structural)]
pub struct BalloonUpdateConfig {
    /// Number of pages that the balloon should contain.
    pub num_pages: u32,
    /// Interval in seconds between refreshing statistics.
    pub stats_polling_interval_s: u16,
}

/// Errors of the operations on the balloon device.
#[derive(Clone, Copy, Debug, PartialEq, Eq, Structural)]
pub enum BalloonConfigError {
    /// The request was made while no balloon device exists.
    DeviceNotFound,
    /// Statistics were polled from a device created with statistics disabled.
    StatsNotFound,
    /// The balloon device could not be created.
    CreateFailure(BalloonError),
    /// The device refused the new configuration.
    UpdateFailure(BalloonError),
}

/// The text that describes an error of kind `e`.
pub open spec fn error_text(e: BalloonConfigError) -> &'static str {
    match e {
        BalloonConfigError::DeviceNotFound => "No balloon device found.",
        BalloonConfigError::StatsNotFound => "Statistics for the balloon device are not enabled",
        BalloonConfigError::CreateFailure(_) => "Error creating the balloon device",
        BalloonConfigError::UpdateFailure(_) => "Error updating the balloon device configuration",
    }
}

impl BalloonConfigError {
    /// A description of the error, without its cause.
    pub fn message(&self) -> (r: &'static str)
        ensures
            r == error_text(*self),
    {
        match self {
            BalloonConfigError::DeviceNotFound => "No balloon device found.",
            BalloonConfigError::StatsNotFound => "Statistics for the balloon device are not enabled",
            BalloonConfigError::CreateFailure(_) => "Error creating the balloon device",
            BalloonConfigError::UpdateFailure(_) => "Error updating the balloon device configuration",
        }
    }
}

/// The registry after `set(cfg)`: a new device built from `cfg` alone, in
/// place of whatever `prev` held.
pub open spec fn after_set(prev: Option<BalloonState>, cfg: BalloonDeviceConfig) -> Option<BalloonState> {
    Some(fresh_state(cfg))
}

/// What `update(u)` makes of the registry `m`: the new registry, or the error.
pub open spec fn after_update(m: Option<BalloonState>, u: BalloonUpdateConfig) -> Result<Option<BalloonState>, BalloonConfigError> {
    match m {
        None => Err(BalloonConfigError::DeviceNotFound),
        Some(s) => if stats_enabled_for(u.stats_polling_interval_s) != stats_enabled_for(s.config.stats_polling_interval_s) {
            Err(BalloonConfigError::UpdateFailure(BalloonError::StatisticsStateChange))
        } else {
            Ok(Some(BalloonState {
                config: BalloonDeviceConfig {
                    num_pages: u.num_pages,
                    stats_polling_interval_s: u.stats_polling_interval_s,
                    ..s.config
                },
                ..s
            }))
        },
    }
}

/// What `poll_stats` returns on the registry `m`.
pub open spec fn polled_stats(m: Option<BalloonState>) -> Result<BalloonStats, BalloonConfigError> {
    match m {
        None => Err(BalloonConfigError::DeviceNotFound),
        Some(s) => if stats_enabled_for(s.config.stats_polling_interval_s) {
            Ok(stats_of(s))
        } else {
            Err(BalloonConfigError::StatsNotFound)
        },
    }
}

/// Storing a configuration and then reading the device back gives a device
/// whose settings are exactly that configuration, whatever was stored before.
pub proof fn lemma_set_then_get(prev: Option<BalloonState>, cfg: BalloonDeviceConfig)
    ensures
        after_set(prev, cfg) is Some,
        after_set(prev, cfg)->Some_0.config == cfg,
{
}

/// A second `set` replaces the first device entirely: the result is the same
/// as if only the second configuration had ever been stored.
pub proof fn lemma_set_replaces(prev: Option<BalloonState>, first: BalloonDeviceConfig, second: BalloonDeviceConfig)
    ensures
        after_set(after_set(prev, first), second) == after_set(prev, second),
        after_set(after_set(prev, first), second) == after_set(None, second),
        after_set(after_set(prev, first), second)->Some_0.config == second,
{
}

/// An update with no device stored fails with `DeviceNotFound`.
pub proof fn lemma_update_without_device(update: BalloonUpdateConfig)
    ensures
        after_update(None, update) == Err::<Option<BalloonState>, BalloonConfigError>(BalloonConfigError::DeviceNotFound),
{
}

/// Polling a device created with a zero statistics interval fails with
/// `StatsNotFound`; with any other interval it returns the statistics.
pub proof fn lemma_poll_after_set(prev: Option<BalloonState>, cfg: BalloonDeviceConfig)
    ensures
        cfg.stats_polling_interval_s == 0 ==> polled_stats(after_set(prev, cfg))
            == Err::<BalloonStats, BalloonConfigError>(BalloonConfigError::StatsNotFound),
        cfg.stats_polling_interval_s != 0 ==> polled_stats(after_set(prev, cfg))
            == Ok::<BalloonStats, BalloonConfigError>(stats_of(fresh_state(cfg))),
{
}

/// Holds the balloon device of a virtual machine, if one has been created.
pub struct BalloonBuilder {
    inner: Option<Balloon>,
}

impl View for BalloonBuilder {
    type V = Option<BalloonState>;

    closed spec fn view(&self) -> Option<BalloonState> {
        match self.inner {
            Some(b) => Some(b@),
            None => None,
        }
    }
}

impl Default for BalloonBuilder {
    fn default() -> (r: Self)
        ensures
            r@ == None::<BalloonState>,
    {
        Self::new()
    }
}

impl BalloonBuilder {
    /// Creates an empty store.
    pub fn new() -> (r: Self)
        ensures
            r@ == None::<BalloonState>,
    {
        Self { inner: None }
    }

    /// Creates a balloon device from `cfg` and stores it, replacing any
    /// device stored before.
    pub fn set(&mut self, cfg: BalloonDeviceConfig) -> (r: Result<(), BalloonConfigError>)
        ensures
            r is Ok,
            final(self)@ == after_set(old(self)@, cfg),
    {
        self.inner = Some(
            Balloon::new(cfg.num_pages, cfg.must_tell_host, cfg.deflate_on_oom, cfg.stats_polling_interval_s),
        );
        Ok(())
    }

    /// The stored device, if there is one.
    pub fn get(&self) -> (r: Option<&Balloon>)
        ensures
            r is Some <==> self@ is Some,
            r is Some ==> r->Some_0@ == self@->Some_0,
    {
        self.inner.as_ref()
    }

    /// Applies the run-time adjustable settings of `update` to the stored
    /// device. Either both settings change or, on an error, nothing does.
    pub fn update(&mut self, update: BalloonUpdateConfig) -> (r: Result<(), BalloonConfigError>)
        ensures
            match after_update(old(self)@, update) {
                Ok(m) => r is Ok && final(self)@ == m,
                Err(e) => r == Err::<(), BalloonConfigError>(e) && final(self)@ == old(self)@,
            },
    {
        match &mut self.inner {
            None => Err(BalloonConfigError::DeviceNotFound),
            Some(balloon) => {
                match balloon.update_stats_polling_interval(update.stats_polling_interval_s) {
                    Ok(()) => {
                        balloon.update_size(update.num_pages);
                        Ok(())
                    },
                    Err(e) => Err(BalloonConfigError::UpdateFailure(e)),
                }
            },
        }
    }

    /// The statistics of the stored device.
    pub fn poll_stats(&self) -> (r: Result<BalloonStats, BalloonConfigError>)
        ensures
            r == polled_stats(self@),
    {
        match &self.inner {
            None => Err(BalloonConfigError::DeviceNotFound),
            Some(balloon) => match balloon.latest_stats() {
                Ok(stats) => Ok(stats),
                Err(_) => Err(BalloonConfigError::StatsNotFound),
            },
        }
    }
}

} // verus!
