//! The balloon device as the control plane sees it: the configuration it was
//! created with, adjusted at run time, and the statistics it reports.

use crate::balloon::BalloonDeviceConfig;
use vstd::prelude::*;

verus! {

/// Guest pages are 4 KiB, so this many of them make one MiB.
pub const PAGES_PER_MIB: u32 = 256;

/// Errors reported by the balloon device itself.
#[derive(Clone, Copy, Debug, PartialEq, Eq, Structural)]
pub enum BalloonError {
    /// Statistics were asked for, but the device was created with them disabled.
    StatisticsDisabled,
    /// An update would enable or disable statistics, which only creation decides.
    StatisticsStateChange,
}

/// Balloon statistics: the size the host asked for and the size the guest
/// reports, in pages and in MiB.
#[derive(Clone, Copy, Debug, PartialEq, Eq, Structural)]
pub struct BalloonStats {
    pub target_pages: u32,
    pub actual_pages: u32,
    pub target_mib: u32,
    pub actual_mib: u32,
}

/// What a balloon device holds: its current configuration and the number of
/// pages that the guest reports to be in the balloon.
#[derive(Clone, Copy, Debug, PartialEq, Eq, Structural)]
pub struct BalloonState {
    pub config: BalloonDeviceConfig,
    pub actual_pages: u32,
}

/// A balloon device.
pub struct Balloon {
    config: BalloonDeviceConfig,
    actual_pages: u32,
}

impl View for Balloon {
    type V = BalloonState;

    closed spec fn view(&self) -> BalloonState {
        BalloonState { config: self.config, actual_pages: self.actual_pages }
    }
}

/// A device just created from `cfg`: the guest has reported nothing yet.
pub open spec fn fresh_state(cfg: BalloonDeviceConfig) -> BalloonState {
    BalloonState { config: cfg, actual_pages: 0 }
}

/// Whether a device with interval `interval_s` collects statistics.
pub open spec fn stats_enabled_for(interval_s: u16) -> bool {
    interval_s != 0
}

/// The MiB that `pages` pages of 4 KiB fill, rounded down.
pub open spec fn pages_to_mib(pages: u32) -> u32 {
    pages / PAGES_PER_MIB
}

/// The statistics that a device in state `s` reports.
pub open spec fn stats_of(s: BalloonState) -> BalloonStats {
    BalloonStats {
        target_pages: s.config.num_pages,
        actual_pages: s.actual_pages,
        target_mib: pages_to_mib(s.config.num_pages),
        actual_mib: pages_to_mib(s.actual_pages),
    }
}

fn pages_to_mib_exec(pages: u32) -> (r: u32)
    ensures
        r == pages_to_mib(pages),
{
    pages / PAGES_PER_MIB
}

impl Balloon {
    /// Creates a device with the given settings.
    pub fn new(num_pages: u32, must_tell_host: bool, deflate_on_oom: bool, stats_polling_interval_s: u16) -> (r: Balloon)
        ensures
            r@ == fresh_state(BalloonDeviceConfig { num_pages, must_tell_host, deflate_on_oom, stats_polling_interval_s }),
    {
        Balloon {
            config: BalloonDeviceConfig { num_pages, must_tell_host, deflate_on_oom, stats_polling_interval_s },
            actual_pages: 0,
        }
    }

    /// The number of pages the balloon should hold.
    pub fn num_pages(&self) -> (r: u32)
        ensures
            r == self@.config.num_pages,
    {
        self.config.num_pages
    }

    /// Whether the guest must ask the host before deflating.
    pub fn must_tell_host(&self) -> (r: bool)
        ensures
            r == self@.config.must_tell_host,
    {
        self.config.must_tell_host
    }

    /// Whether the balloon deflates when the guest runs out of memory.
    pub fn deflate_on_oom(&self) -> (r: bool)
        ensures
            r == self@.config.deflate_on_oom,
    {
        self.config.deflate_on_oom
    }

    /// Seconds between statistics refreshes; zero when statistics are disabled.
    pub fn stats_polling_interval_s(&self) -> (r: u16)
        ensures
            r == self@.config.stats_polling_interval_s,
    {
        self.config.stats_polling_interval_s
    }

    /// The device's current configuration.
    pub fn config(&self) -> (r: BalloonDeviceConfig)
        ensures
            r == self@.config,
    {
        self.config
    }

    /// Sets the number of pages the balloon should hold.
    pub fn update_size(&mut self, num_pages: u32)
        ensures
            final(self)@ == (BalloonState {
                config: BalloonDeviceConfig { num_pages, ..old(self)@.config },
                ..old(self)@
            }),
    {
        self.config.num_pages = num_pages;
    }

    /// Changes the statistics interval. Statistics cannot be switched on or
    /// off after creation: an interval of zero stays zero, and a non-zero one
    /// stays non-zero.
    pub fn update_stats_polling_interval(&mut self, interval_s: u16) -> (r: Result<(), BalloonError>)
        ensures
            stats_enabled_for(interval_s) == stats_enabled_for(old(self)@.config.stats_polling_interval_s) ==> r is Ok
                && final(self)@ == (BalloonState {
                    config: BalloonDeviceConfig { stats_polling_interval_s: interval_s, ..old(self)@.config },
                    ..old(self)@
                }),
            stats_enabled_for(interval_s) != stats_enabled_for(old(self)@.config.stats_polling_interval_s) ==> r
                == Err::<(), BalloonError>(BalloonError::StatisticsStateChange) && final(self)@ == old(self)@,
    {
        if (interval_s == 0) != (self.config.stats_polling_interval_s == 0) {
            return Err(BalloonError::StatisticsStateChange);
        }
        self.config.stats_polling_interval_s = interval_s;
        Ok(())
    }

    /// Records the number of pages that the guest reports in the balloon.
    pub fn set_actual_pages(&mut self, pages: u32)
        ensures
            final(self)@ == (BalloonState { actual_pages: pages, ..old(self)@ }),
    {
        self.actual_pages = pages;
    }

    /// The latest statistics, if the device collects them.
    pub fn latest_stats(&self) -> (r: Result<BalloonStats, BalloonError>)
        ensures
            stats_enabled_for(self@.config.stats_polling_interval_s) ==> r == Ok::<BalloonStats, BalloonError>(stats_of(self@)),
            !stats_enabled_for(self@.config.stats_polling_interval_s) ==> r == Err::<BalloonStats, BalloonError>(BalloonError::StatisticsDisabled),
    {
        if self.config.stats_polling_interval_s == 0 {
            return Err(BalloonError::StatisticsDisabled);
        }
        Ok(BalloonStats {
            target_pages: self.config.num_pages,
            actual_pages: self.actual_pages,
            target_mib: pages_to_mib_exec(self.config.num_pages),
            actual_mib: pages_to_mib_exec(self.actual_pages),
        })
    }
}

} // verus!
