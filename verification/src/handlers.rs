//! USB-side handlers: the control-path handler that applies host-issued
//! configuration writes to the key map, the device state handler, and the
//! resolution of one poll tick's edge event into an outbound report.

use vstd::prelude::*;
use crate::buttons::State;
use crate::config::BUTTON_COUNT;
use crate::config::CONFIG_LEN;
use crate::config::Config;
use crate::config::Key;
use crate::config::is_press_report;
use crate::config::is_release_report;
use crate::persist::Persistence;
use crate::persist::spec_request;

verus! {

/// Handles host-issued HID control requests for the keypad.
pub struct CustomRequestHandler {}

impl CustomRequestHandler {
    /// The keypad serves no input report over the control path.
    pub fn get_report(&self) -> (r: Option<usize>)
        ensures
            r is None,
    {
        None
    }

    /// A host configuration write. A payload of exactly `CONFIG_LEN` bytes
    /// is applied to the key map and a persistence flush is requested; a
    /// payload of any other length changes neither. The control transaction
    /// is acknowledged either way; the return value reports whether the
    /// payload was applied.
    pub fn set_report(
        &self,
        config: &mut Config,
        persist: &mut Persistence,
        data: &[u8],
    ) -> (applied: bool)
        ensures
            applied == (data@.len() == CONFIG_LEN),
            applied ==> final(config)@ == old(config)@.apply(data@) && final(persist)@
                == spec_request(old(persist)@),
            !applied ==> final(config)@ == old(config)@ && final(persist)@ == old(persist)@,
    {
        if data.len() == CONFIG_LEN {
            let _ = config.update(data);
            persist.request_flush();
            true
        } else {
            false
        }
    }

    /// The keypad ignores idle-rate configuration.
    pub fn set_idle_ms(&self, _dur: u32) {
    }

    /// The keypad reports no idle rate.
    pub fn get_idle_ms(&self) -> (r: Option<u32>)
        ensures
            r is None,
    {
        None
    }
}

/// Tracks whether the host has put the USB device into the configured state.
pub struct DeviceHandler {
    pub configured: bool,
}

impl DeviceHandler {
    /// A device handler for a device that is not yet configured.
    pub fn new() -> (h: Self)
        ensures
            !h.configured,
    {
        DeviceHandler { configured: false }
    }

    /// The bus was enabled or disabled: either way the device is no longer
    /// configured.
    pub fn enabled(&mut self, _enabled: bool)
        ensures
            !final(self).configured,
    {
        self.configured = false;
    }

    /// A bus reset drops the configured state.
    pub fn reset(&mut self)
        ensures
            !final(self).configured,
    {
        self.configured = false;
    }

    /// An address assignment precedes configuration, so it drops the
    /// configured state.
    pub fn addressed(&mut self, _addr: u8)
        ensures
            !final(self).configured,
    {
        self.configured = false;
    }

    /// Records whether the host has configured the device.
    pub fn configured(&mut self, configured: bool)
        ensures
            final(self).configured == configured,
    {
        self.configured = configured;
    }

    /// Whether the host has configured the device.
    pub fn is_configured(&self) -> (r: bool)
        ensures
            r == self.configured,
    {
        self.configured
    }
}

/// Resolves one poll tick's edge event against the key map: a rising edge
/// yields the slot's press report, a falling edge its release report, and a
/// tick without an edge yields no report.
pub fn report_for_event(config: &Config, event: &State) -> (r: Key)
    requires
        config.wf(),
        match *event {
            State::Rising(i) => i < BUTTON_COUNT,
            State::Falling(i) => i < BUTTON_COUNT,
            State::Idle => true,
        },
    ensures
        match *event {
            State::Rising(i) => is_press_report(config@, i as int, r),
            State::Falling(i) => is_release_report(config@, i as int, r),
            State::Idle => r is Unknown,
        },
{
    match event {
        State::Rising(idx) => config.get_key_report(*idx),
        State::Falling(idx) => config.get_zero_report(*idx),
        State::Idle => Key::Unknown,
    }
}

} // verus!
