//! Application configuration.

use vstd::prelude::*;

verus! {

/// Application configuration.
#[derive(Debug, Clone)]
pub struct AppConfig {
    /// Bluetooth device name
    pub device_name: &'static str,
    /// Default SBC bitpool value
    pub default_bitpool: u8,
    /// Auto-reconnect on disconnect
    pub auto_reconnect: bool,
    /// Audio buffer size in milliseconds
    pub audio_buffer_ms: u32,
}

impl Default for AppConfig {
    /// "Pico A2DP Audio", bitpool 53, reconnecting, 100 ms of buffer.
    fn default() -> (r: Self)
        ensures
            r.device_name@ == "Pico A2DP Audio"@,
            r.default_bitpool == 53,
            r.auto_reconnect,
            r.audio_buffer_ms == 100,
    {
        AppConfig {
            device_name: "Pico A2DP Audio",
            default_bitpool: 53,
            auto_reconnect: true,
            audio_buffer_ms: 100,
        }
    }
}

impl AppConfig {
    /// Whether the configuration passes validation: a name, a bitpool
    /// within 2 to 250 and a buffer within 20 to 500 ms.
    pub open spec fn is_acceptable(&self) -> bool {
        &&& self.device_name@.len() > 0
        &&& 2 <= self.default_bitpool <= 250
        &&& 20 <= self.audio_buffer_ms <= 500
    }

    /// Validate configuration. The error names the first check that
    /// failed: the name, then the bitpool, then the buffer.
    pub fn validate(&self) -> (r: Result<(), &'static str>)
        ensures
            r is Ok <==> self.is_acceptable(),
            r matches Err(msg) ==> msg@ == (if self.device_name@.len() == 0 {
                "Device name cannot be empty"@
            } else if !(2 <= self.default_bitpool <= 250) {
                "Bitpool must be between 2 and 250"@
            } else {
                "Audio buffer must be between 20 and 500 ms"@
            }),
    {
        if self.device_name.is_empty() {
            return Err("Device name cannot be empty");
        }
        if self.default_bitpool < 2 || self.default_bitpool > 250 {
            return Err("Bitpool must be between 2 and 250");
        }
        if self.audio_buffer_ms < 20 || self.audio_buffer_ms > 500 {
            return Err("Audio buffer must be between 20 and 500 ms");
        }
        Ok(())
    }
}

} // verus!
