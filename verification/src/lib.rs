//! Firmware logic of a Bluetooth A2DP audio source: the SBC encoder and the
//! protocol, descriptor and state-machine layers around it.

pub mod sbc_encoder;
pub mod bt_classic;
pub mod usb_audio;
pub mod hal_pico2w;
pub mod a2dp_app;
pub mod audio_pipeline;
