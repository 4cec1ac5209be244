//! The A2DP source application: its configuration, the connection state
//! machine and the HCI commands it adds for Bluetooth Classic.

pub mod config;
pub mod hci_classic;
pub mod state_machine;

pub use crate::bt_classic::a2dp::A2dpState;
pub use config::AppConfig;
pub use state_machine::StateMachine;
