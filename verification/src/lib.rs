//! Control core that turns game-controller frames into actuator commands.
pub mod arbiter;
pub mod driver;
pub mod dualsense_state;
pub mod edge;
pub mod motor;
pub mod p9n_interface;
pub mod ps5_dualsense;
pub mod toggle;
