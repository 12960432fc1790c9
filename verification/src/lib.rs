//! Link layer of a small LoRa satellite and its ground station: the byte
//! layout of every frame, the satellite's command handling and the ground
//! station's bookkeeping and console text.

pub mod codec;
pub mod protocol;
pub mod text;
pub mod satellite;
pub mod ground;
pub mod link;
pub mod layout_laws;
pub mod command_laws;
pub mod station_laws;
pub mod text_laws;
pub mod satellite_laws;
