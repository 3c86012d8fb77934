//! Session-scoped console relay: a consume-once session store, the broker
//! that mints sessions and the relay that redeems them and pumps frames.

pub mod store;
pub mod upstream;
pub mod broker;
pub mod relay;
