//! Pure parts of the ShredStream client: the reconnect policy and the
//! resolution of instruction account indices.

pub mod pfees_ix;
pub mod reconnect;
