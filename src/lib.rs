//! Screen frame streaming: change detection between successive captures,
//! frame pacing, a FIFO hand-off between capture and delivery, and the
//! start/stop life cycle of a recording session.

pub mod differ;
pub mod pacer;
pub mod channel;
pub mod emitter;
pub mod session;
