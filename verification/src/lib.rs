//! Verified core of the recorder's services.
//!
//! Every module keeps the decisions of one service: the clock that maps the
//! local oscillator to UTC, the sensor and location filters, the storage and
//! recording state machines, the log formatter. Peripherals, tasks and
//! channels belong to the application, which drives these types with plain
//! values.
pub mod arith;
pub mod clock;
pub mod order;
pub mod time;
pub mod text;
pub mod storage;
pub mod logging;
pub mod location;
pub mod power;
pub mod versioning;
pub mod sensors;
pub mod recorder;
pub mod firmware;
