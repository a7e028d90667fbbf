//! Bounded live navigation core: chronological scheduling, delayed fusion,
//! fixed-lag publication and the rules around them.
pub mod augmented;
pub mod capacity;
pub mod dense_history;
pub mod error;
pub mod eskf;
pub mod gnss;
pub mod imu;
pub mod initializer;
pub mod innovation;
pub mod live_core;
pub mod metric;
pub mod order;
pub mod payload;
pub mod predictor;
pub mod preintegration;
pub mod queue;
pub mod reanchor;
pub mod ring;
pub mod rts_window;
pub mod scheduler;
pub mod time;
