//! Decision logic of the Sentinel Mini security gadget: the screen state machine,
//! touch classification, battery scaling and the persistent event log.
pub mod app;
pub mod drivers;
pub mod storage;
pub mod ui;
