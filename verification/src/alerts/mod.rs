pub mod alert;
pub mod alert_manager;
pub mod watchdog;
pub mod watchdogs;
