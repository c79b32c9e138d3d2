//! The engine of a terminal dashboard for the pods of a cluster namespace:
//! it reads the pod table, follows the operator's keys through the listing,
//! and pages through the logs of the selected pod. The terminal itself, and
//! the cluster's command line tool, are the caller's to drive.

pub mod app;
pub mod errors;
pub mod input;
pub mod menu;
pub mod pod;
pub mod text;
pub mod ui;
