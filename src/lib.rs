//! Configuration logic for the CAM Target Layer daemon: the kernel's request
//! records, the LUN and port list protocols, and reconciliation of a desired
//! configuration against what the kernel reports.

pub mod text;
pub mod conf;
pub mod ctlreq;
pub mod options;
pub mod kernel;
pub mod listing;
pub mod kconf;
pub mod reconcile;
pub mod xml;
