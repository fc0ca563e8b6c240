//! Terminal workspace chrome for the HCLI front end: generation-speed
//! metering, width-bounded text, footer metrics, menu layout and the
//! startup decisions, each stated and proved with Verus.

pub mod speed;
pub(crate) mod text;
pub mod width;
pub mod footer;
pub mod number;
pub mod paint;
pub mod geometry;
pub mod header;
pub mod menu;
pub mod catalog;
pub mod startup;
