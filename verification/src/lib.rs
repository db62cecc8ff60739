//! Verified adapter logic for the Open GPUI node-graph host: control mapping,
//! measurement coverage, renderer resolution, element ids and the host
//! regression reports that gate the product gallery.

pub mod actions;
pub mod adapter;
pub mod authoring;
pub mod controls;
pub mod element_ids;
pub mod inspector;
pub mod json_binding;
pub mod json_compare;
pub mod measurement;
pub mod node_id;
pub mod ordering;
pub mod presets;
pub mod preview;
pub mod projection;
pub mod renderer;
pub mod repeatable;
pub mod repeatable_edit;
pub mod sets;
pub mod testing;
pub mod text;
