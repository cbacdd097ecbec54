//! Verified decision logic of the FEM pre/post-processing user interface:
//! sidebar page masks, undo history, result playback, assembly clearance
//! review, entity naming, multi-point constraint pairs, assembly tool state,
//! measurement transactions, boundary-condition and load drafts, node
//! selection grouping, contact parameters, solver preferences stored in
//! TOML, the TOML material catalogue, the material library panel and the
//! material constant editor.

pub mod assembly;
pub mod boundary;
pub mod catalog;
pub mod clearance;
pub mod contact;
pub mod float_bits;
pub mod library;
pub mod material_editor;
pub mod measurement;
pub mod mpc;
pub mod names;
pub mod node_groups;
pub mod paths;
pub mod playback;
pub mod sections;
pub mod settings;
pub mod sidebar;
pub mod text;
pub mod toml;
pub mod undo;
