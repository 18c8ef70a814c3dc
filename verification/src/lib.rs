//! Verified core of the Aracari particle editor.

pub mod text;
pub mod labels;
pub mod color;
pub mod fields;
pub mod asset;
pub mod gpu;
pub mod collider;
pub mod texture_cache;
pub mod seed;
pub mod hierarchy;
pub mod button;
pub mod popover;
pub mod combobox;
pub mod widgets;
pub mod dialog;
pub mod text_edit;
pub mod variant_edit;
pub mod curve_edit;
pub mod inspect;
pub mod inspector_state;
pub mod binding;
pub mod editor_state;
pub mod emitters;
pub mod data_panel;
pub mod project_selector;
pub mod new_project;
pub mod project;
