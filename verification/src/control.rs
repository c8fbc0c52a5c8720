//! The model-view-controller skeleton of the user interface.
pub mod egui_view;
pub mod general_model;
pub mod mvc;
pub mod view;
