//! RenderBaby core library: the verified logic of a progressive GPU ray tracer.
//!
//! The library holds the undo/redo command stack, the render-configuration change
//! tracking and its validation, the decisions of the frame buffer worker loop, the
//! progressive pass bookkeeping, texture flattening, BVH layout, the main window's
//! per-frame decisions, the file dialog guard and the small value types that travel
//! between the user interface and the render engines.
//! GPU, window and file work stays with the embedding application.

pub mod command_stack;
pub mod texture;
pub mod render_config;
pub mod gpu_plan;
pub mod progressive;
pub mod frame;
pub mod frame_buffer;
pub mod deferred;
pub mod bvh;
pub mod message;
pub mod log_buffer;
pub mod engine_types;
pub mod control;
pub mod action_stack;
pub mod file_picker;
