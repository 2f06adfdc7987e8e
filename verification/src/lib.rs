//! Render planning for a beat-synchronised, multi-pass audiovisual composition.
//!
//! The crate decides *what* is drawn each frame: which overlays the timeline
//! selects, which mesh frame is current, in which order the passes are
//! recorded and how each one treats its target. Driving a window, a sound
//! device and a graphics device with those decisions is left to the
//! embedding program: the crate hands it descriptions and commands as plain
//! data, and takes events back.
//!
//! * [`timeline`] and [`score`]: the beat clock, the rule table, and the
//!   table the composition ships with.
//! * [`uniforms`]: the uniform block shared by all passes.
//! * [`texture`], [`bindgrouperoo`], [`vertex_layout`], [`pipeline`]:
//!   descriptions of textures, binding sets, vertex layouts and pipelines.
//! * [`shadertoy_buffer`] and [`obj_mesh_test`]: full-screen passes with
//!   feedback targets, and mesh passes.
//! * [`commands`] and [`feedback`]: what a frame asks of the backend, and
//!   what that does to the feedback targets.
//! * [`driver`]: the composition as a whole and its reaction to events.
//! * [`obj_text`], [`obj_file`], [`obj_parser`]: mesh files, from bytes to
//!   indexed triangles.
//! * [`assets`], [`midi`], [`spline_curves`]: the animation's files, the
//!   header of a MIDI file, and exact bases of cubic curves.

pub mod assets;
pub mod bindgrouperoo;
pub mod commands;
pub mod driver;
pub mod feedback;
pub mod midi;
pub mod obj_file;
pub mod obj_mesh_test;
pub mod obj_parser;
pub mod obj_text;
pub mod pipeline;
pub mod score;
pub mod shadertoy_buffer;
pub mod spline_curves;
pub mod texture;
pub mod timeline;
pub mod uniforms;
pub mod vertex_layout;
