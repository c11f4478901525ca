//! Frame scheduling, presentation and device negotiation logic of a compute-shader
//! ray tracer, kept apart from the graphics API calls that carry it out.

pub mod assets;
pub mod back;
pub mod capabilities;
pub mod device;
pub mod fps;
pub mod front;
pub mod headless;
pub mod pipeline;
pub mod presentation;
pub mod push_constants;
pub mod queue;
pub mod resource;
