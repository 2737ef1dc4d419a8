//! Declarative render graph for a Vulkan renderer.
//!
//! A graph is declared as passes, transient colour targets, descriptor sets
//! and the edges that bind a transient into a set. Compiling validates the
//! declaration and joins it with the device objects allocated for it;
//! executing takes a frame through the swapchain protocol one step at a time
//! and records the passes into command lists. The library decides and
//! records; the caller carries out on the device what it is asked for.
//!
//! Every function has a machine-checked contract, and the properties that
//! hold across functions are stated as proofs next to them: frames are paced
//! by the fences of their slots, command buffers are reused, every edge has
//! its descriptor update, a transient is rendered before it is sampled, and
//! resizing away and back changes nothing.

pub mod command;
pub mod compiled;
pub mod descriptor_manager;
pub mod executor;
pub mod game_object;
pub mod handles;
pub mod name_table;
pub mod queue_pool;
pub mod render_context;
pub mod render_graph;
pub mod render_pass;
pub mod renderer;
pub mod resources;
pub mod scene;
pub mod shader;
pub mod types;
