//! Task scheduling runtime of a small real-time renderer, with the asset path
//! and shader assembly rules it uses.
//!
//! Each part that waits, sleeps, spawns or sends is modelled here as a state
//! machine: a value of state, an event handed in, and the action to perform
//! handed back. The threads and channels that drive these machines live
//! outside the library.
pub mod burner;
pub mod files;
pub mod loop_group;
pub mod queue_render;
pub mod shaders;
pub mod task_loop;
pub mod task_master;
pub mod tasks;
