//! Decisions and data of a live shader preview: the session state machine that
//! couples a file watcher to a render loop, the fullscreen quad, the texture
//! pixels handed to the GPU, and the failures that end the process.

pub mod failure;
pub mod laws;
pub mod pixels;
pub mod quad;
pub mod resources;
pub mod session;
pub mod watch;

pub use failure::{ErrorKind, Failure, EXIT_FAILURE, EXIT_SUCCESS};
pub use laws::{
    lemma_build_all_or_nothing, lemma_change_reloads_once, lemma_close_wins,
    lemma_failure_stops, lemma_message_keeps_detail, lemma_rebuild_deterministic,
};
pub use pixels::{texture_from_decoded, TexturePixels};
pub use quad::{fullscreen, QuadVertex};
pub use resources::{PartialResources, ResourceSet, TEXTURE_UNIFORM, VERTEX_SHADER};
pub use session::{Action, Controller, Event, Phase, Plan, Stage};
pub use watch::{any_modified, frame_event, mask_is_modify, MODIFY_MASK};
