//! Scene assembly for a display-list renderer: identifiers, display lists,
//! auxiliary side tables, the frame builder that bundles them into an
//! epoch-tagged scene, the backend's scene slot, and the decisions of the
//! render loop.
pub mod aux_lists;
pub mod backend;
pub mod display_list;
pub mod geometry;
pub mod ids;
pub mod render_loop;
pub mod scene;
pub mod session;
