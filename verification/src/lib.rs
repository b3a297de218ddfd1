//! Stereoscopic 4D polytope exploration: the discrete logic behind tap zones, camera
//! actions, polytope combinatorics and display modes.
pub mod camera;
pub mod gesture;
pub mod golden;
pub mod input;
pub mod tap;
pub mod polytopes;
pub mod render;
pub mod tetrahedron;
pub mod map;
pub mod rotation4d;
pub mod toy;
