//! Layouts of procedurally generated meshes, and the few rules in whole
//! numbers of the scene around them.
//!
//! The meshes are a cube, a cone and the capped solids of revolution: a
//! cylinder, a crystal and a staff. For each, the library decides which
//! vertices there are, in which order, and which three of them make each
//! triangle, and it proves that every triangle names three different vertices
//! of the mesh and faces away from it: of the cube as it stands, and of a
//! solid of revolution wherever its rings rise and its angle steps turn.
//! Coordinates of the solids of revolution need sines and cosines and are left
//! to the caller; those of the cube are whole numbers of half units and are
//! given here.
//!
//! - [`layout`]: vertex slots, index buffers and what is well-formed of them
//! - [`revolved`]: the capped solid that cylinder, crystal and staff share
//! - [`cylinder`], [`crystal`], [`staff`], [`cone`], [`cube`]: the meshes
//! - [`geometry`], [`placement`]: exact vectors, and which way triangles face
//! - [`environment`]: the bytes of the striped texture
//! - [`camera`]: when the orbit camera follows the pointer

pub mod camera;
pub mod cone;
pub mod crystal;
pub mod cube;
pub mod cylinder;
pub mod environment;
pub mod geometry;
pub mod layout;
pub mod placement;
pub mod revolved;
pub mod staff;
