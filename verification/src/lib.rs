//! Virtual trackball orbiting via the exponential map.
//!
//! Camera manipulation for 3D applications: screen-space gestures are turned into rigid
//! transforms of an observer frame, and boundary conditions restrict the result while
//! letting the motion glide along an exceeded boundary plane.
//!
//!   * [`orbit::Orbit`] carries displacements on straight radial lines through the screen's
//!     center to arcs of the same length on great circles of the trackball, using the
//!     exponential map and parallel transport.
//!   * [`frame::Frame`] is the observer with slide, orbit and scale operations in world and
//!     in camera space, and [`delta::Delta`] is a request for one of them.
//!   * [`clamp::Clamp`] validates a delta against boundary conditions repeatedly until no
//!     boundary plane is exceeded, and [`bound::Bound`] provides orthogonal ones.
//!   * [`touch::Touch`] recognizes slide, orbit, scale and tap gestures of up to ten fingers.
//!
//! All of it is generic over the scalar field, see [`field::Scalar`].
pub mod bound;
pub mod clamp;
pub mod delta;
pub mod field;
pub mod first;
pub mod fixed;
pub mod frame;
pub mod image;
pub mod op;
pub mod orbit;
pub mod plane;
pub mod scale;
pub mod scope;
pub mod slide;
pub mod touch;
