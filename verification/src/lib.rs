//! Linear-algebra primitives for graphics and geometry: vectors, points,
//! angles, quaternions, matrices and affine transforms over an abstract
//! scalar type.
//!
//! Every operation is a pure function of its arguments. The scalar algebra
//! is supplied by the traits [`num::BaseNum`] and [`num::BaseFloat`]; the
//! contract of each function states its result over the specification
//! functions of those traits, down to the order of the scalar operations.
//!
//! - [`num`]: the scalar traits, and the integers as scalars.
//! - [`approx`]: equality within a tolerance.
//! - [`angle`]: radians and degrees.
//! - [`array`]: access to the elements of the fixed-length types.
//! - [`vector`], [`point`]: directions and positions in two to four dimensions.
//! - [`matrix`]: square matrices, as far as rotations and transforms need them.
//! - [`quaternion`], [`rotation`]: rotations of the plane and of space.
//! - [`transform`]: affine transforms.
pub mod angle;
pub mod approx;
pub mod array;
pub mod matrix;
pub mod num;
pub mod point;
pub mod quaternion;
pub mod rotation;
pub mod transform;
pub mod vector;
