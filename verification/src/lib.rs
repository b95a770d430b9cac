//! Face alignment for an on-device face recognition pipeline: the part of it
//! that is exact.
//!
//! A detected face comes as five landmarks in a photograph. The face is
//! fitted to a canonical template by a similarity transform, resampled
//! through that transform into a square of fixed size, handed to the
//! embedding network as numbers between -1 and 1, and scored for sharpness.
//!
//! Everything here works on integers. Landmarks are fixed-point
//! ([`pose`]), the sums that the fit starts from are exact ([`fit`]), as is
//! the choice of signs after the decomposition ([`transform`]). The
//! photograph and the face are rasters of 8-bit samples ([`raster`]). The
//! network's input is counted in steps of `1 / 255` ([`tensor`]), and the
//! sharpness score is a fraction ([`blur`], from [`gray`], [`crop`],
//! [`laplacian`] and [`variance`]). The singular value decomposition and the
//! resampling, which work in floating point, are left to the caller.

pub mod blur;
pub mod crop;
pub mod error;
pub mod fit;
pub mod gray;
pub mod grid;
pub mod laplacian;
pub mod pose;
pub mod raster;
pub mod tensor;
pub mod transform;
pub mod variance;
