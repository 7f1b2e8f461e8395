//! Assembles a CycloneDX bill of materials from the package records of a
//! Gentoo Portage inventory.
//!
//! An inventory reader hands over [`record::PackageRecord`]s. The functions
//! of [`assembly`] turn them into the components of a [`cyclonedx::Bom`],
//! with package URLs from [`purl`] and license and homepage fields split by
//! [`text`]. [`stamp`] gives a new document its identity and creation time,
//! and [`emit`] writes the finished document as JSON.
//!
//! Every type has a model, reached by `@`, and every function states over
//! these models what it returns.

pub mod assembly;
pub mod cyclonedx;
pub mod emit;
pub mod purl;
pub mod record;
pub mod stamp;
pub mod text;
