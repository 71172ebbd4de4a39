//! The input/output layer of a columnar data-frame engine: schema
//! resolution, numeric normalization after loads, compression and option
//! validation for five encodings, and the decisions of a multipart upload
//! to an S3-compatible object store.

pub mod capability;
pub mod cloud;
pub mod cloud_writer;
pub mod compression;
pub mod dtype;
pub mod dump;
pub mod error;
pub mod frame;
pub mod load;
pub mod normalize;
pub mod options;
pub mod schema;
pub mod text;
