//! Scan planning for a columnar cache in front of Parquet files.
//!
//! The library decides; the program around it reads files, runs streams and talks to the
//! host. Each function states in its contract what it returns, and the laws that relate
//! several functions are proof functions beside them. The contracts of the calls into other
//! crates, in `access_plan` and `parquet_index`, are trusted; all others are proved.

pub mod access_plan;
pub mod byte_ranges;
pub mod column_type;
pub mod engagement;
pub mod liquid_cache;
pub mod logger;
pub mod metadata_load;
pub mod page_map;
pub mod parquet_index;
pub mod text;
