//! Marshalling between the Robocraft factory client's results and flat,
//! null-terminated records that a C caller can own and release.

pub mod ctext;
pub mod geometry;
pub mod output;
pub mod query;
pub mod records;

pub use ctext::{allocate_cstring, decode_text, read_cstring, CText, TextError};
pub use geometry::{decode_geometry, place_cubes, CubeC, GeometryError};
pub use output::{fill_listing, robot_record, ListingOutput, INTERIOR_NUL_MESSAGE};
pub use query::{FactorySearchQuery, OrderType, SearchSettings, TextSearchType};
pub use records::{FactoryRobotGetInfoC, FactoryRobotListInfoC, RobotGetInfo, RobotListInfo};
