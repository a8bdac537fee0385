//! Geometry core of a compass-and-straightedge construction tool.
//!
//! Points and shapes are stored as symbolic definitions that refer to each
//! other by id. Resolving an id walks the definition graph and yields a fully
//! expanded construction whose leaves are given positions; evaluating that
//! construction numerically is left to the caller.
mod coord;
mod geometry;
mod gwrapper;
mod ids;
mod image;
mod intersection;
mod resolve;
mod tool;

pub use coord::{number_eq, Coord};
pub use geometry::{Geometry, GeometryView, Point, Shape};
pub use gwrapper::{GWrapper, GWrapperView, Group, Thing, ThingID, Visibility};
pub use ids::{PointID, ShapeID};
pub use image::{CircleImage, PngImage};
pub use intersection::{IntersectionResult, Pick};
pub use resolve::{crossing, Crossing, Located, Outline};
pub use tool::{
    show_primary, CircleTool, LineTool, MoverTool, PointTool, SelectedStatus, Selector, Tool,
    ToolKind,
};
