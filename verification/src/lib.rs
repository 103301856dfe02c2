pub mod model;
pub mod nodes;
pub mod shape;
