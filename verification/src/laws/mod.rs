//! What holds of the driver's handles as a whole: properties that relate
//! several operations, proved of the models that their contracts speak of.

pub mod attributes;
pub mod connections;
pub mod descriptors;
pub mod handles;
pub mod statements;
