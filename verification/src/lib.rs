//! Circuit blueprints for raster images, animations and lamp grids, together
//! with the codec of their exchange string.
pub mod consts;
pub mod records;
pub mod entity;
pub mod error;
pub mod catalog;
pub mod icon;
pub mod blueprint;
pub mod constant;
pub mod decider;
pub mod arithmetic;
pub mod codec;
pub mod screen;
pub mod image;
pub mod animation;
pub mod samples;
