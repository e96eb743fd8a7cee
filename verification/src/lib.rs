//! A gnuplot controller: builds gnuplot scripts from plot descriptions.
pub mod axes2d;
pub mod axes3d;
pub mod axes_polar;
pub mod axes_common;
pub mod color;
pub mod coordinates;
pub mod element;
pub mod error_types;
pub mod figure;
pub mod first;
pub mod number;
pub mod options;
pub mod text;
pub mod version;
