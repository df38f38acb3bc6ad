pub mod utils;
pub mod pratt;
pub mod expr;
pub mod alias;
pub mod limit;
pub mod group;
pub mod from;
