//! Parsing rules of the SynthBank ATM log loader: which rows each source file
//! yields for the database, how anomalies are classified and described, and
//! when a watched file is to be loaded again.

pub mod db;
pub mod models;
pub mod parsers;
pub mod text;
pub mod watcher;
