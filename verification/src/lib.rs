pub mod analyze;
pub mod cmd;
pub mod graph;
pub mod opts;
pub mod pip_list;
pub mod scan;
pub mod scripted;
pub mod setuptools;
pub mod units;
