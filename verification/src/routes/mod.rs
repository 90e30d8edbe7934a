pub mod pages;
pub mod reply;
pub mod tables;
pub mod well_known;
