pub mod commit;
pub mod controller;
pub mod diff;
pub mod git;
pub mod history;
pub mod paths;
pub mod repository;
pub mod trace;
