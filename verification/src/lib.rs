pub mod bookstore_cases;
pub mod dbtools;
pub mod harness;
pub mod outcome;
pub mod reporting;
pub mod testselector;
