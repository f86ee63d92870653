//! Small, self-contained exercises on the basics of the language: matching on
//! enums, ownership and borrowing of strings, string slices, numeric
//! sequences, struct methods, module privacy and a word count over a text.
//! Each operation carries a contract that states exactly what it returns.

pub mod back_of_house;
pub mod fibonacci;
pub mod hash_map;
pub mod match_control_flow;
pub mod ownership;
pub mod rectangles;
pub mod references_and_borrowing;
pub mod slices;
pub mod strings;
pub mod structs;
pub mod vectors;
