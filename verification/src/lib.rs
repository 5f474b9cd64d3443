//! Bulk renaming of the folders of one directory through a CSV file.
//!
//! `export` lists the folders of a directory as a CSV table; a person fills in
//! a second column with new names; `import` reads the table back and renames
//! the folders row by row.
//!
//! The library itself touches no file and asks the system for nothing. A
//! [`session::Session`] says what it needs next as a [`host::Request`], the
//! program around it carries that out and hands back a [`host::Reply`].

pub mod text;
pub mod paths;
pub mod table;
pub mod host;
pub mod export;
pub mod import;
pub mod session;
pub mod runs;
