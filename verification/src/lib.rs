//! The core of a local file-sharing service: resumable, integrity-checked
//! uploads in chunks, and what goes with serving the shared files.
//!
//! The library decides; it does not touch the disk, the database or the
//! network. Each of the three operations of the upload protocol (`init`,
//! `chunk_upload`, `complete`) is a function from the stage a request has
//! reached and the report of its host to the next stage and the operation
//! the host is to do next (`host`). What these functions do is laid down by
//! spec functions, and what a request comes to when a host serves it
//! faithfully (`world`) is proved in `init_laws`, `chunk_upload_laws` and
//! `complete_laws`.
//!
//! Digests are SHA-256 (`digest`); chunk files are named by `paths`; lists
//! of chunk records are sorted and summed by `chunk_list`. `records` and
//! `protocol` hold the stored and the transmitted data. `download`,
//! `assets`, `server`, `setting`, `single_instance`, `file_manager` and
//! `window_controls` hold the decisions of the rest of the service.

pub mod assets;
pub mod chunk_list;
pub mod chunk_upload;
pub mod chunk_upload_laws;
pub mod complete;
pub mod complete_laws;
pub mod decimal;
pub mod digest;
pub mod download;
pub mod file_manager;
pub mod host;
pub mod init;
pub mod init_laws;
pub mod paths;
pub mod protocol;
pub mod records;
pub mod server;
pub mod setting;
pub mod single_instance;
pub mod window_controls;
pub mod world;
