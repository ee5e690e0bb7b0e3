//! Task bookkeeping for an Eisenhower-quadrant task manager.
//!
//! The library holds the task and its lifecycle, the row that stands for a
//! task in the `tasks` table with the statements that write and read it, the
//! decisions of the commands on stored tasks, and what is asked of the two
//! remote services and made of their answers. It opens no file and sends no
//! request: a caller runs the statements and the requests it is handed.
//! Every function is verified against its contract.

pub mod clock;
pub mod codec;
pub mod gitlab;
pub mod http;
pub mod ids;
pub mod models;
pub mod report;
pub mod service;
pub mod storage;
pub mod text;
