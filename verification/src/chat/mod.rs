//! Desktop chat: conversations, their threads, checkpoints and stored
//! history, the turn events shown to the front end with the plan snapshots
//! beside a turn, the requests a model step makes, tool authorization, and
//! the control actions.
pub mod authorizer;
pub mod events;
pub mod plan;
pub mod storage;
pub mod threads;
pub mod checkpoints;
pub mod compression;
pub mod error;
pub mod manager;
pub mod submission;
pub mod commands;
pub mod control;
pub mod hydrate;
pub mod mapper;
pub mod model;
pub mod observer;
pub mod session_events;
