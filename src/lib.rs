//! A chat bot that answers messages with practice questions rendered as
//! images: the catalog of questions and the random draw from it, the reading
//! of inbound texts as commands, the page a question is rendered from, the
//! delivery of one question to its recipients as a state machine, the checks
//! on the chat platform's answers and the decisions of the poll loop.

pub mod catalog;
pub mod selector;
pub mod text;
pub mod command;
pub mod html;
pub mod pipeline;
pub mod client;
pub mod endpoints;
pub mod poller;
pub mod handler;
pub mod hosting;
