//! Verified decision logic of the Xana agent application.

pub mod a2a;
pub mod agent;
pub mod autonomy;
pub mod capabilities;
pub mod chat;
pub mod config;
pub mod connect;
pub mod connection_commands;
pub mod connections;
pub mod desktop;
pub mod dialogue;
pub mod digest;
pub mod external_agents;
pub mod hosting;
pub mod images;
pub mod json;
pub mod mcp;
pub mod memory;
pub mod message;
pub mod models;
pub mod one_shot;
pub mod operations;
pub mod order;
pub mod outbound;
pub mod plugins;
pub mod progress;
pub mod surface;
pub mod text;
pub mod turn;
pub mod usage;
pub mod web;
