//! Core logic of the Limitless Exchange command-line client: order
//! construction and EIP-712 signing, request building, text formatting and
//! the decisions of the live orderbook feed, each with its contract.

pub mod auth;
pub mod chars;
pub mod commands;
pub mod config;
pub mod decimal;
pub mod description;
pub mod eip712;
pub mod events;
pub mod markets;
pub mod monitor;
pub mod numtext;
pub mod order;
pub mod orders;
pub mod portfolio;
pub mod profiles;
pub mod shell;
pub mod requests;
pub mod signing;
pub mod socketio;
pub mod text;
pub mod timefmt;
pub mod trading;
pub mod usdc;
pub mod wallet;
