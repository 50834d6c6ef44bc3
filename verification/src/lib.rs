pub mod text;
pub mod round;
pub mod helpers;
pub mod commands;
pub mod markdown;
pub mod strmap;
pub mod prompt;
pub mod conversation;
pub mod tools;
pub mod ai_service;
pub mod link;
pub mod mdns;
pub mod tui;
pub mod enhanced;
pub mod factory;
pub mod json;
pub mod claude;
pub mod deepseek;
pub mod tester;
pub mod render;
pub mod watch;
pub mod tool_calls;
pub mod skill;
pub mod packages;
pub mod runtime;
pub mod cli;
pub mod blocks;
pub mod jsontext;
pub mod js_tools;
pub mod registry;
