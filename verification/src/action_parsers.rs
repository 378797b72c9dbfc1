pub mod action_parser;
