pub mod state_modifier;
