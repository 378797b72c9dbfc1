pub mod terminal_condition;
