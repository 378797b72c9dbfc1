pub mod state_setter;
pub mod state_wrapper;
