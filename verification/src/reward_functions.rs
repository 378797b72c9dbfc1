pub mod reward_fn;
