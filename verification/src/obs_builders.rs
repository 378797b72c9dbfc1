pub mod obs_builder;
