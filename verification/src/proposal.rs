pub mod apply;
pub mod apply_errors;
pub mod envelope;
pub mod fragment;
pub mod materialize;
pub mod materializing;
