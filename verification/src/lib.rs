//! A verified model of a small windowed application: a camera entity, a
//! single text label, and a per-frame rule that rewrites the label with the
//! latest window dimensions whenever a resize event arrives.

pub mod app_state;
pub mod laws;
pub mod text_format;

pub use app_state::App;
pub use app_state::AppView;
pub use app_state::ResizeEvent;
pub use app_state::create_app;
pub use text_format::format_dims;
pub use text_format::u32_to_decimal;
