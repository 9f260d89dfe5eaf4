pub mod bridge;
pub mod component;
pub mod detail;
pub mod props;
pub mod validity;

pub use component::{MatSelect, WeakComponentLink};
pub use props::Props;
