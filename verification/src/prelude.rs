//! Single-import convenience for the extension traits.

pub use crate::exti::ExtiExt;
pub use crate::lpusart::LpUsartExt;
pub use crate::rcc::RccExt;
