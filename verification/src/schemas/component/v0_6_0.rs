//! Component schemas (v0.6.0).
pub mod describe;

pub use crate::i18n_text::I18nText;
pub use describe::{ComponentDescribe, ComponentInfo, ComponentRunInput, ComponentRunOutput};
