//! Runtime core for interactive component previews: message history with
//! time travel, runtime-adjustable parameters, and latency statistics.
pub mod config_tab;
pub mod extract;
pub mod history;
pub mod metadata;
pub mod param;
pub mod performance;
pub mod registry;
pub mod style;
pub mod timeline;
pub mod value;

pub use config_tab::ConfigTab;
pub use extract::{ExtractParams, ParamSet};
pub use history::{Action, Control, History, Replay};
pub use metadata::Metadata;
pub use param::{boolean, number, select, text, BoolParam, DynamicParam, NumberParam, Param, SelectParam, TextParam};
pub use performance::{Indicator, Performance, Stats, SLOW_CALL_THRESHOLD};
pub use registry::Registry;
pub use style::ColorChannel;
pub use timeline::Timeline;
pub use value::Value;
