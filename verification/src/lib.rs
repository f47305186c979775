//! Reactive chart page core: a small state store holding seven weekday
//! values and a chart-kind selector, a pure chart-spec builder, and a
//! model of the render target that the external charting service draws
//! into.
//!
//! The rendering service itself is an external collaborator: it receives
//! a [`chart::ChartSpec`] and either succeeds or fails. Everything that
//! decides *what* is drawn — which values, in which order, with which
//! styling flags — lives here and is verified.

pub mod builder;
pub mod chart;
pub mod day;
pub mod page;
pub mod parse;
pub mod sort;
pub mod target;
pub mod values;

pub use builder::build;
pub use chart::{ChartKind, ChartSpec};
pub use day::Weekday;
pub use page::ChartPage;
pub use target::RenderTarget;
pub use values::WeekdayValues;
