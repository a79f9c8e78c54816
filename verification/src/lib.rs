//! Core of a retained-mode GUI toolkit: a typed application state, a tree of
//! widgets that renders it, and a projection mechanism (lenses and prisms)
//! that narrows the state for a subtree while keeping change detection exact.

pub mod constraints;
pub mod ctx;
pub mod data;
pub mod env;
pub mod event;
pub mod geom;
pub mod lens;
pub mod numfmt;
pub mod temperature;
pub mod paint;
pub mod pod;
pub mod root;
pub mod text;
pub mod widget;
pub mod widgets;

pub use constraints::BoxConstraints;
pub use ctx::{BaseState, EventCtx, LifeCycleCtx, UpdateCtx};
pub use data::Data;
pub use env::Env;
pub use event::{Action, Event, LifeCycle, TimerToken};
pub use geom::{Point, Size, Vec2};
pub use lens::Lens;
pub use paint::{Color, PaintCtx};
pub use pod::WidgetPod;
pub use widget::{Controller, ControllerHost, Widget};
