//! The widget library: concrete consumers of the widget contract.

pub mod adapt;
pub mod align;
pub mod button;
pub mod checkbox;
pub mod draw;
pub mod flex;
pub mod list;
pub mod numeric_textbox;
pub mod padding;
pub mod progress_bar;
pub mod scroll_column;
pub mod sizedbox;
pub mod slider;
pub mod spinner;
pub mod textbox;
pub mod tooltip;

pub use adapt::{Adapt, Prism};
pub use align::Align;
pub use button::{Button, DynLabel, Label};
pub use checkbox::{CheckBox, CheckBoxRaw};
pub use draw::{Draw, DrawWithChild};
pub use flex::Flex;
pub use list::List;
pub use numeric_textbox::NumericTextBox;
pub use padding::Padding;
pub use progress_bar::ProgressBar;
pub use scroll_column::ScrollColumn;
pub use sizedbox::SizedBox;
pub use slider::Slider;
pub use spinner::Spinner;
pub use textbox::{Selection, TextBox};
pub use tooltip::{ModalDesc, TooltipOverlay, TooltipWrap};
