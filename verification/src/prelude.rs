pub use crate::assets::{AssetTable, add_texture2d, contains_text, texture_key};
pub use crate::attributes::Material;
pub use crate::commands::{Commands, Engine, index_of_entry, index_of_name};
pub use crate::components::Label;
pub use crate::events::{EventLoop, Hook, RegisteredHooks, WindowEvent};
pub use crate::math::Point;
pub use crate::physics::Layer;
pub use crate::util::{Color, IntoResult, KeyCode, RuntimeException, ToPoint};
pub use crate::video::{MediaFile, PlaybackStep, VideoSettings, pack_rgba_rows, playback_step};
