//! A software-composited presentation layer for pixel-buffer-driven
//! applications: an RGBA pixel canvas with compositing, scaling and
//! sub-region views; normalization of raw platform input into a stable
//! event vocabulary; letterbox geometry for aspect-ratio-preserving
//! display; and the state machine of the cooperative frame-scheduling
//! loop. A thin unverified shell owns the window and the GPU and drives
//! these pieces.

pub mod arith;
pub mod blueprint;
pub mod canvas;
pub mod controller;
pub mod events;
pub mod normalizer;
pub mod projector;
pub mod scheduler;

pub use blueprint::UIBlueprint;
pub use canvas::RgbaImage;
pub use canvas::RgbaImageRegion;
pub use canvas::RgbaPixel;
pub use canvas::de_alpha;
pub use controller::UI;
pub use controller::UIController;
pub use events::CursorMovementEvent;
pub use events::KeyboardAction;
pub use events::KeyboardEvent;
pub use events::KeyboardKey;
pub use events::MouseButton;
pub use events::MouseButtonAction;
pub use events::MouseButtonEvent;
pub use events::ResizeEvent;
pub use events::UIEvent;
