//! Backend-independent pieces of a real-time rendering layer: the input
//! capability with its frame-edge tracker, and the plain data that texture
//! resources are described with.

pub mod input;
pub mod texture;

pub use input::model::InputModel;
pub use input::state_tracking::StateTrackingInput;
pub use input::state_tracking::NUM_BUTTONS;
pub use input::state_tracking::NUM_KEYS;
pub use input::Input;
pub use texture::RegionView;
pub use texture::SampleType;
pub use texture::TextureFormat;
pub use texture::TextureFormatClass;
pub use texture::UpdateRegion;
