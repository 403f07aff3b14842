pub mod components;
pub mod constants;
pub mod input_picker_state;
pub mod model;
pub mod paths;
pub mod platform_file_dialog;
pub mod playback;
pub mod studio;
pub mod text;
pub mod video;
pub mod windows;
