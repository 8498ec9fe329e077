//! A clip engine core: quantized recording of audio and MIDI clips, and the bookkeeping of the
//! columns of slots that hold them.
pub mod timeline;
pub mod material;
pub mod recorder;
pub mod column;
pub mod ui;
pub mod route;
