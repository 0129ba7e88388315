/// Checks on the Rust toolchain used for iOS builds.
pub mod apple;
/// Locating an Android NDK, reading its version and finding its tools.
pub mod ndk;
/// Reading Java properties files.
pub mod properties;
/// The Android targets, the cargo runs that build them, and placing their libraries.
pub mod target;
/// Decimal numbers, string comparison and path joining.
pub mod text;
