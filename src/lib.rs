//! Grab, drag and release of a physics bottle with a mouse or touches:
//! exact hit tests, the bottle's construction, and one ownership record
//! that decides which pointer holds the grab.
pub mod geometry;
pub mod scene;
pub mod grab;
