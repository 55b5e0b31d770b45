//! The computing side of a small OpenGL example suite: how compile and link
//! results of a shader program are judged and reported, how window events turn
//! into the program's responses, and how a vertex layout translates into the
//! byte strides, offsets and counts that the driver is handed.

pub mod events;
pub mod layout;
pub mod shader;
