//! Turns a weather report into an ordered list of drawing directives, and
//! decides how a render loop and a console listener take turns at the console.

pub mod city;
pub mod color;
pub mod control;
pub mod draw;
pub mod effect;
pub mod laws;
pub mod layout;
pub mod random;
pub mod sample;
pub mod scene;
pub mod text;
