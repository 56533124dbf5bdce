//! Rules for what the operating system is asked to do.

pub mod unmount;
