pub mod controls;
pub mod interaction;
pub mod readouts;
