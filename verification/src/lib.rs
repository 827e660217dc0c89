//! Control of one PWM channel of the Linux sysfs PWM interface, without the I/O:
//! the library works out which control file to write and what to write into it,
//! and keeps a record of what the channel was last set to. The caller performs
//! the writes and reports how each one went.

pub mod decimal;
pub mod errors;
pub mod pwm;
pub mod sysfs;
