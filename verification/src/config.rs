//! What the operator configures once, at startup.

use vstd::prelude::*;
use vstd::string::StringExecFns;

verus! {

/// The settings of one run and the queue of command tokens to work through.
#[derive(Clone, Debug, PartialEq, Eq)]
pub struct Args {
    /// Path of the serial device that the microcontroller is on.
    pub device: String,
    /// Baud rate of the serial line.
    pub baud_rate: u32,
    /// Name of the display that is mounted on the rotating arm.
    pub side_monitor: String,
    /// Name of the display that stays put.
    pub main_monitor: String,
    /// Relative angle at which the side display switches orientation.
    pub threshold: u8,
    /// Milliseconds to wait after each command.
    pub delay: u64,
    /// The command tokens, in the order in which they are to be handled.
    pub commands: Vec<String>,
}

impl Default for Args {
    /// The settings that hold where the operator gives none, with an empty
    /// queue.
    fn default() -> (args: Args)
        ensures
            args.device@ == "/dev/ttyACM0"@,
            args.baud_rate == 9600,
            args.side_monitor@ == "HDMI-A-1"@,
            args.main_monitor@ == "DP-1"@,
            args.threshold == 65,
            args.delay == 50,
            args.commands@.len() == 0,
    {
        Args {
            device: String::from_str("/dev/ttyACM0"),
            baud_rate: 9600,
            side_monitor: String::from_str("HDMI-A-1"),
            main_monitor: String::from_str("DP-1"),
            threshold: 65,
            delay: 50,
            commands: Vec::new(),
        }
    }
}

} // verus!
