//! The error of the device layer.

use vstd::prelude::*;

verus! {

/// A failure while looking at devices or mounts, with its message.
#[derive(Clone, Debug)]
pub struct DeviceError {
    pub message: String,
}

impl View for DeviceError {
    type V = Seq<char>;

    open spec fn view(&self) -> Seq<char> {
        self.message@
    }
}

impl DeviceError {
    /// An error with the given message.
    pub fn new(message: &str) -> (e: DeviceError)
        ensures
            e@ == message@,
    {
        DeviceError { message: String::from_str(message) }
    }

    /// The message of this error.
    pub fn to_string(&self) -> (s: String)
        ensures
            s@ == self@,
    {
        self.message.clone()
    }
}

} // verus!
