//! The options a client of the modem is started with.
use vstd::prelude::*;

verus! {

pub struct Arguments {
    serial_port: String,
    baud_rate: u32,
    timeout: u64,
    list_messages: bool,
    delete_messages: bool,
}

impl Arguments {
    pub closed spec fn spec_serial_port(&self) -> Seq<char> {
        self.serial_port@
    }

    pub closed spec fn spec_baud_rate(&self) -> u32 {
        self.baud_rate
    }

    pub closed spec fn spec_timeout(&self) -> u64 {
        self.timeout
    }

    pub closed spec fn spec_list_messages(&self) -> bool {
        self.list_messages
    }

    pub closed spec fn spec_delete_messages(&self) -> bool {
        self.delete_messages
    }

    pub fn new(serial_port: String, baud_rate: u32, timeout: u64, list_messages: bool, delete_messages: bool) -> (r: Self)
        ensures
            r.spec_serial_port() == serial_port@,
            r.spec_baud_rate() == baud_rate,
            r.spec_timeout() == timeout,
            r.spec_list_messages() == list_messages,
            r.spec_delete_messages() == delete_messages,
    {
        Arguments { serial_port, baud_rate, timeout, list_messages, delete_messages }
    }

    /// Port name or path.
    pub fn serial_port(&self) -> (r: &str)
        ensures
            r@ == self.spec_serial_port(),
    {
        self.serial_port.as_str()
    }

    /// Port baud rate.
    pub fn baud_rate(&self) -> (r: u32)
        ensures
            r == self.spec_baud_rate(),
    {
        self.baud_rate
    }

    /// Port read timeout, in seconds.
    pub fn timeout(&self) -> (r: u64)
        ensures
            r == self.spec_timeout(),
    {
        self.timeout
    }

    /// Whether to list all stored messages.
    pub fn list_messages(&self) -> (r: bool)
        ensures
            r == self.spec_list_messages(),
    {
        self.list_messages
    }

    /// Whether to remove all stored messages.
    pub fn delete_messages(&self) -> (r: bool)
        ensures
            r == self.spec_delete_messages(),
    {
        self.delete_messages
    }
}

} // verus!
