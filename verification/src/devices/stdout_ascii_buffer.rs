//! A character buffer device: 50 writable byte cells that a driver can render
//! as an ASCII line.

use vstd::prelude::*;
use vstd::string::*;
use crate::devices::device::Device;

verus! {

/// Number of byte cells the buffer exposes on the bus.
pub const BUFFER_SIZE: usize = 50;

/// A device holding a line of bytes; the engine fills it through bus writes
/// and a driver renders it as ASCII text.
pub struct CharIOBuffer {
    pub buffer: Vec<u8>,
}

impl View for CharIOBuffer {
    type V = Seq<u8>;

    open spec fn view(&self) -> Seq<u8> {
        self.buffer@
    }
}

/// True when every byte of `s` is an ASCII code point.
pub open spec fn all_ascii(s: Seq<u8>) -> bool {
    forall|i: int| 0 <= i < s.len() ==> s[i] < 128
}

/// The characters spelled by the bytes of `s`, one per byte.
pub open spec fn ascii_view(s: Seq<u8>) -> Seq<char> {
    Seq::new(s.len(), |i: int| s[i] as char)
}

/// Relies on String::from_utf8: bytes below 128 are valid UTF-8 and decode to
/// the characters with the same code points, one character per byte.
#[verifier::external_body]
fn ascii_string_of(bytes: &Vec<u8>) -> (r: String)
    requires
        all_ascii(bytes@),
    ensures
        r@ == ascii_view(bytes@),
{
    String::from_utf8(bytes.clone()).expect("ASCII bytes are valid UTF-8")
}

impl CharIOBuffer {
    /// A fresh buffer of zeroed cells.
    pub fn new() -> (r: Self)
        ensures
            r@ == Seq::new(BUFFER_SIZE as nat, |i: int| 0u8),
    {
        Self { buffer: vec![0u8; BUFFER_SIZE] }
    }

    /// The buffer's contents as text: the bytes read as ASCII characters if
    /// they all are ASCII, a fixed error marker otherwise.
    pub fn as_ascii_str(&self) -> (r: String)
        ensures
            all_ascii(self@) ==> r@ == ascii_view(self@),
            !all_ascii(self@) ==> r@ == "ERROR STR"@,
    {
        let mut i: usize = 0;
        while i < self.buffer.len()
            invariant
                i <= self.buffer@.len(),
                forall|j: int| 0 <= j < i ==> self.buffer@[j] < 128,
            decreases self.buffer@.len() - i,
        {
            if self.buffer[i] >= 128 {
                return String::from_str("ERROR STR");
            }
            i += 1;
        }
        ascii_string_of(&self.buffer)
    }
}

impl Device for CharIOBuffer {
    /// A read inside the buffer returns the cell; outside, 0.
    open spec fn read_model(s: Seq<u8>, address: u8) -> u8 {
        if (address as int) < s.len() {
            s[address as int]
        } else {
            0
        }
    }

    /// A write inside the buffer updates the cell; outside, it is dropped.
    open spec fn write_model(s: Seq<u8>, address: u8, value: u8) -> Seq<u8> {
        if (address as int) < s.len() {
            s.update(address as int, value)
        } else {
            s
        }
    }

    open spec fn update_model(s: Seq<u8>) -> Seq<u8> {
        s
    }

    /// The buffer never raises an interrupt.
    open spec fn int_request_model(s: Seq<u8>) -> Option<u8> {
        Option::None
    }

    open spec fn int_message_model(s: Seq<u8>) -> Seq<char> {
        Seq::empty()
    }

    open spec fn after_poll_model(s: Seq<u8>) -> Seq<u8> {
        s
    }

    open spec fn init_model(s: Seq<u8>) -> Seq<u8> {
        s
    }

    open spec fn startup_model(s: Seq<u8>) -> Seq<u8> {
        s
    }

    /// A reset re-zeroes every cell.
    open spec fn reset_model(s: Seq<u8>) -> Seq<u8> {
        Seq::new(BUFFER_SIZE as nat, |i: int| 0u8)
    }

    open spec fn address_space_model(s: Seq<u8>) -> Option<u8> {
        Option::Some(50u8)
    }

    fn init_device(&mut self) {
    }

    fn startup(&mut self) {
    }

    fn update_device(&mut self) {
    }

    fn has_interrupt_request(&mut self) -> (r: Option<(u8, String)>) {
        Option::None
    }

    fn reset_device(&mut self) {
        self.buffer = vec![0u8; BUFFER_SIZE];
        assert(self.buffer@ =~= Seq::new(BUFFER_SIZE as nat, |i: int| 0u8));
    }

    fn read(&self, address: u8) -> (r: u8) {
        if (address as usize) < self.buffer.len() {
            self.buffer[address as usize]
        } else {
            0
        }
    }

    fn write(&mut self, address: u8, value: u8) {
        if (address as usize) < self.buffer.len() {
            self.buffer[address as usize] = value;
        }
    }

    fn get_address_space(&self) -> (r: Option<u8>) {
        Option::Some(50)
    }
}

} // verus!
