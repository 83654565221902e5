//! The terminal-link device: a three-register port through which the machine
//! talks to one remote terminal connection.
//!
//! The device exposes the connection state, the last received character and a
//! character slot to send. Only that register file lives here; the transport
//! that feeds it (accepting a connection, moving bytes) is a driver concern
//! and reports in through the event methods below, because device hooks must
//! not block. Every state change raises an interrupt with the configured code.
//!
//! Bus-relative address space:
//! - 0: connection state (1 while a client is connected)
//! - 1: last character received
//! - 2: write slot (a byte written here is sent to the client)

use vstd::prelude::*;
use vstd::string::*;
use crate::devices::device::Device;

verus! {

/// Abstract state of the terminal-link port.
#[verifier::ext_equal]
pub ghost struct TermLinkView {
    pub interrupt_code: u8,
    pub interrupt_queued: bool,
    pub log: Seq<char>,
    pub connection_state: u8,
    pub last_char: u8,
    pub char_to_write: Option<u8>,
}

/// The register file of the terminal link.
pub struct TermLinkPort {
    pub interrupt_code: u8,
    pub interrupt_queued: bool,
    pub log: String,
    pub connection_state: u8,
    pub last_char: u8,
    pub char_to_write: Option<u8>,
}

impl View for TermLinkPort {
    type V = TermLinkView;

    open spec fn view(&self) -> TermLinkView {
        TermLinkView {
            interrupt_code: self.interrupt_code,
            interrupt_queued: self.interrupt_queued,
            log: self.log@,
            connection_state: self.connection_state,
            last_char: self.last_char,
            char_to_write: self.char_to_write,
        }
    }
}

impl TermLinkPort {
    /// A fresh port that will interrupt with `code`, not yet connected.
    pub fn new(code: u8) -> (r: Self)
        ensures
            r@ == (TermLinkView {
                interrupt_code: code,
                interrupt_queued: false,
                log: Seq::<char>::empty(),
                connection_state: 0,
                last_char: 0,
                char_to_write: Option::None,
            }),
    {
        let r = Self {
            interrupt_code: code,
            interrupt_queued: false,
            log: String::new(),
            connection_state: 0,
            last_char: 0,
            char_to_write: Option::None,
        };
        proof {
            assert(r@ =~= TermLinkView {
                interrupt_code: code,
                interrupt_queued: false,
                log: Seq::<char>::empty(),
                connection_state: 0,
                last_char: 0,
                char_to_write: Option::None,
            });
        }
        r
    }

    /// The transport acquired a client connection: the connection register
    /// goes to 1 and an interrupt is queued.
    pub fn note_connected(&mut self)
        ensures
            final(self)@ == (TermLinkView {
                connection_state: 1,
                interrupt_queued: true,
                log: old(self)@.log + "connection acquired; "@,
                ..old(self)@
            }),
    {
        self.connection_state = 1;
        self.interrupt_queued = true;
        self.log.append("connection acquired; ");
    }

    /// The transport lost the connection: the connection register goes to 0
    /// and an interrupt is queued.
    pub fn note_connection_lost(&mut self)
        ensures
            final(self)@ == (TermLinkView {
                connection_state: 0,
                interrupt_queued: true,
                log: old(self)@.log + "connection lost; "@,
                ..old(self)@
            }),
    {
        self.connection_state = 0;
        self.interrupt_queued = true;
        self.log.append("connection lost; ");
    }

    /// The transport received one byte from the client: it lands in the
    /// last-character register and an interrupt is queued.
    pub fn note_byte(&mut self, value: u8)
        ensures
            final(self)@ == (TermLinkView {
                last_char: value,
                interrupt_queued: true,
                log: old(self)@.log + "byte received; "@,
                ..old(self)@
            }),
    {
        self.last_char = value;
        self.interrupt_queued = true;
        self.log.append("byte received; ");
    }

    /// Hands the queued outgoing byte to the transport, emptying the slot.
    pub fn take_output(&mut self) -> (r: Option<u8>)
        ensures
            r == old(self)@.char_to_write,
            final(self)@ == (TermLinkView { char_to_write: Option::None, ..old(self)@ }),
    {
        let r = self.char_to_write;
        self.char_to_write = Option::None;
        r
    }
}

impl Device for TermLinkPort {
    /// Address 0 reads the connection state, address 1 the last received
    /// character; the write slot and everything beyond read as 0.
    open spec fn read_model(s: TermLinkView, address: u8) -> u8 {
        if address == 0 {
            s.connection_state
        } else if address == 1 {
            s.last_char
        } else {
            0
        }
    }

    /// Only the write slot at address 2 accepts data.
    open spec fn write_model(s: TermLinkView, address: u8, value: u8) -> TermLinkView {
        if address == 2 {
            TermLinkView { char_to_write: Option::Some(value), ..s }
        } else {
            s
        }
    }

    /// The update hook moves no state: the transport reports through the
    /// event methods instead.
    open spec fn update_model(s: TermLinkView) -> TermLinkView {
        s
    }

    open spec fn int_request_model(s: TermLinkView) -> Option<u8> {
        if s.interrupt_queued {
            Option::Some(s.interrupt_code)
        } else {
            Option::None
        }
    }

    open spec fn int_message_model(s: TermLinkView) -> Seq<char> {
        s.log
    }

    /// A poll consumes the queued request and its accumulated log.
    open spec fn after_poll_model(s: TermLinkView) -> TermLinkView {
        if s.interrupt_queued {
            TermLinkView { interrupt_queued: false, log: Seq::empty(), ..s }
        } else {
            s
        }
    }

    open spec fn init_model(s: TermLinkView) -> TermLinkView {
        s
    }

    open spec fn startup_model(s: TermLinkView) -> TermLinkView {
        s
    }

    open spec fn reset_model(s: TermLinkView) -> TermLinkView {
        s
    }

    open spec fn address_space_model(s: TermLinkView) -> Option<u8> {
        Option::Some(3u8)
    }

    fn init_device(&mut self) {
    }

    fn startup(&mut self) {
    }

    fn update_device(&mut self) {
    }

    fn has_interrupt_request(&mut self) -> (r: Option<(u8, String)>) {
        if self.interrupt_queued {
            self.interrupt_queued = false;
            let message = self.log.clone();
            self.log = String::new();
            Option::Some((self.interrupt_code, message))
        } else {
            Option::None
        }
    }

    fn reset_device(&mut self) {
    }

    fn read(&self, address: u8) -> (r: u8) {
        if address == 0 {
            self.connection_state
        } else if address == 1 {
            self.last_char
        } else {
            0
        }
    }

    fn write(&mut self, address: u8, value: u8) {
        if address == 2 {
            self.char_to_write = Option::Some(value);
        }
    }

    fn get_address_space(&self) -> (r: Option<u8>) {
        Option::Some(3)
    }
}

} // verus!
