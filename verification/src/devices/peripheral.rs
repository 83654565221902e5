//! The closed roster of devices a driver can mount: one variant per device
//! kind, dispatching the capability contract to the wrapped device.

use vstd::prelude::*;
use crate::devices::device::Device;
use crate::devices::stdout_ascii_buffer::CharIOBuffer;
use crate::devices::term_link::{TermLinkPort, TermLinkView};

verus! {

/// A device of any supported kind.
pub enum Peripheral {
    CharBuffer(CharIOBuffer),
    TermLink(TermLinkPort),
}

/// Abstract state of a device of any supported kind.
#[verifier::ext_equal]
pub ghost enum PeripheralView {
    CharBuffer(Seq<u8>),
    TermLink(TermLinkView),
}

impl View for Peripheral {
    type V = PeripheralView;

    open spec fn view(&self) -> PeripheralView {
        match self {
            Peripheral::CharBuffer(d) => PeripheralView::CharBuffer(d@),
            Peripheral::TermLink(d) => PeripheralView::TermLink(d@),
        }
    }
}

impl Device for Peripheral {
    open spec fn read_model(s: PeripheralView, address: u8) -> u8 {
        match s {
            PeripheralView::CharBuffer(b) => <CharIOBuffer as Device>::read_model(b, address),
            PeripheralView::TermLink(t) => <TermLinkPort as Device>::read_model(t, address),
        }
    }

    open spec fn write_model(s: PeripheralView, address: u8, value: u8) -> PeripheralView {
        match s {
            PeripheralView::CharBuffer(b) => PeripheralView::CharBuffer(
                <CharIOBuffer as Device>::write_model(b, address, value),
            ),
            PeripheralView::TermLink(t) => PeripheralView::TermLink(
                <TermLinkPort as Device>::write_model(t, address, value),
            ),
        }
    }

    open spec fn update_model(s: PeripheralView) -> PeripheralView {
        match s {
            PeripheralView::CharBuffer(b) => PeripheralView::CharBuffer(
                <CharIOBuffer as Device>::update_model(b),
            ),
            PeripheralView::TermLink(t) => PeripheralView::TermLink(
                <TermLinkPort as Device>::update_model(t),
            ),
        }
    }

    open spec fn int_request_model(s: PeripheralView) -> Option<u8> {
        match s {
            PeripheralView::CharBuffer(b) => <CharIOBuffer as Device>::int_request_model(b),
            PeripheralView::TermLink(t) => <TermLinkPort as Device>::int_request_model(t),
        }
    }

    open spec fn int_message_model(s: PeripheralView) -> Seq<char> {
        match s {
            PeripheralView::CharBuffer(b) => <CharIOBuffer as Device>::int_message_model(b),
            PeripheralView::TermLink(t) => <TermLinkPort as Device>::int_message_model(t),
        }
    }

    open spec fn after_poll_model(s: PeripheralView) -> PeripheralView {
        match s {
            PeripheralView::CharBuffer(b) => PeripheralView::CharBuffer(
                <CharIOBuffer as Device>::after_poll_model(b),
            ),
            PeripheralView::TermLink(t) => PeripheralView::TermLink(
                <TermLinkPort as Device>::after_poll_model(t),
            ),
        }
    }

    open spec fn init_model(s: PeripheralView) -> PeripheralView {
        match s {
            PeripheralView::CharBuffer(b) => PeripheralView::CharBuffer(
                <CharIOBuffer as Device>::init_model(b),
            ),
            PeripheralView::TermLink(t) => PeripheralView::TermLink(
                <TermLinkPort as Device>::init_model(t),
            ),
        }
    }

    open spec fn startup_model(s: PeripheralView) -> PeripheralView {
        match s {
            PeripheralView::CharBuffer(b) => PeripheralView::CharBuffer(
                <CharIOBuffer as Device>::startup_model(b),
            ),
            PeripheralView::TermLink(t) => PeripheralView::TermLink(
                <TermLinkPort as Device>::startup_model(t),
            ),
        }
    }

    open spec fn reset_model(s: PeripheralView) -> PeripheralView {
        match s {
            PeripheralView::CharBuffer(b) => PeripheralView::CharBuffer(
                <CharIOBuffer as Device>::reset_model(b),
            ),
            PeripheralView::TermLink(t) => PeripheralView::TermLink(
                <TermLinkPort as Device>::reset_model(t),
            ),
        }
    }

    open spec fn address_space_model(s: PeripheralView) -> Option<u8> {
        match s {
            PeripheralView::CharBuffer(b) => <CharIOBuffer as Device>::address_space_model(b),
            PeripheralView::TermLink(t) => <TermLinkPort as Device>::address_space_model(t),
        }
    }

    fn init_device(&mut self) {
        match self {
            Peripheral::CharBuffer(d) => d.init_device(),
            Peripheral::TermLink(d) => d.init_device(),
        }
    }

    fn startup(&mut self) {
        match self {
            Peripheral::CharBuffer(d) => d.startup(),
            Peripheral::TermLink(d) => d.startup(),
        }
    }

    fn update_device(&mut self) {
        match self {
            Peripheral::CharBuffer(d) => d.update_device(),
            Peripheral::TermLink(d) => d.update_device(),
        }
    }

    fn has_interrupt_request(&mut self) -> (r: Option<(u8, String)>) {
        match self {
            Peripheral::CharBuffer(d) => d.has_interrupt_request(),
            Peripheral::TermLink(d) => d.has_interrupt_request(),
        }
    }

    fn reset_device(&mut self) {
        match self {
            Peripheral::CharBuffer(d) => d.reset_device(),
            Peripheral::TermLink(d) => d.reset_device(),
        }
    }

    fn read(&self, address: u8) -> (r: u8) {
        match self {
            Peripheral::CharBuffer(d) => d.read(address),
            Peripheral::TermLink(d) => d.read(address),
        }
    }

    fn write(&mut self, address: u8, value: u8) {
        match self {
            Peripheral::CharBuffer(d) => d.write(address, value),
            Peripheral::TermLink(d) => d.write(address, value),
        }
    }

    fn get_address_space(&self) -> (r: Option<u8>) {
        match self {
            Peripheral::CharBuffer(d) => d.get_address_space(),
            Peripheral::TermLink(d) => d.get_address_space(),
        }
    }
}

} // verus!
