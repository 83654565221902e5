//! The capability contract every device on the I/O bus must satisfy.
//!
//! The bus consumes devices only through this trait: lifecycle hooks fanned
//! out in mount order, bus-relative reads and writes, and a once-per-cycle
//! interrupt poll. Each method's behaviour is pinned to a spec-level model of
//! the device's abstract state, so the bus's own contracts can speak about
//! what a mounted device returns and how its state moves.

use vstd::prelude::*;

verus! {

/// The contract between the I/O bus and a device.
///
/// A device exposes an abstract state through [`View`]; every operation of
/// the contract is described by a spec-level model over that state. Device
/// hooks must not block: the bus polls devices cooperatively, once per cycle,
/// and a blocking hook would stall the whole machine.
pub trait Device: View + Sized {
    /// The byte a read at bus-relative `address` returns, as a function of
    /// the device's abstract state.
    spec fn read_model(s: Self::V, address: u8) -> u8;

    /// The abstract state after a write of `value` at bus-relative `address`.
    spec fn write_model(s: Self::V, address: u8, value: u8) -> Self::V;

    /// The abstract state after the per-cycle update hook.
    spec fn update_model(s: Self::V) -> Self::V;

    /// The interrupt request the device reports when polled: the interrupt
    /// code if one is pending, `None` otherwise.
    spec fn int_request_model(s: Self::V) -> Option<u8>;

    /// The log message that accompanies a reported interrupt.
    spec fn int_message_model(s: Self::V) -> Seq<char>;

    /// The abstract state after an interrupt poll (a pending request is
    /// consumed by the poll).
    spec fn after_poll_model(s: Self::V) -> Self::V;

    /// The abstract state after the one-time init hook.
    spec fn init_model(s: Self::V) -> Self::V;

    /// The abstract state after the startup hook.
    spec fn startup_model(s: Self::V) -> Self::V;

    /// The abstract state after a system-wide reset.
    spec fn reset_model(s: Self::V) -> Self::V;

    /// The address-space size the device declares for mount-time validation,
    /// if it declares one.
    spec fn address_space_model(s: Self::V) -> Option<u8>;

    /// Called once, when the device is mounted on the bus.
    fn init_device(&mut self)
        ensures
            final(self)@ == Self::init_model(old(self)@),
    ;

    /// Called before the engine executes its first cycle.
    fn startup(&mut self)
        ensures
            final(self)@ == Self::startup_model(old(self)@),
    ;

    /// Called after every executed instruction. Must not block.
    fn update_device(&mut self)
        ensures
            final(self)@ == Self::update_model(old(self)@),
    ;

    /// Called once per cycle after the update hook. Reports a pending
    /// interrupt as its code plus a log message, and consumes the request.
    /// Interrupt codes of devices reporting in the same cycle are OR-ed
    /// together by the bus, so devices sharing a machine should partition
    /// the code bits between them.
    fn has_interrupt_request(&mut self) -> (r: Option<(u8, String)>)
        ensures
            final(self)@ == Self::after_poll_model(old(self)@),
            r is Some <==> Self::int_request_model(old(self)@) is Some,
            (match r {
                Option::Some(p) => Self::int_request_model(old(self)@) == Option::Some(p.0)
                    && p.1@ == Self::int_message_model(old(self)@),
                Option::None => true,
            }),
    ;

    /// Called on a system-wide reset.
    fn reset_device(&mut self)
        ensures
            final(self)@ == Self::reset_model(old(self)@),
    ;

    /// A read at bus-relative `address`. Reads are queries: they return the
    /// modeled byte and do not move the device's state.
    fn read(&self, address: u8) -> (r: u8)
        ensures
            r == Self::read_model(self@, address),
    ;

    /// A write of `value` at bus-relative `address`.
    fn write(&mut self, address: u8, value: u8)
        ensures
            final(self)@ == Self::write_model(old(self)@, address, value),
    ;

    /// The address-space size the device declares, used at mount time to
    /// warn when the given range's length does not match.
    fn get_address_space(&self) -> (r: Option<u8>)
        ensures
            r == Self::address_space_model(self@),
    ;
}

} // verus!
