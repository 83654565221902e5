//! The memory-mapped I/O bus.
//!
//! Devices are mounted on address ranges that may overlap. A read at an
//! address is the bitwise OR of every matching device's read (0 when none
//! match); a write is fanned out to every matching device; the per-cycle
//! interrupt poll ORs the codes of every reporting device and can record one
//! log entry per report.

use vstd::prelude::*;
use crate::devices::device::Device;

verus! {

/// One mounted device in the abstract bus state: its half-open address range
/// `start..end` and its abstract device state.
#[verifier::ext_equal]
pub ghost struct MountView<DV> {
    pub start: u8,
    pub end: u8,
    pub dev: DV,
}

/// One recorded interrupt report: the reported code and the device's message.
#[verifier::ext_equal]
pub ghost struct LogLine {
    pub code: u8,
    pub message: Seq<char>,
}

/// Abstract state of the bus: the mounts in mount order, the interrupt log
/// recorded so far and whether logging is switched on.
#[verifier::ext_equal]
pub ghost struct BusView<DV> {
    pub mounts: Seq<MountView<DV>>,
    pub log: Seq<LogLine>,
    pub logging: bool,
}

/// Whether `address` falls inside the mount's half-open range.
pub open spec fn in_range<DV>(m: MountView<DV>, address: u8) -> bool {
    m.start <= address && address < m.end
}

/// The value a bus read at `address` returns: the OR of every matching
/// device's read at its bus-relative address, 0 when none match.
pub open spec fn bus_read<D: Device>(mounts: Seq<MountView<D::V>>, address: u8) -> u8
    decreases mounts.len(),
{
    if mounts.len() == 0 {
        0
    } else {
        let rest = bus_read::<D>(mounts.drop_last(), address);
        let m = mounts.last();
        if in_range(m, address) {
            rest | D::read_model(m.dev, (address - m.start) as u8)
        } else {
            rest
        }
    }
}

/// The mounts after a bus write of `value` at `address`: every matching
/// device takes the write at its bus-relative address, the rest are untouched.
pub open spec fn bus_write<D: Device>(
    mounts: Seq<MountView<D::V>>,
    address: u8,
    value: u8,
) -> Seq<MountView<D::V>> {
    mounts.map(
        |i: int, m: MountView<D::V>|
            if in_range(m, address) {
                MountView { dev: D::write_model(m.dev, (address - m.start) as u8, value), ..m }
            } else {
                m
            },
    )
}

/// The mounts after the update hook has been fanned out to every device.
pub open spec fn bus_update<D: Device>(mounts: Seq<MountView<D::V>>) -> Seq<MountView<D::V>> {
    mounts.map(|i: int, m: MountView<D::V>| MountView { dev: D::update_model(m.dev), ..m })
}

/// The mounts after the startup hook has been fanned out to every device.
pub open spec fn bus_startup<D: Device>(mounts: Seq<MountView<D::V>>) -> Seq<MountView<D::V>> {
    mounts.map(|i: int, m: MountView<D::V>| MountView { dev: D::startup_model(m.dev), ..m })
}

/// The mounts after a reset has been fanned out to every device.
pub open spec fn bus_reset<D: Device>(mounts: Seq<MountView<D::V>>) -> Seq<MountView<D::V>> {
    mounts.map(|i: int, m: MountView<D::V>| MountView { dev: D::reset_model(m.dev), ..m })
}

/// The mounts after an interrupt poll has visited every device.
pub open spec fn bus_after_poll<D: Device>(mounts: Seq<MountView<D::V>>) -> Seq<MountView<D::V>> {
    mounts.map(|i: int, m: MountView<D::V>| MountView { dev: D::after_poll_model(m.dev), ..m })
}

/// The aggregate interrupt request of one poll: `None` when no device
/// reports, otherwise the OR of every reported code.
pub open spec fn poll_code<D: Device>(mounts: Seq<MountView<D::V>>) -> Option<u8>
    decreases mounts.len(),
{
    if mounts.len() == 0 {
        Option::None
    } else {
        let rest = poll_code::<D>(mounts.drop_last());
        match D::int_request_model(mounts.last().dev) {
            Option::Some(c) => Option::Some(
                match rest {
                    Option::Some(r) => r | c,
                    Option::None => c,
                },
            ),
            Option::None => rest,
        }
    }
}

/// The log entries one poll records: one line per reporting device, in mount
/// order.
pub open spec fn poll_log<D: Device>(mounts: Seq<MountView<D::V>>) -> Seq<LogLine>
    decreases mounts.len(),
{
    if mounts.len() == 0 {
        Seq::empty()
    } else {
        poll_log::<D>(mounts.drop_last()) + (match D::int_request_model(mounts.last().dev) {
            Option::Some(c) => seq![
                LogLine { code: c, message: D::int_message_model(mounts.last().dev) },
            ],
            Option::None => Seq::empty(),
        })
    }
}

/// One device mounted at a half-open address range of the bus.
pub struct RangedDevice<D> {
    pub start: u8,
    pub end: u8,
    pub device: D,
}

/// One recorded interrupt report, ready for a driver to render.
pub struct LogEntry {
    pub code: u8,
    pub message: String,
}

impl View for LogEntry {
    type V = LogLine;

    open spec fn view(&self) -> LogLine {
        LogLine { code: self.code, message: self.message@ }
    }
}

/// The bus: every mounted device in mount order, plus the optional
/// append-only interrupt log.
pub struct IOController<D> {
    pub devices: Vec<RangedDevice<D>>,
    pub interrupt_log: Option<Vec<LogEntry>>,
}

impl<D: Device> View for IOController<D> {
    type V = BusView<D::V>;

    open spec fn view(&self) -> BusView<D::V> {
        BusView {
            mounts: Seq::new(
                self.devices@.len(),
                |i: int| MountView {
                    start: self.devices@[i].start,
                    end: self.devices@[i].end,
                    dev: self.devices@[i].device@,
                },
            ),
            log: match self.interrupt_log {
                Option::Some(entries) => Seq::new(entries@.len(), |i: int| entries@[i]@),
                Option::None => Seq::empty(),
            },
            logging: self.interrupt_log is Some,
        }
    }
}

impl<D: Device> IOController<D> {
    /// An empty bus; with `logging_enabled` the interrupt polls record their
    /// reports into an append-only log.
    pub fn new(logging_enabled: bool) -> (r: Self)
        ensures
            r@.mounts == Seq::<MountView<D::V>>::empty(),
            r@.log == Seq::<LogLine>::empty(),
            r@.logging == logging_enabled,
    {
        let interrupt_log: Option<Vec<LogEntry>> = if logging_enabled {
            Option::Some(Vec::new())
        } else {
            Option::None
        };
        let r = Self { devices: Vec::new(), interrupt_log };
        proof {
            assert(r@.mounts =~= Seq::<MountView<D::V>>::empty());
            assert(r@.log =~= Seq::<LogLine>::empty());
        }
        r
    }

    /// Mounts `device` on the half-open range `address`, running its one-time
    /// init hook. Returns true when the device declares an address-space size
    /// that does not match the range's length — a non-fatal warning for the
    /// driver to surface; the device is mounted either way.
    pub fn mount_device(&mut self, address: core::ops::Range<u8>, device: D) -> (warned: bool)
        ensures
            final(self)@.mounts == old(self)@.mounts.push(
                MountView {
                    start: address.start,
                    end: address.end,
                    dev: D::init_model(device@),
                },
            ),
            final(self)@.log == old(self)@.log,
            final(self)@.logging == old(self)@.logging,
            warned == (match D::address_space_model(device@) {
                Option::Some(size) => size != (if address.start <= address.end {
                    (address.end - address.start) as u8
                } else {
                    0u8
                }),
                Option::None => false,
            }),
    {
        let start = address.start;
        let end = address.end;
        let range_len: u8 = if start <= end {
            end - start
        } else {
            0
        };
        let warned = match device.get_address_space() {
            Option::Some(size) => size != range_len,
            Option::None => false,
        };
        let ghost fresh = device@;
        let mut device = device;
        device.init_device();
        self.devices.push(RangedDevice { start, end, device });
        proof {
            assert(self@.mounts =~= old(self)@.mounts.push(
                MountView { start, end, dev: D::init_model(fresh) },
            ));
        }
        warned
    }

    /// Fans the startup hook out to every device, in mount order.
    pub fn startup(&mut self)
        ensures
            final(self)@.mounts == bus_startup::<D>(old(self)@.mounts),
            final(self)@.log == old(self)@.log,
            final(self)@.logging == old(self)@.logging,
    {
        let n = self.devices.len();
        let mut i: usize = 0;
        while i < n
            invariant
                i <= n,
                n == self.devices@.len(),
                n == old(self)@.mounts.len(),
                self.interrupt_log == old(self).interrupt_log,
                forall|j: int| i <= j < n ==> self.devices@[j] == old(self).devices@[j],
                forall|j: int| 0 <= j < i ==> (#[trigger] self.devices@[j]).start
                    == old(self).devices@[j].start && self.devices@[j].end
                    == old(self).devices@[j].end && self.devices@[j].device@
                    == D::startup_model(old(self).devices@[j].device@),
            decreases n - i,
        {
            self.devices[i].device.startup();
            i += 1;
        }
        proof {
            assert(self@.mounts =~= bus_startup::<D>(old(self)@.mounts));
        }
    }

    /// Fans a system-wide reset out to every device, in mount order.
    pub fn reset(&mut self)
        ensures
            final(self)@.mounts == bus_reset::<D>(old(self)@.mounts),
            final(self)@.log == old(self)@.log,
            final(self)@.logging == old(self)@.logging,
    {
        let n = self.devices.len();
        let mut i: usize = 0;
        while i < n
            invariant
                i <= n,
                n == self.devices@.len(),
                n == old(self)@.mounts.len(),
                self.interrupt_log == old(self).interrupt_log,
                forall|j: int| i <= j < n ==> self.devices@[j] == old(self).devices@[j],
                forall|j: int| 0 <= j < i ==> (#[trigger] self.devices@[j]).start
                    == old(self).devices@[j].start && self.devices@[j].end
                    == old(self).devices@[j].end && self.devices@[j].device@
                    == D::reset_model(old(self).devices@[j].device@),
            decreases n - i,
        {
            self.devices[i].device.reset_device();
            i += 1;
        }
        proof {
            assert(self@.mounts =~= bus_reset::<D>(old(self)@.mounts));
        }
    }

    /// Fans the per-cycle update hook out to every device, in mount order.
    pub fn update(&mut self)
        ensures
            final(self)@.mounts == bus_update::<D>(old(self)@.mounts),
            final(self)@.log == old(self)@.log,
            final(self)@.logging == old(self)@.logging,
    {
        let n = self.devices.len();
        let mut i: usize = 0;
        while i < n
            invariant
                i <= n,
                n == self.devices@.len(),
                n == old(self)@.mounts.len(),
                self.interrupt_log == old(self).interrupt_log,
                forall|j: int| i <= j < n ==> self.devices@[j] == old(self).devices@[j],
                forall|j: int| 0 <= j < i ==> (#[trigger] self.devices@[j]).start
                    == old(self).devices@[j].start && self.devices@[j].end
                    == old(self).devices@[j].end && self.devices@[j].device@
                    == D::update_model(old(self).devices@[j].device@),
            decreases n - i,
        {
            self.devices[i].device.update_device();
            i += 1;
        }
        proof {
            assert(self@.mounts =~= bus_update::<D>(old(self)@.mounts));
        }
    }

    /// Reads the bus at `address`: the OR of every matching device's read at
    /// its bus-relative address, 0 when no device matches.
    pub fn read(&self, address: u8) -> (r: u8)
        ensures
            r == bus_read::<D>(self@.mounts, address),
    {
        let n = self.devices.len();
        let mut out: u8 = 0;
        let mut i: usize = 0;
        while i < n
            invariant
                i <= n,
                n == self.devices@.len(),
                out == bus_read::<D>(self@.mounts.take(i as int), address),
            decreases n - i,
        {
            let start = self.devices[i].start;
            let end = self.devices[i].end;
            if start <= address && address < end {
                let relative_address = address - start;
                out = out | self.devices[i].device.read(relative_address);
            }
            proof {
                assert(self@.mounts.take(i + 1).drop_last() =~= self@.mounts.take(i as int));
                assert(self@.mounts.take(i + 1).last() == self@.mounts[i as int]);
            }
            i += 1;
        }
        proof {
            assert(self@.mounts.take(n as int) =~= self@.mounts);
        }
        out
    }

    /// Writes `value` at `address`: every device whose range contains the
    /// address takes the write at its bus-relative address.
    pub fn write(&mut self, address: u8, value: u8)
        ensures
            final(self)@.mounts == bus_write::<D>(old(self)@.mounts, address, value),
            final(self)@.log == old(self)@.log,
            final(self)@.logging == old(self)@.logging,
    {
        let n = self.devices.len();
        let mut i: usize = 0;
        while i < n
            invariant
                i <= n,
                n == self.devices@.len(),
                n == old(self)@.mounts.len(),
                self.interrupt_log == old(self).interrupt_log,
                forall|j: int| i <= j < n ==> self.devices@[j] == old(self).devices@[j],
                forall|j: int| 0 <= j < i ==> (#[trigger] self.devices@[j]).start
                    == old(self).devices@[j].start && self.devices@[j].end
                    == old(self).devices@[j].end && self.devices@[j].device@ == (
                    if old(self).devices@[j].start <= address < old(self).devices@[j].end {
                        D::write_model(
                            old(self).devices@[j].device@,
                            (address - old(self).devices@[j].start) as u8,
                            value,
                        )
                    } else {
                        old(self).devices@[j].device@
                    }
                ),
            decreases n - i,
        {
            let start = self.devices[i].start;
            let end = self.devices[i].end;
            if start <= address && address < end {
                let relative_address = address - start;
                self.devices[i].device.write(relative_address, value);
            }
            i += 1;
        }
        proof {
            assert(self@.mounts =~= bus_write::<D>(old(self)@.mounts, address, value));
        }
    }

    /// Polls every device once, in mount order. Returns `None` when nothing
    /// was requested, otherwise the OR of every reported interrupt code; with
    /// logging on, one entry per reporting device is appended to the log.
    pub fn device_has_interrupt_request(&mut self) -> (r: Option<u8>)
        ensures
            r == poll_code::<D>(old(self)@.mounts),
            final(self)@.mounts == bus_after_poll::<D>(old(self)@.mounts),
            final(self)@.log == old(self)@.log + (if old(self)@.logging {
                poll_log::<D>(old(self)@.mounts)
            } else {
                Seq::<LogLine>::empty()
            }),
            final(self)@.logging == old(self)@.logging,
    {
        let n = self.devices.len();
        let mut has_interrupt = false;
        let mut int_code: u8 = 0;
        let mut i: usize = 0;
        while i < n
            invariant
                i <= n,
                n == self.devices@.len(),
                n == old(self)@.mounts.len(),
                self.interrupt_log is Some <==> old(self).interrupt_log is Some,
                forall|j: int| i <= j < n ==> self.devices@[j] == old(self).devices@[j],
                forall|j: int| 0 <= j < i ==> (#[trigger] self.devices@[j]).start
                    == old(self).devices@[j].start && self.devices@[j].end
                    == old(self).devices@[j].end && self.devices@[j].device@
                    == D::after_poll_model(old(self).devices@[j].device@),
                !has_interrupt ==> int_code == 0,
                (if has_interrupt {
                    Option::Some(int_code)
                } else {
                    Option::<u8>::None
                }) == poll_code::<D>(old(self)@.mounts.take(i as int)),
                self@.log == old(self)@.log + (if old(self)@.logging {
                    poll_log::<D>(old(self)@.mounts.take(i as int))
                } else {
                    Seq::<LogLine>::empty()
                }),
            decreases n - i,
        {
            proof {
                assert(self.devices@[i as int] == old(self).devices@[i as int]);
                assert(old(self)@.mounts[i as int].dev == old(self).devices@[i as int].device@);
            }
            let ghost polled = old(self)@.mounts[i as int].dev;
            let ghost code_before = (if has_interrupt {
                Option::Some(int_code)
            } else {
                Option::<u8>::None
            });
            let ghost log_before = self@.log;
            let report = self.devices[i].device.has_interrupt_request();
            match report {
                Option::Some(p) => {
                    let (code, message) = p;
                    match &mut self.interrupt_log {
                        Option::Some(entries) => {
                            entries.push(LogEntry { code, message });
                            assert(self@.log =~= log_before.push(
                                LogLine { code, message: message@ },
                            ));
                        },
                        Option::None => {},
                    }
                    proof {
                        assert(forall|c: u8| 0u8 | c == c) by (bit_vector);
                    }
                    has_interrupt = true;
                    int_code = int_code | code;
                },
                Option::None => {},
            }
            proof {
                assert(old(self)@.mounts.take(i + 1).drop_last() =~= old(self)@.mounts.take(
                    i as int,
                ));
                assert(old(self)@.mounts.take(i + 1).last() == old(self)@.mounts[i as int]);
                assert(poll_code::<D>(old(self)@.mounts.take(i + 1)) == (
                    match D::int_request_model(polled) {
                        Option::Some(c) => Option::Some(
                            match code_before {
                                Option::Some(acc) => acc | c,
                                Option::None => c,
                            },
                        ),
                        Option::None => code_before,
                    }
                ));
                assert(poll_log::<D>(old(self)@.mounts.take(i + 1)) =~= poll_log::<D>(
                    old(self)@.mounts.take(i as int),
                ) + (match D::int_request_model(polled) {
                    Option::Some(c) => seq![
                        LogLine { code: c, message: D::int_message_model(polled) },
                    ],
                    Option::None => Seq::<LogLine>::empty(),
                }));
                assert(self@.log =~= old(self)@.log + (if old(self)@.logging {
                    poll_log::<D>(old(self)@.mounts.take(i + 1))
                } else {
                    Seq::<LogLine>::empty()
                }));
            }
            i += 1;
        }
        proof {
            assert(old(self)@.mounts.take(n as int) =~= old(self)@.mounts);
            assert(self@.mounts =~= bus_after_poll::<D>(old(self)@.mounts));
        }
        if !has_interrupt {
            Option::None
        } else {
            Option::Some(int_code)
        }
    }
}

/// At an address no mount covers, a bus read returns 0 and a bus write
/// changes no device.
pub proof fn lemma_unmapped_address<D: Device>(
    mounts: Seq<MountView<D::V>>,
    address: u8,
    value: u8,
)
    requires
        forall|i: int| 0 <= i < mounts.len() ==> !in_range(#[trigger] mounts[i], address),
    ensures
        bus_read::<D>(mounts, address) == 0,
        bus_write::<D>(mounts, address, value) == mounts,
    decreases mounts.len(),
{
    if mounts.len() > 0 {
        assert(forall|i: int|
            0 <= i < mounts.drop_last().len() ==> !in_range(
                #[trigger] mounts.drop_last()[i],
                address,
            ));
        lemma_unmapped_address::<D>(mounts.drop_last(), address, value);
        assert(!in_range(mounts.last(), address));
    }
    assert(bus_write::<D>(mounts, address, value) =~= mounts);
}

/// With two mounts whose ranges both cover `address`, a read at `address`
/// returns the OR of both devices' reads at their bus-relative addresses,
/// and a write at `address` reaches both devices at those same relative
/// addresses.
pub proof fn lemma_overlapping_mounts<D: Device>(
    mounts: Seq<MountView<D::V>>,
    address: u8,
    value: u8,
)
    requires
        mounts.len() == 2,
        in_range(mounts[0], address),
        in_range(mounts[1], address),
    ensures
        bus_read::<D>(mounts, address) == D::read_model(
            mounts[0].dev,
            (address - mounts[0].start) as u8,
        ) | D::read_model(mounts[1].dev, (address - mounts[1].start) as u8),
        bus_write::<D>(mounts, address, value)[0].dev == D::write_model(
            mounts[0].dev,
            (address - mounts[0].start) as u8,
            value,
        ),
        bus_write::<D>(mounts, address, value)[1].dev == D::write_model(
            mounts[1].dev,
            (address - mounts[1].start) as u8,
            value,
        ),
{
    let first = D::read_model(mounts[0].dev, (address - mounts[0].start) as u8);
    assert(mounts.drop_last().drop_last().len() == 0);
    assert(mounts.drop_last().last() == mounts[0]);
    assert(mounts.last() == mounts[1]);
    assert(bus_read::<D>(mounts.drop_last().drop_last(), address) == 0);
    assert(0u8 | first == first) by (bit_vector);
    assert(bus_read::<D>(mounts.drop_last(), address) == first);
}

} // verus!

