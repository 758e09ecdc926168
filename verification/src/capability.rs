//! Capability tokens for the device's singleton resources, and the registry
//! that hands each out at most once at a time.
//!
//! A token stands for the exclusive right to use one resource. It cannot be
//! copied; whoever holds it may use the resource, and handing it on hands on
//! that right. The registry is the one place that knows which tokens are
//! outstanding. Asking for one that is outstanding is an error that is
//! reported at once: no request ever waits for a token to come back.

use crate::error::ErrorKind;
use vstd::prelude::*;

verus! {

/// Exclusive access to the radio.
#[derive(Debug)]
pub struct RadioPeripheral {
    sealed: (),
}

/// Exclusive access to the persistent-storage partition.
#[derive(Debug)]
pub struct StoragePartition {
    sealed: (),
}

/// The system event loop.
#[derive(Debug)]
pub struct EventLoopHandle {
    sealed: (),
}

/// Exclusive control of one digital output line.
#[derive(Debug)]
pub struct OutputPinHandle {
    pin: u8,
}

impl OutputPinHandle {
    /// The number of the line that the handle controls.
    pub closed spec fn line(&self) -> u8 {
        self.pin
    }

    /// The number of the line that the handle controls.
    pub fn pin(&self) -> (n: u8)
        ensures
            n == self.line(),
    {
        self.pin
    }
}

/// The name of a capability.
#[derive(Clone, Copy, Debug, PartialEq, Eq, Structural)]
pub enum Capability {
    Radio,
    Storage,
    EventLoop,
    Pin(u8),
}

/// Which capabilities are outstanding.
pub struct Outstanding {
    pub radio: bool,
    pub storage: bool,
    pub event_loop: bool,
    pub pins: Set<u8>,
}

impl Outstanding {
    /// Nothing is outstanding.
    pub open spec fn none() -> Outstanding {
        Outstanding { radio: false, storage: false, event_loop: false, pins: Set::empty() }
    }

    /// Whether the capability is outstanding.
    pub open spec fn has(self, c: Capability) -> bool {
        match c {
            Capability::Radio => self.radio,
            Capability::Storage => self.storage,
            Capability::EventLoop => self.event_loop,
            Capability::Pin(n) => self.pins.contains(n),
        }
    }

    /// The same, with the capability outstanding.
    pub open spec fn with(self, c: Capability) -> Outstanding {
        match c {
            Capability::Radio => Outstanding { radio: true, ..self },
            Capability::Storage => Outstanding { storage: true, ..self },
            Capability::EventLoop => Outstanding { event_loop: true, ..self },
            Capability::Pin(n) => Outstanding { pins: self.pins.insert(n), ..self },
        }
    }

    /// The same, with the capability back in the registry.
    pub open spec fn without(self, c: Capability) -> Outstanding {
        match c {
            Capability::Radio => Outstanding { radio: false, ..self },
            Capability::Storage => Outstanding { storage: false, ..self },
            Capability::EventLoop => Outstanding { event_loop: false, ..self },
            Capability::Pin(n) => Outstanding { pins: self.pins.remove(n), ..self },
        }
    }

    /// What a request for the capability leads to: the capability is
    /// outstanding afterwards, or the request is refused.
    pub open spec fn request(self, c: Capability) -> Result<Outstanding, ErrorKind> {
        if self.has(c) {
            Err(ErrorKind::ResourceUnavailable)
        } else {
            Ok(self.with(c))
        }
    }
}

/// The guard over the singleton resources.
pub struct Registry {
    radio_out: bool,
    storage_out: bool,
    event_loop_out: bool,
    pins_out: Vec<u8>,
}

impl View for Registry {
    type V = Outstanding;

    closed spec fn view(&self) -> Outstanding {
        Outstanding {
            radio: self.radio_out,
            storage: self.storage_out,
            event_loop: self.event_loop_out,
            pins: self.pins_out@.to_set(),
        }
    }
}

impl Registry {
    /// No line is listed twice.
    pub closed spec fn wf(&self) -> bool {
        self.pins_out@.no_duplicates()
    }

    /// A registry from which nothing has been taken.
    pub fn new() -> (r: Registry)
        ensures
            r.wf(),
            r@ == Outstanding::none(),
    {
        let r = Registry {
            radio_out: false,
            storage_out: false,
            event_loop_out: false,
            pins_out: Vec::new(),
        };
        assert(r.pins_out@.to_set() =~= Set::<u8>::empty());
        r
    }

    /// Whether the capability is outstanding.
    pub fn is_taken(&self, c: Capability) -> (b: bool)
        ensures
            b == self@.has(c),
    {
        match c {
            Capability::Radio => self.radio_out,
            Capability::Storage => self.storage_out,
            Capability::EventLoop => self.event_loop_out,
            Capability::Pin(n) => self.pin_taken(n),
        }
    }

    /// Whether the radio is outstanding.
    pub fn radio_taken(&self) -> (b: bool)
        ensures
            b == self@.radio,
    {
        self.radio_out
    }

    /// Whether the storage partition is outstanding.
    pub fn storage_taken(&self) -> (b: bool)
        ensures
            b == self@.storage,
    {
        self.storage_out
    }

    /// Whether the event loop is outstanding.
    pub fn event_loop_taken(&self) -> (b: bool)
        ensures
            b == self@.event_loop,
    {
        self.event_loop_out
    }

    /// Whether the given line is outstanding.
    pub fn pin_taken(&self, pin: u8) -> (b: bool)
        ensures
            b == self@.pins.contains(pin),
    {
        let mut i: usize = 0;
        while i < self.pins_out.len()
            invariant
                i <= self.pins_out@.len(),
                forall|j: int| 0 <= j < i ==> self.pins_out@[j] != pin,
            decreases self.pins_out@.len() - i,
        {
            if self.pins_out[i] == pin {
                assert(self.pins_out@.contains(pin));
                return true;
            }
            i += 1;
        }
        assert(!self.pins_out@.contains(pin));
        false
    }

    /// Takes the radio. Fails at once if it is outstanding.
    pub fn take_radio(&mut self) -> (r: Result<RadioPeripheral, ErrorKind>)
        requires
            old(self).wf(),
        ensures
            final(self).wf(),
            match old(self)@.request(Capability::Radio) {
                Ok(after) => r is Ok && final(self)@ == after,
                Err(e) => r == Err::<RadioPeripheral, ErrorKind>(e) && final(self)@ == old(self)@,
            },
    {
        if self.radio_out {
            Err(ErrorKind::ResourceUnavailable)
        } else {
            self.radio_out = true;
            Ok(RadioPeripheral { sealed: () })
        }
    }

    /// Takes the storage partition. Fails at once if it is outstanding.
    pub fn take_storage(&mut self) -> (r: Result<StoragePartition, ErrorKind>)
        requires
            old(self).wf(),
        ensures
            final(self).wf(),
            match old(self)@.request(Capability::Storage) {
                Ok(after) => r is Ok && final(self)@ == after,
                Err(e) => r == Err::<StoragePartition, ErrorKind>(e) && final(self)@ == old(self)@,
            },
    {
        if self.storage_out {
            Err(ErrorKind::ResourceUnavailable)
        } else {
            self.storage_out = true;
            Ok(StoragePartition { sealed: () })
        }
    }

    /// Takes the event loop. Fails at once if it is outstanding.
    pub fn take_event_loop(&mut self) -> (r: Result<EventLoopHandle, ErrorKind>)
        requires
            old(self).wf(),
        ensures
            final(self).wf(),
            match old(self)@.request(Capability::EventLoop) {
                Ok(after) => r is Ok && final(self)@ == after,
                Err(e) => r == Err::<EventLoopHandle, ErrorKind>(e) && final(self)@ == old(self)@,
            },
    {
        if self.event_loop_out {
            Err(ErrorKind::ResourceUnavailable)
        } else {
            self.event_loop_out = true;
            Ok(EventLoopHandle { sealed: () })
        }
    }

    /// Takes one output line. Fails at once if that line is outstanding.
    pub fn take_pin(&mut self, pin: u8) -> (r: Result<OutputPinHandle, ErrorKind>)
        requires
            old(self).wf(),
        ensures
            final(self).wf(),
            match old(self)@.request(Capability::Pin(pin)) {
                Ok(after) => final(self)@ == after && (r matches Ok(h) && h.line() == pin),
                Err(e) => r == Err::<OutputPinHandle, ErrorKind>(e) && final(self)@ == old(self)@,
            },
    {
        if self.pin_taken(pin) {
            Err(ErrorKind::ResourceUnavailable)
        } else {
            self.pins_out.push(pin);
            proof {
                let before = old(self).pins_out@;
                assert(self.pins_out@ == before.push(pin));
                assert(!before.contains(pin));
                assert(self.pins_out@.to_set() =~= before.to_set().insert(pin)) by {
                    assert forall|x: u8| self.pins_out@.to_set().contains(x) == before.to_set().insert(
                        pin,
                    ).contains(x) by {
                        if before.contains(x) {
                            let j = choose|j: int| 0 <= j < before.len() && before[j] == x;
                            assert(self.pins_out@[j] == x);
                        }
                        if x == pin {
                            assert(self.pins_out@[before.len() as int] == pin);
                        }
                    }
                }
            }
            Ok(OutputPinHandle { pin })
        }
    }

    /// Gives the radio back. It can be taken again afterwards.
    pub fn release_radio(&mut self, token: RadioPeripheral)
        requires
            old(self).wf(),
        ensures
            final(self).wf(),
            final(self)@ == old(self)@.without(Capability::Radio),
    {
        self.radio_out = false;
    }

    /// Gives the storage partition back.
    pub fn release_storage(&mut self, token: StoragePartition)
        requires
            old(self).wf(),
        ensures
            final(self).wf(),
            final(self)@ == old(self)@.without(Capability::Storage),
    {
        self.storage_out = false;
    }

    /// Gives the event loop back.
    pub fn release_event_loop(&mut self, token: EventLoopHandle)
        requires
            old(self).wf(),
        ensures
            final(self).wf(),
            final(self)@ == old(self)@.without(Capability::EventLoop),
    {
        self.event_loop_out = false;
    }

    /// Gives an output line back.
    pub fn release_pin(&mut self, handle: OutputPinHandle)
        requires
            old(self).wf(),
        ensures
            final(self).wf(),
            final(self)@ == old(self)@.without(Capability::Pin(handle.line())),
    {
        let pin = handle.pin;
        let mut kept: Vec<u8> = Vec::new();
        let mut i: usize = 0;
        while i < self.pins_out.len()
            invariant
                i <= self.pins_out@.len(),
                self.pins_out@ == old(self).pins_out@,
                self.pins_out@.no_duplicates(),
                kept@.no_duplicates(),
                forall|x: u8|
                    kept@.contains(x) <==> (x != pin && exists|j: int|
                        0 <= j < i && self.pins_out@[j] == x),
            decreases self.pins_out@.len() - i,
        {
            let p = self.pins_out[i];
            if p != pin {
                proof {
                    let k0 = kept@;
                    assert(!k0.contains(p)) by {
                        if k0.contains(p) {
                            let j = choose|j: int| 0 <= j < i && self.pins_out@[j] == p;
                            assert(self.pins_out@[j] == self.pins_out@[i as int]);
                        }
                    }
                }
                let ghost k0 = kept@;
                kept.push(p);
                proof {
                    assert forall|x: u8|
                        kept@.contains(x) <==> (x != pin && exists|j: int|
                            0 <= j < i + 1 && self.pins_out@[j] == x) by {
                        if kept@.contains(x) {
                            let k = choose|k: int| 0 <= k < kept@.len() && kept@[k] == x;
                            if k < k0.len() {
                                assert(k0[k] == x);
                                assert(k0.contains(x));
                            } else {
                                assert(self.pins_out@[i as int] == x);
                            }
                        }
                        if x != pin && exists|j: int| 0 <= j < i + 1 && self.pins_out@[j] == x {
                            let j = choose|j: int| 0 <= j < i + 1 && self.pins_out@[j] == x;
                            if j < i {
                                assert(k0.contains(x));
                                let k = choose|k: int| 0 <= k < k0.len() && k0[k] == x;
                                assert(kept@[k] == x);
                            } else {
                                assert(kept@[k0.len() as int] == x);
                            }
                        }
                    }
                }
            } else {
                proof {
                    assert forall|x: u8|
                        kept@.contains(x) <==> (x != pin && exists|j: int|
                            0 <= j < i + 1 && self.pins_out@[j] == x) by {
                        if x != pin && exists|j: int| 0 <= j < i + 1 && self.pins_out@[j] == x {
                            let j = choose|j: int| 0 <= j < i + 1 && self.pins_out@[j] == x;
                            assert(j < i);
                        }
                    }
                }
            }
            i += 1;
        }
        proof {
            let before = old(self).pins_out@;
            assert(kept@.to_set() =~= before.to_set().remove(pin)) by {
                assert forall|x: u8| kept@.to_set().contains(x) == before.to_set().remove(
                    pin,
                ).contains(x) by {
                    if before.contains(x) && x != pin {
                        let j = choose|j: int| 0 <= j < before.len() && before[j] == x;
                        assert(0 <= j < i && self.pins_out@[j] == x);
                    }
                }
            }
        }
        self.pins_out = kept;
    }
}

/// While a capability is outstanding, a request for it is refused as
/// `ResourceUnavailable`; once it has been given back, it is granted again.
pub proof fn law_second_acquisition_fails(before: Outstanding, c: Capability)
    ensures
        before.request(c) matches Ok(held) ==> held.request(c) == Err::<Outstanding, ErrorKind>(
            ErrorKind::ResourceUnavailable,
        ),
        before.has(c) ==> before.request(c) == Err::<Outstanding, ErrorKind>(
            ErrorKind::ResourceUnavailable,
        ),
        before.without(c).request(c) is Ok,
{
}

/// Capabilities are independent of each other: taking or returning one
/// leaves every other as it was, and two of them can be claimed in either
/// order with the same result.
pub proof fn law_claims_commute(before: Outstanding, a: Capability, b: Capability)
    requires
        a != b,
    ensures
        before.with(a).has(b) == before.has(b),
        before.without(a).has(b) == before.has(b),
        before.with(a).with(b) == before.with(b).with(a),
{
    match (a, b) {
        (Capability::Pin(m), Capability::Pin(n)) => {
            assert(before.pins.insert(m).insert(n) =~= before.pins.insert(n).insert(m));
        },
        _ => {},
    }
}

} // verus!
