//! The pin directory: the configured lines, split once into the inputs
//! and the outputs.

use vstd::prelude::*;
use crate::config::{PinConfig, PinIO};
use crate::listener::Listener;
use crate::poller::Poller;

verus! {

/// A line and the level it is held to have.
#[derive(Clone, Copy, Debug, PartialEq, Eq, Structural)]
pub struct PinState {
    pub pin: u8,
    pub state: bool,
}

/// Why a pin list gives no directory.
#[derive(Clone, Copy, Debug, PartialEq, Eq, Structural)]
pub enum ConfigurationError {
    /// The list is empty.
    NoPins,
    /// The identifier is configured more than once.
    DuplicatePin(u8),
}

/// The state a configured line starts in, if it has the direction `io`.
pub open spec fn initial_state(io: PinIO) -> spec_fn(PinConfig) -> Option<PinState> {
    |c: PinConfig|
        if c.io == io {
            Some(PinState { pin: c.pin, state: c.state })
        } else {
            None
        }
}

/// The lines of one direction, in configured order, each at its initial
/// level.
pub open spec fn partition(pins: Seq<PinConfig>, io: PinIO) -> Seq<PinState> {
    pins.filter_map(initial_state(io))
}

/// Whether `pin` is the identifier of one of `pins`.
pub open spec fn owns(pins: Seq<PinState>, pin: u8) -> bool {
    exists|i: int| 0 <= i < pins.len() && #[trigger] pins[i].pin == pin
}

/// No identifier occurs twice in `pins`.
pub open spec fn distinct_pins(pins: Seq<PinState>) -> bool {
    forall|i: int, j: int|
        0 <= i < j < pins.len() ==> #[trigger] pins[i].pin != #[trigger] pins[j].pin
}

/// No identifier occurs in both `a` and `b`.
pub open spec fn disjoint_pins(a: Seq<PinState>, b: Seq<PinState>) -> bool {
    forall|i: int, j: int|
        0 <= i < a.len() && 0 <= j < b.len() ==> #[trigger] a[i].pin != #[trigger] b[j].pin
}

/// The entry of `pins` at `j` repeats the identifier of an earlier one.
pub open spec fn repeats_earlier(pins: Seq<PinConfig>, j: int) -> bool {
    exists|i: int| 0 <= i < j && #[trigger] pins[i].pin == pins[j].pin
}

/// The two partitions of a directory.
pub struct DirectoryView {
    pub readable: Seq<PinState>,
    pub writeable: Seq<PinState>,
}

/// The configured lines, split by direction. No identifier occurs twice,
/// neither within a partition nor across the two.
#[derive(Debug)]
pub struct PinDirectory {
    readable: Vec<PinState>,
    writeable: Vec<PinState>,
}

impl View for PinDirectory {
    type V = DirectoryView;

    closed spec fn view(&self) -> DirectoryView {
        DirectoryView { readable: self.readable@, writeable: self.writeable@ }
    }
}

impl DirectoryView {
    /// The invariant of a directory.
    pub open spec fn wf(self) -> bool {
        &&& distinct_pins(self.readable)
        &&& distinct_pins(self.writeable)
        &&& disjoint_pins(self.readable, self.writeable)
    }
}

/// Looks for the entry with the identifier `pin`.
pub fn find_pin(pins: &Vec<PinState>, pin: u8) -> (r: Option<usize>)
    ensures
        match r {
            Some(i) => i < pins@.len() && pins@[i as int].pin == pin && forall|j: int|
                0 <= j < i ==> pins@[j].pin != pin,
            None => !owns(pins@, pin),
        },
{
    let mut i: usize = 0;
    while i < pins.len()
        invariant
            i <= pins@.len(),
            forall|j: int| 0 <= j < i ==> pins@[j].pin != pin,
        decreases pins@.len() - i,
    {
        if pins[i].pin == pin {
            return Some(i);
        }
        i += 1;
    }
    None
}

/// Sets the stored level of the entry at `i`.
pub(crate) fn store_level(pins: &mut Vec<PinState>, i: usize, level: bool)
    requires
        i < old(pins)@.len(),
    ensures
        final(pins)@ == old(pins)@.update(
            i as int,
            PinState { pin: old(pins)@[i as int].pin, state: level },
        ),
    no_unwind
{
    pins[i].state = level;
}

/// A partition of a configuration without repeats has no repeats, and
/// every entry of it comes from an entry of the configuration.
proof fn lemma_partition_distinct(pins: Seq<PinConfig>, io: PinIO)
    requires
        forall|j: int| 0 <= j < pins.len() ==> !repeats_earlier(pins, j),
    ensures
        distinct_pins(partition(pins, io)),
        forall|k: int|
            0 <= k < partition(pins, io).len() ==> exists|i: int|
                0 <= i < pins.len() && pins[i].io == io && #[trigger] pins[i].pin == (
                #[trigger] partition(pins, io)[k]).pin,
    decreases pins.len(),
{
    if pins.len() > 0 {
        let rest = pins.drop_last();
        assert forall|j: int| 0 <= j < rest.len() implies !repeats_earlier(rest, j) by {
            assert(!repeats_earlier(pins, j));
            if repeats_earlier(rest, j) {
                let i = choose|i: int| 0 <= i < j && #[trigger] rest[i].pin == rest[j].pin;
                assert(pins[i].pin == pins[j].pin);
            }
        }
        lemma_partition_distinct(rest, io);
        let before = partition(rest, io);
        let all = partition(pins, io);
        assert forall|k: int| 0 <= k < all.len() implies exists|i: int|
            0 <= i < pins.len() && pins[i].io == io && #[trigger] pins[i].pin == (
            #[trigger] all[k]).pin by {
            if k < before.len() {
                assert(all[k] == before[k]);
                let i = choose|i: int|
                    0 <= i < rest.len() && rest[i].io == io && #[trigger] rest[i].pin
                        == before[k].pin;
                assert(pins[i].pin == all[k].pin);
            } else {
                assert(pins[pins.len() - 1].pin == all[k].pin);
            }
        }
        assert forall|a: int, b: int| 0 <= a < b < all.len() implies #[trigger] all[a].pin
            != #[trigger] all[b].pin by {
            if b == before.len() {
                let i = choose|i: int|
                    0 <= i < rest.len() && rest[i].io == io && #[trigger] rest[i].pin
                        == before[a].pin;
                assert(!repeats_earlier(pins, pins.len() - 1));
                assert(pins[i].pin != pins[pins.len() - 1].pin);
            }
        }
    } else {
        assert(partition(pins, io).len() == 0);
    }
}

/// The two partitions of a configuration that names no identifier twice
/// share no identifier, and neither holds one twice.
pub proof fn law_partitions_are_disjoint(pins: Seq<PinConfig>)
    requires
        forall|j: int| 0 <= j < pins.len() ==> !repeats_earlier(pins, j),
    ensures
        disjoint_pins(partition(pins, PinIO::Readable), partition(pins, PinIO::Writeable)),
        distinct_pins(partition(pins, PinIO::Readable)),
        distinct_pins(partition(pins, PinIO::Writeable)),
{
    let r = partition(pins, PinIO::Readable);
    let w = partition(pins, PinIO::Writeable);
    lemma_partition_distinct(pins, PinIO::Readable);
    lemma_partition_distinct(pins, PinIO::Writeable);
    assert forall|a: int, b: int| 0 <= a < r.len() && 0 <= b < w.len() implies #[trigger] r[a].pin
        != #[trigger] w[b].pin by {
        let i = choose|i: int|
            0 <= i < pins.len() && pins[i].io == PinIO::Readable && #[trigger] pins[i].pin
                == r[a].pin;
        let j = choose|j: int|
            0 <= j < pins.len() && pins[j].io == PinIO::Writeable && #[trigger] pins[j].pin
                == w[b].pin;
        if r[a].pin == w[b].pin {
            if i < j {
                assert(!repeats_earlier(pins, j));
            } else {
                assert(!repeats_earlier(pins, i));
            }
        }
    }
}

impl PinDirectory {
    #[verifier::type_invariant]
    closed spec fn inv(self) -> bool {
        self@.wf()
    }

    /// The directory of a system without lines.
    pub fn empty() -> (d: PinDirectory)
        ensures
            d@.readable.len() == 0,
            d@.writeable.len() == 0,
    {
        PinDirectory { readable: Vec::new(), writeable: Vec::new() }
    }

    /// Builds the directory from the configured lines: each partition
    /// holds the lines of its direction, in configured order, at their
    /// initial levels. A list with inputs only or outputs only is valid.
    /// An empty list is refused; a caller that goes on without lines takes
    /// [`PinDirectory::empty`]. A list that names an identifier twice, in
    /// one direction or in both, is refused too; the identifier reported
    /// is that of the first entry that repeats an earlier one.
    pub fn build(pins: &Vec<PinConfig>) -> (r: Result<PinDirectory, ConfigurationError>)
        ensures
            match r {
                Ok(d) => {
                    &&& pins@.len() > 0
                    &&& forall|j: int| 0 <= j < pins@.len() ==> !repeats_earlier(pins@, j)
                    &&& d@.readable == partition(pins@, PinIO::Readable)
                    &&& d@.writeable == partition(pins@, PinIO::Writeable)
                    &&& d@.wf()
                },
                Err(ConfigurationError::NoPins) => pins@.len() == 0,
                Err(ConfigurationError::DuplicatePin(id)) => exists|j: int|
                    {
                        &&& 0 <= j < pins@.len()
                        &&& #[trigger] pins@[j].pin == id
                        &&& repeats_earlier(pins@, j)
                        &&& forall|k: int| 0 <= k < j ==> !repeats_earlier(pins@, k)
                    },
            },
    {
        if pins.len() == 0 {
            return Err(ConfigurationError::NoPins);
        }
        let mut seen: [bool; 256] = [false; 256];
        let mut readable: Vec<PinState> = Vec::new();
        let mut writeable: Vec<PinState> = Vec::new();
        let mut j: usize = 0;
        while j < pins.len()
            invariant
                j <= pins@.len(),
                forall|id: int|
                    0 <= id < 256 ==> (#[trigger] seen@[id] <==> exists|i: int|
                        0 <= i < j && #[trigger] pins@[i].pin == id),
                forall|k: int| 0 <= k < j ==> !repeats_earlier(pins@, k),
                readable@ == partition(pins@.take(j as int), PinIO::Readable),
                writeable@ == partition(pins@.take(j as int), PinIO::Writeable),
            decreases pins@.len() - j,
        {
            let config = pins[j];
            if seen[config.pin as usize] {
                return Err(ConfigurationError::DuplicatePin(config.pin));
            }
            seen[config.pin as usize] = true;
            let state = PinState { pin: config.pin, state: config.state };
            proof {
                pins@.lemma_filter_map_take_succ(initial_state(PinIO::Readable), j as int);
                pins@.lemma_filter_map_take_succ(initial_state(PinIO::Writeable), j as int);
            }
            match config.io {
                PinIO::Writeable => writeable.push(state),
                PinIO::Readable => readable.push(state),
            }
            j += 1;
        }
        proof {
            assert(pins@.take(j as int) == pins@);
            law_partitions_are_disjoint(pins@);
        }
        Ok(PinDirectory { readable, writeable })
    }

    /// The input lines, in configured order.
    pub fn readable(&self) -> (r: &Vec<PinState>)
        ensures
            r@ == self@.readable,
            self@.wf(),
    {
        proof {
            use_type_invariant(self);
        }
        &self.readable
    }

    /// The output lines, in configured order.
    pub fn writeable(&self) -> (r: &Vec<PinState>)
        ensures
            r@ == self@.writeable,
            self@.wf(),
    {
        proof {
            use_type_invariant(self);
        }
        &self.writeable
    }

    /// Looks an input line up by its identifier.
    pub fn lookup_readable(&self, pin: u8) -> (r: Option<PinState>)
        ensures
            match r {
                Some(state) => state.pin == pin && self@.readable.contains(state),
                None => !owns(self@.readable, pin),
            },
    {
        match find_pin(&self.readable, pin) {
            Some(i) => Some(self.readable[i]),
            None => None,
        }
    }

    /// Looks an output line up by its identifier.
    pub fn lookup_writeable(&self, pin: u8) -> (r: Option<PinState>)
        ensures
            match r {
                Some(state) => state.pin == pin && self@.writeable.contains(state),
                None => !owns(self@.writeable, pin),
            },
    {
        match find_pin(&self.writeable, pin) {
            Some(i) => Some(self.writeable[i]),
            None => None,
        }
    }

    /// Hands each partition to the worker that owns it from then on: the
    /// outputs to the listener, the inputs to the poller. The two share
    /// no line.
    pub fn split(self) -> (r: (Listener, Poller))
        ensures
            r.0@ == self@.writeable,
            r.1@ == self@.readable,
            disjoint_pins(r.1@, r.0@),
    {
        proof {
            use_type_invariant(&self);
        }
        (Listener::over(self.writeable), Poller::over(self.readable))
    }
}

} // verus!
