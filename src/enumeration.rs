//! Walking every device of a channel, one "next" call at a time.
//!
//! The holder of the channel hands the firmware the current cursor (`None`
//! asks for the first device), and gives what the call returned to `advance`.
use vstd::prelude::*;

use crate::scsi::ScsiDeviceLocation;
use crate::status::{Error, Status, NOT_FOUND, SUCCESS};

verus! {

/// Where a walk over a channel's devices stands.
#[derive(Clone, Copy, Debug, PartialEq, Eq, Structural)]
pub struct DeviceEnumeration {
    /// The last device returned; `None` before the first.
    pub cursor: Option<ScsiDeviceLocation>,
    /// Whether the firmware has reported that no further device exists.
    pub exhausted: bool,
}

/// A walk that has not begun.
pub open spec fn fresh_enumeration() -> DeviceEnumeration {
    DeviceEnumeration { cursor: None, exhausted: false }
}

/// One step of a walk, given the status and the location that a "next" call
/// returned: the next state, and the device found (`None` once exhausted).
pub open spec fn enumeration_step(e: DeviceEnumeration, s: Status, written: ScsiDeviceLocation) -> (
    DeviceEnumeration,
    Result<Option<ScsiDeviceLocation>, Error>,
) {
    if e.exhausted {
        (e, Ok(None))
    } else if s.0 == SUCCESS {
        (DeviceEnumeration { cursor: Some(written), exhausted: false }, Ok(Some(written)))
    } else if s.0 == NOT_FOUND {
        (DeviceEnumeration { cursor: e.cursor, exhausted: true }, Ok(None))
    } else {
        (e, Err(Error { status: s }))
    }
}

impl DeviceEnumeration {
    /// A walk that has not begun.
    pub fn start() -> (r: DeviceEnumeration)
        ensures
            r == fresh_enumeration(),
    {
        DeviceEnumeration { cursor: None, exhausted: false }
    }

    /// Takes what a "next" call returned. A success moves the cursor to the
    /// device found and returns it; not-found ends the walk; any other code is
    /// returned as an error and leaves the walk where it was. Once ended, the
    /// walk stays ended and finds nothing.
    pub fn advance(&mut self, status: Status, written: ScsiDeviceLocation) -> (r: Result<
        Option<ScsiDeviceLocation>,
        Error,
    >)
        ensures
            (*final(self), r) == enumeration_step(*old(self), status, written),
    {
        if self.exhausted {
            Ok(None)
        } else if status.0 == SUCCESS {
            self.cursor = Some(written);
            Ok(Some(written))
        } else if status.0 == NOT_FOUND {
            self.exhausted = true;
            Ok(None)
        } else {
            Err(Error { status })
        }
    }
}

/// How firmware with the fixed, ordered device list `ds` answers a "next" call
/// for `cursor`.
pub open spec fn static_channel_answer(ds: Seq<ScsiDeviceLocation>, cursor: Option<
    ScsiDeviceLocation,
>) -> (Status, ScsiDeviceLocation) {
    match cursor {
        None => if ds.len() > 0 {
            (Status(SUCCESS), ds[0])
        } else {
            (Status(NOT_FOUND), ScsiDeviceLocation { target: 0, lun: 0 })
        },
        Some(l) => if exists|k: int| 0 <= k < ds.len() - 1 && ds[k] == l {
            let k = choose|k: int| 0 <= k < ds.len() - 1 && ds[k] == l;
            (Status(SUCCESS), ds[k + 1])
        } else {
            (Status(NOT_FOUND), l)
        },
    }
}

/// The state after `n` steps of a fresh walk over that firmware, and what each
/// step found.
pub open spec fn static_channel_walk(ds: Seq<ScsiDeviceLocation>, n: nat) -> (
    DeviceEnumeration,
    Seq<Result<Option<ScsiDeviceLocation>, Error>>,
)
    decreases n,
{
    if n == 0 {
        (fresh_enumeration(), seq![])
    } else {
        let prev = static_channel_walk(ds, (n - 1) as nat);
        let answer = static_channel_answer(ds, prev.0.cursor);
        let step = enumeration_step(prev.0, answer.0, answer.1);
        (step.0, prev.1.push(step.1))
    }
}

proof fn lemma_walk_finds_each(ds: Seq<ScsiDeviceLocation>, i: nat)
    requires
        ds.no_duplicates(),
        i <= ds.len(),
    ensures
        !static_channel_walk(ds, i).0.exhausted,
        static_channel_walk(ds, i).0.cursor == (if i == 0 {
            None
        } else {
            Some(ds[i - 1])
        }),
        static_channel_walk(ds, i).1.len() == i,
        forall|j: int| 0 <= j < i ==> static_channel_walk(ds, i).1[j] == Ok::<
            Option<ScsiDeviceLocation>,
            Error,
        >(Some(ds[j])),
    decreases i,
{
    if i > 0 {
        lemma_walk_finds_each(ds, (i - 1) as nat);
        if i > 1 {
            let l = ds[i - 2];
            assert(0 <= i - 2 < ds.len() - 1 && ds[i - 2] == l);
            let k = choose|k: int| 0 <= k < ds.len() - 1 && ds[k] == l;
            assert(k == i - 2);
        }
    }
}

proof fn lemma_walk_after_end(ds: Seq<ScsiDeviceLocation>, m: nat)
    requires
        ds.no_duplicates(),
        m > ds.len(),
    ensures
        static_channel_walk(ds, m).0.exhausted,
        static_channel_walk(ds, m).1.len() == m,
        forall|j: int| 0 <= j < ds.len() ==> static_channel_walk(ds, m).1[j] == Ok::<
            Option<ScsiDeviceLocation>,
            Error,
        >(Some(ds[j])),
        forall|j: int| ds.len() <= j < m ==> static_channel_walk(ds, m).1[j] == Ok::<
            Option<ScsiDeviceLocation>,
            Error,
        >(None),
    decreases m,
{
    if m == ds.len() + 1 {
        lemma_walk_finds_each(ds, ds.len());
        if ds.len() > 0 {
            let l = ds[ds.len() - 1];
            assert(!exists|k: int| 0 <= k < ds.len() - 1 && ds[k] == l);
        }
    } else {
        lemma_walk_after_end(ds, (m - 1) as nat);
    }
}

/// On a channel whose devices do not change, a fresh walk finds each device
/// once, in the firmware's order, through as many successful calls as there are
/// devices; the next call reports that no device is left, and from then on the
/// walk finds nothing more.
pub proof fn lemma_static_channel_walk_ends(ds: Seq<ScsiDeviceLocation>, m: nat)
    requires
        ds.no_duplicates(),
        m > ds.len(),
    ensures
        static_channel_walk(ds, ds.len()).1 == ds.map_values(
            |d: ScsiDeviceLocation| Ok::<Option<ScsiDeviceLocation>, Error>(Some(d)),
        ),
        !static_channel_walk(ds, ds.len()).0.exhausted,
        static_channel_walk(ds, ds.len() + 1).0.exhausted,
        static_channel_walk(ds, m).0.exhausted,
        static_channel_walk(ds, m).1.subrange(0, ds.len() as int) == static_channel_walk(
            ds,
            ds.len(),
        ).1,
        forall|j: int| ds.len() <= j < m ==> static_channel_walk(ds, m).1[j] == Ok::<
            Option<ScsiDeviceLocation>,
            Error,
        >(None),
{
    lemma_walk_finds_each(ds, ds.len());
    lemma_walk_after_end(ds, ds.len() + 1);
    lemma_walk_after_end(ds, m);
    assert(static_channel_walk(ds, ds.len()).1 =~= ds.map_values(
        |d: ScsiDeviceLocation| Ok::<Option<ScsiDeviceLocation>, Error>(Some(d)),
    ));
    assert(static_channel_walk(ds, m).1.subrange(0, ds.len() as int) =~= static_channel_walk(
        ds,
        ds.len(),
    ).1);
}

} // verus!
