//! The capture pipeline's entry points: the device catalog, the device
//! selector and the event reader's run over a stream of reads.

use vstd::prelude::*;
use crate::device::{is_keyboard, listing_of, DeviceDescriptor};
use crate::event::{EventCode, BTN_LEFT, KEY_A, KEY_ENTER, KEY_Z};
use crate::reader::{ticks, ReadOutcome, ReaderState, Tick};

verus! {

/// Why a device node could not be examined.
#[derive(Clone, Copy, Debug, PartialEq, Eq, Structural)]
pub enum ProbeError {
    /// The device directory could not be listed at this entry.
    List,
    /// The device node could not be opened.
    Open,
    /// The opened node did not answer the capability query.
    Query,
}

/// The first failure of an enumeration: its place in enumeration order and
/// its cause.
#[derive(Clone, Copy, Debug, PartialEq, Eq, Structural)]
pub struct IoError {
    pub index: usize,
    pub cause: ProbeError,
}

/// Why no device was selected.
#[derive(Clone, Copy, Debug, PartialEq, Eq, Structural)]
pub enum SelectError {
    /// The enumeration failed.
    Io(IoError),
    /// No enumerated device is a keyboard.
    NotFound,
}

/// Every device node was examined.
pub open spec fn all_examined(probes: Seq<Result<DeviceDescriptor, ProbeError>>) -> bool {
    forall|i: int| 0 <= i < probes.len() ==> (#[trigger] probes[i]) is Ok
}

/// `error` is the first failure among the probes.
pub open spec fn first_failure(
    probes: Seq<Result<DeviceDescriptor, ProbeError>>,
    error: IoError,
) -> bool {
    &&& error.index < probes.len()
    &&& probes[error.index as int] == Err::<DeviceDescriptor, ProbeError>(error.cause)
    &&& forall|j: int| 0 <= j < error.index ==> (#[trigger] probes[j]) is Ok
}

/// The descriptors that the probes delivered, in enumeration order.
pub open spec fn descriptors(probes: Seq<Result<DeviceDescriptor, ProbeError>>) -> Seq<
    DeviceDescriptor,
> {
    Seq::new(probes.len(), |i: int| probes[i]->Ok_0)
}

/// The keyboards among the devices, in the order of the devices.
pub open spec fn keyboards(devices: Seq<DeviceDescriptor>) -> Seq<DeviceDescriptor> {
    devices.filter(|d: DeviceDescriptor| d.is_keyboard())
}

/// `index` is the place of the first keyboard among the devices.
pub open spec fn first_keyboard(devices: Seq<DeviceDescriptor>, index: int) -> bool {
    &&& 0 <= index < devices.len()
    &&& devices[index].is_keyboard()
    &&& forall|j: int| 0 <= j < index ==> !(#[trigger] devices[j]).is_keyboard()
}

/// The first keyboard is one device: no two places are both the first.
pub proof fn lemma_first_keyboard_unique(devices: Seq<DeviceDescriptor>, i: int, j: int)
    requires
        first_keyboard(devices, i),
        first_keyboard(devices, j),
    ensures
        i == j,
{
    if i < j {
        assert(!devices[i].is_keyboard());
    } else if j < i {
        assert(!devices[j].is_keyboard());
    }
}

/// With no keyboard among the devices the filtered sequence is empty; with
/// one, it starts with the first keyboard in the order of the devices.
pub proof fn lemma_first_keyboard(devices: Seq<DeviceDescriptor>)
    ensures
        keyboards(devices).len() == 0 <==> forall|i: int|
            0 <= i < devices.len() ==> !(#[trigger] devices[i]).is_keyboard(),
        keyboards(devices).len() > 0 ==> exists|i: int| #[trigger]
            first_keyboard(devices, i) && keyboards(devices)[0] == devices[i],
    decreases devices.len(),
{
    reveal(Seq::filter);
    if devices.len() > 0 {
        let front = devices.drop_last();
        lemma_first_keyboard(front);
        assert(forall|i: int| 0 <= i < front.len() ==> front[i] == devices[i]);
        if keyboards(front).len() > 0 {
            let i = choose|i: int| #[trigger]
                first_keyboard(front, i) && keyboards(front)[0] == front[i];
            assert(first_keyboard(devices, i));
        } else if devices.last().is_keyboard() {
            assert(first_keyboard(devices, devices.len() - 1));
        } else {
            assert forall|i: int| 0 <= i < devices.len() implies !(#[trigger] devices[i])
                .is_keyboard() by {
                if i < front.len() {
                    assert(front[i] == devices[i]);
                }
            }
        }
    }
}

/// Classifies a device by the capability heuristic: it is a keyboard if and
/// only if it supports Enter, A and Z and does not support the primary mouse
/// button.
pub fn is_keyboard_device(device: &DeviceDescriptor) -> (res: bool)
    ensures
        res == is_keyboard(device@.capabilities),
{
    let support_enter_key = device.supports(EventCode::key(KEY_ENTER));
    let support_a_key = device.supports(EventCode::key(KEY_A));
    let support_z_key = device.supports(EventCode::key(KEY_Z));
    let support_btn_mouse = device.supports(EventCode::key(BTN_LEFT));
    support_enter_key && support_a_key && support_z_key && !support_btn_mouse
}

/// The device catalog. Takes the outcome of examining each device node, in
/// enumeration order, and returns the keyboards among them in that order.
///
/// One node that could not be examined fails the whole enumeration with the
/// first failure. This is deliberate: a catalog that passed over the node
/// could lack the first keyboard, and the selector would settle on another
/// without a word.
pub fn devices(probes: Vec<Result<DeviceDescriptor, ProbeError>>) -> (res: Result<
    Vec<DeviceDescriptor>,
    IoError,
>)
    ensures
        res is Ok <==> all_examined(probes@),
        match res {
            Ok(found) => found@ == keyboards(descriptors(probes@)),
            Err(error) => first_failure(probes@, error),
        },
{
    let ghost all = probes@;
    let total = probes.len();
    let mut found: Vec<DeviceDescriptor> = Vec::new();
    let mut index: usize = 0;
    for probe in it: probes
        invariant
            it.seq() == all,
            all.len() == total,
            index == it.index(),
            forall|j: int| 0 <= j < index ==> (#[trigger] all[j]) is Ok,
            found@ == keyboards(descriptors(all).take(index as int)),
    {
        match probe {
            Ok(device) => {
                proof {
                    reveal(Seq::filter);
                    assert(descriptors(all).take(index + 1).drop_last() =~= descriptors(all).take(
                        index as int,
                    ));
                    assert(descriptors(all).take(index + 1).last() == device);
                }
                if is_keyboard_device(&device) {
                    found.push(device);
                }
            },
            Err(cause) => {
                return Err(IoError { index, cause });
            },
        }
        index += 1;
    }
    proof {
        assert(descriptors(all).take(index as int) =~= descriptors(all));
    }
    Ok(found)
}

/// The device selector: the first keyboard in enumeration order. Fails with
/// the enumeration's failure, or with `NotFound` when no device is a
/// keyboard.
pub fn select_device(probes: Vec<Result<DeviceDescriptor, ProbeError>>) -> (res: Result<
    DeviceDescriptor,
    SelectError,
>)
    ensures
        res is Ok <==> all_examined(probes@) && keyboards(descriptors(probes@)).len() > 0,
        res == Err::<DeviceDescriptor, SelectError>(SelectError::NotFound) <==> all_examined(
            probes@,
        ) && keyboards(descriptors(probes@)).len() == 0,
        match res {
            Ok(device) => {
                &&& device == keyboards(descriptors(probes@))[0]
                &&& exists|i: int| #[trigger]
                    first_keyboard(descriptors(probes@), i) && device == descriptors(probes@)[i]
            },
            Err(SelectError::Io(error)) => first_failure(probes@, error),
            Err(SelectError::NotFound) => forall|i: int|
                0 <= i < probes@.len() ==> !(#[trigger] descriptors(probes@)[i]).is_keyboard(),
        },
{
    proof {
        lemma_first_keyboard(descriptors(probes@));
    }
    match devices(probes) {
        Ok(mut found) => {
            if found.len() == 0 {
                Err(SelectError::NotFound)
            } else {
                Ok(found.swap_remove(0))
            }
        },
        Err(error) => Err(SelectError::Io(error)),
    }
}

/// The lines of the device listing: one for each keyboard of the catalog, in
/// enumeration order.
pub fn list(probes: Vec<Result<DeviceDescriptor, ProbeError>>) -> (res: Result<
    Vec<String>,
    IoError,
>)
    ensures
        res is Ok <==> all_examined(probes@),
        match res {
            Ok(lines) => {
                &&& lines@.len() == keyboards(descriptors(probes@)).len()
                &&& forall|k: int|
                    0 <= k < lines@.len() ==> (#[trigger] lines@[k])@ == listing_of(
                        keyboards(descriptors(probes@))[k]@,
                    )
            },
            Err(error) => first_failure(probes@, error),
        },
{
    let found = devices(probes)?;
    let mut lines: Vec<String> = Vec::new();
    for k in 0..found.len()
        invariant
            lines@.len() == k,
            forall|j: int| 0 <= j < k ==> (#[trigger] lines@[j])@ == listing_of(found@[j]@),
    {
        lines.push(found[k].listing());
    }
    Ok(lines)
}

/// Runs the event reader from the start of a session over a stream of read
/// outcomes and hands each tick to `handler`, in order. Returns the state in
/// which the reader is left.
pub fn listen(reads: &Vec<ReadOutcome>, handler: &mut Vec<Tick>) -> (state: ReaderState)
    ensures
        state == ReaderState::Synced.after_all(reads@),
        final(handler)@ == old(handler)@ + ticks(ReaderState::Synced.ticks_over(reads@)),
{
    let mut state = ReaderState::new();
    proof {
        assert(handler@ =~= old(handler)@ + ticks(0));
    }
    for i in 0..reads.len()
        invariant
            state == ReaderState::Synced.after_all(reads@.take(i as int)),
            handler@ == old(handler)@ + ticks(
                ReaderState::Synced.ticks_over(reads@.take(i as int)),
            ),
    {
        proof {
            assert(reads@.take(i + 1).drop_last() =~= reads@.take(i as int));
        }
        let (next, tick) = state.step(reads[i]);
        if let Some(t) = tick {
            handler.push(t);
        }
        state = next;
    }
    proof {
        assert(reads@.take(reads.len() as int) =~= reads@);
    }
    state
}

} // verus!
