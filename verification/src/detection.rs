//! The gamepad detector: a rotating, duplicate-free queue of eligible device
//! file paths, kept in sync with the folder events of the watched device
//! directory.
//!
//! The surrounding process owns the directory watch and the initial
//! directory scan; it hands decoded `FolderEvent` values (and scanned paths)
//! to the detector, which is the sole mutator of the queue.

use vstd::prelude::*;

use crate::bytes::bytes_equal;
use crate::bytes::clone_bytes;
use crate::folder_monitor::FolderEvent;
use crate::folder_monitor::FolderEventView;

verus! {

broadcast use crate::bytes::lemma_bytes_deep_view;

/// A failure to set the detector up: either the folder watch could not be
/// installed, or the initial directory scan failed (the carried value is its
/// `errno`).
#[derive(Clone, Debug, PartialEq, Eq)]
pub enum SetupError {
    CouldNotSetupFolderMonitor { source: crate::folder_monitor::SetupError },
    CouldNotScanForDeviceFiles { errno: i32 },
}

/// A failure while draining folder events for the detector.
#[derive(Clone, Debug, PartialEq, Eq)]
pub enum ProcessingError {
    FolderMonitorCouldNotProcessEvents { source: crate::folder_monitor::ProcessingError },
}

/// The byte `/`, the path separator.
pub const PATH_SEPARATOR: u8 = 47;

/// The file name of a path: the bytes after the last path separator, or the
/// whole path if it has none.
pub open spec fn spec_file_name(path: Seq<u8>) -> Seq<u8>
    decreases path.len(),
{
    if path.len() == 0 {
        path
    } else if path.last() == PATH_SEPARATOR {
        Seq::empty()
    } else {
        spec_file_name(path.drop_last()).push(path.last())
    }
}

/// A device file name: the literal prefix `js-evdev` followed by zero or
/// more decimal digits.
pub open spec fn spec_is_device_name(name: Seq<u8>) -> bool {
    &&& name.len() >= 8
    &&& name[0] == 106  // j
    &&& name[1] == 115  // s
    &&& name[2] == 45  // -
    &&& name[3] == 101  // e
    &&& name[4] == 118  // v
    &&& name[5] == 100  // d
    &&& name[6] == 101  // e
    &&& name[7] == 118  // v
    &&& forall|i: int| 8 <= i < name.len() ==> 48 <= #[trigger] name[i] <= 57  // decimal digits
}

/// Eligibility of a path for the device queue: its file name matches the
/// device name pattern.  (Whether the path names a directory can only be
/// answered by the file system; the caller filters directories out of
/// `Added` events before they reach the detector.)
pub open spec fn spec_is_gamepad_device_file(path: Seq<u8>) -> bool {
    spec_is_device_name(spec_file_name(path))
}

/// When `start` points just past the last separator, the file name is the
/// suffix of the path from `start`.
proof fn lemma_file_name_is_suffix(path: Seq<u8>, start: int)
    requires
        0 <= start <= path.len(),
        start > 0 ==> path[start - 1] == PATH_SEPARATOR,
        forall|k: int| start <= k < path.len() ==> #[trigger] path[k] != PATH_SEPARATOR,
    ensures
        spec_file_name(path) == path.subrange(start, path.len() as int),
    decreases path.len(),
{
    if path.len() == start {
        if path.len() == 0 {
            assert(path.subrange(0, 0) =~= path);
        } else {
            assert(path.last() == PATH_SEPARATOR);
            assert(path.subrange(start, path.len() as int) =~= Seq::<u8>::empty());
        }
    } else {
        assert(path.last() != PATH_SEPARATOR);
        let shorter = path.drop_last();
        assert(forall|k: int| start <= k < shorter.len() ==> #[trigger] shorter[k] != PATH_SEPARATOR);
        lemma_file_name_is_suffix(shorter, start);
        assert(shorter.subrange(start, shorter.len() as int) =~= path.subrange(
            start,
            path.len() - 1,
        ));
        assert(path.subrange(start, path.len() - 1).push(path.last()) =~= path.subrange(
            start,
            path.len() as int,
        ));
    }
}

/// Decide whether a path is an eligible gamepad device file.
pub fn is_gamepad_device_file(path: &Vec<u8>) -> (eligible: bool)
    ensures
        eligible == spec_is_gamepad_device_file(path@),
{
    // Find the start of the file name: the index just past the last separator.
    let mut start: usize = 0;
    let mut index: usize = 0;
    while index < path.len()
        invariant
            start <= index <= path.len(),
            start > 0 ==> path@[start - 1] == PATH_SEPARATOR,
            forall|k: int| start <= k < index ==> #[trigger] path@[k] != PATH_SEPARATOR,
        decreases path.len() - index,
    {
        if path[index] == PATH_SEPARATOR {
            start = index + 1;
        }
        index = index + 1;
    }
    proof {
        lemma_file_name_is_suffix(path@, start as int);
    }
    let ghost name: Seq<u8> = spec_file_name(path@);
    let name_length = path.len() - start;
    if name_length < 8 {
        return false;
    }
    if path[start] != 106 || path[start + 1] != 115 || path[start + 2] != 45 || path[start + 3]
        != 101 || path[start + 4] != 118 || path[start + 5] != 100 || path[start + 6] != 101
        || path[start + 7] != 118 {
        return false;
    }
    let mut offset: usize = 8;
    while start + offset < path.len()
        invariant
            8 <= offset,
            start + offset <= path.len(),
            name == spec_file_name(path@),
            name == path@.subrange(start as int, path@.len() as int),
            forall|i: int| 8 <= i < offset ==> 48 <= #[trigger] name[i] <= 57,
        decreases path.len() - start - offset,
    {
        let byte = path[start + offset];
        if byte < 48 || byte > 57 {
            assert(name[offset as int] == byte);
            return false;
        }
        offset = offset + 1;
    }
    true
}

/// The queue after removing every entry equal to `path`.
pub open spec fn spec_remove_device(devices: Seq<Seq<u8>>, path: Seq<u8>) -> Seq<Seq<u8>>
    decreases devices.len(),
{
    if devices.len() == 0 {
        devices
    } else if devices[0] == path {
        spec_remove_device(devices.drop_first(), path)
    } else {
        seq![devices[0]] + spec_remove_device(devices.drop_first(), path)
    }
}

/// What removal does to the queue: the removed path is gone, everything else
/// keeps its presence, duplicates do not appear, and on a duplicate-free
/// queue exactly one entry disappears when the path was present.
pub proof fn lemma_remove_device(devices: Seq<Seq<u8>>, path: Seq<u8>)
    ensures
        spec_remove_device(devices, path).len() <= devices.len(),
        !spec_remove_device(devices, path).contains(path),
        forall|x: Seq<u8>|
            #[trigger] spec_remove_device(devices, path).contains(x) ==> devices.contains(x),
        forall|x: Seq<u8>|
            x != path && devices.contains(x) ==> #[trigger] spec_remove_device(
                devices,
                path,
            ).contains(x),
        devices.no_duplicates() ==> spec_remove_device(devices, path).no_duplicates(),
        !devices.contains(path) ==> spec_remove_device(devices, path) == devices,
        devices.no_duplicates() && devices.contains(path) ==> spec_remove_device(
            devices,
            path,
        ).len() == devices.len() - 1,
    decreases devices.len(),
{
    if devices.len() == 0 {
    } else {
        let rest = devices.drop_first();
        lemma_remove_device(rest, path);
        assert(forall|i: int| 0 <= i < rest.len() ==> rest[i] == devices[i + 1]);
        assert(rest.contains(path) ==> devices.contains(path)) by {
            if rest.contains(path) {
                let i = choose|i: int| 0 <= i < rest.len() && rest[i] == path;
                assert(devices[i + 1] == path);
            }
        }
        let shrunk_rest = spec_remove_device(rest, path);
        if devices[0] == path {
            let removed = spec_remove_device(devices, path);
            assert(removed == shrunk_rest);
            assert(devices.contains(path));
            assert forall|x: Seq<u8>| #[trigger] removed.contains(x) implies devices.contains(
                x,
            ) by {
                assert(rest.contains(x));
                let i = choose|i: int| 0 <= i < rest.len() && rest[i] == x;
                assert(devices[i + 1] == x);
            }
            assert forall|x: Seq<u8>| x != path && devices.contains(x) implies removed.contains(
                x,
            ) by {
                let i = choose|i: int| 0 <= i < devices.len() && devices[i] == x;
                assert(i >= 1);
                assert(rest[i - 1] == x);
                assert(rest.contains(x));
            }
            if devices.no_duplicates() {
                assert(rest.no_duplicates());
                assert(!rest.contains(path)) by {
                    if rest.contains(path) {
                        let i = choose|i: int| 0 <= i < rest.len() && rest[i] == path;
                        assert(devices[i + 1] == devices[0]);
                    }
                }
                assert(removed == rest);
            }
        } else {
            let removed = seq![devices[0]] + shrunk_rest;
            assert(spec_remove_device(devices, path) == removed);
            assert(removed[0] == devices[0]);
            assert(forall|i: int| 1 <= i < removed.len() ==> removed[i] == shrunk_rest[i - 1]);
            assert(!removed.contains(path)) by {
                if removed.contains(path) {
                    let i = choose|i: int| 0 <= i < removed.len() && removed[i] == path;
                    assert(i >= 1);
                    assert(shrunk_rest[i - 1] == path);
                    assert(shrunk_rest.contains(path));
                }
            }
            assert forall|x: Seq<u8>| #[trigger] removed.contains(x) implies devices.contains(
                x,
            ) by {
                let i = choose|i: int| 0 <= i < removed.len() && removed[i] == x;
                if i == 0 {
                    assert(devices[0] == x);
                } else {
                    assert(shrunk_rest[i - 1] == x);
                    assert(shrunk_rest.contains(x));
                    assert(rest.contains(x));
                    let j = choose|j: int| 0 <= j < rest.len() && rest[j] == x;
                    assert(devices[j + 1] == x);
                }
            }
            assert forall|x: Seq<u8>| x != path && devices.contains(x) implies removed.contains(
                x,
            ) by {
                let i = choose|i: int| 0 <= i < devices.len() && devices[i] == x;
                if i == 0 {
                    assert(removed[0] == x);
                } else {
                    assert(rest[i - 1] == x);
                    assert(rest.contains(x));
                    assert(shrunk_rest.contains(x));
                    let j = choose|j: int| 0 <= j < shrunk_rest.len() && shrunk_rest[j] == x;
                    assert(removed[j + 1] == x);
                }
            }
            if devices.no_duplicates() {
                assert(rest.no_duplicates());
                assert(!rest.contains(devices[0])) by {
                    if rest.contains(devices[0]) {
                        let i = choose|i: int| 0 <= i < rest.len() && rest[i] == devices[0];
                        assert(devices[i + 1] == devices[0]);
                    }
                }
                assert(!shrunk_rest.contains(devices[0]));
                assert forall|i: int, j: int|
                    0 <= i < j < removed.len() implies removed[i] != removed[j] by {
                    if i >= 1 {
                        assert(removed[i] == shrunk_rest[i - 1]);
                        assert(removed[j] == shrunk_rest[j - 1]);
                    } else {
                        assert(removed[j] == shrunk_rest[j - 1]);
                        assert(shrunk_rest.contains(shrunk_rest[j - 1]));
                    }
                }
                assert(removed.no_duplicates());
            }
            if !devices.contains(path) {
                assert(!rest.contains(path));
                assert(removed =~= devices);
            }
            if devices.contains(path) {
                assert(rest.contains(path)) by {
                    let i = choose|i: int| 0 <= i < devices.len() && devices[i] == path;
                    assert(i >= 1);
                    assert(rest[i - 1] == path);
                }
            }
        }
    }
}

/// The effect of one folder event on the device queue: an eligible, absent
/// `Added` path is appended; an eligible `Removed` path is removed; attribute
/// changes are deliberately ignored; a kernel queue overflow clears the
/// queue.
pub open spec fn spec_apply_folder_event(devices: Seq<Seq<u8>>, event: FolderEventView) -> Seq<
    Seq<u8>,
> {
    match event {
        FolderEventView::Added(path) => {
            if spec_is_gamepad_device_file(path) && !devices.contains(path) {
                devices.push(path)
            } else {
                devices
            }
        },
        FolderEventView::Removed(path) => {
            if spec_is_gamepad_device_file(path) {
                spec_remove_device(devices, path)
            } else {
                devices
            }
        },
        FolderEventView::AttributesChanged(_) => devices,
        FolderEventView::EventQueueOverflowed => Seq::empty(),
    }
}

/// The device queue after folding a whole batch of folder events, first to
/// last.
pub open spec fn spec_apply_folder_events(devices: Seq<Seq<u8>>, events: Seq<FolderEventView>) -> Seq<
    Seq<u8>,
>
    decreases events.len(),
{
    if events.len() == 0 {
        devices
    } else {
        spec_apply_folder_events(spec_apply_folder_event(devices, events[0]), events.drop_first())
    }
}

/// A single event keeps the queue duplicate-free.
pub proof fn lemma_apply_event_preserves_no_duplicates(
    devices: Seq<Seq<u8>>,
    event: FolderEventView,
)
    requires
        devices.no_duplicates(),
    ensures
        spec_apply_folder_event(devices, event).no_duplicates(),
{
    match event {
        FolderEventView::Added(path) => {
            if spec_is_gamepad_device_file(path) && !devices.contains(path) {
                assert(forall|i: int|
                    0 <= i < devices.len() ==> #[trigger] devices.push(path)[i] == devices[i]);
                assert(devices.push(path).no_duplicates());
            }
        },
        FolderEventView::Removed(path) => {
            lemma_remove_device(devices, path);
        },
        FolderEventView::AttributesChanged(_) => {},
        FolderEventView::EventQueueOverflowed => {},
    }
}

/// The queue rotated left by one position, which `next_gamepad_device`
/// performs on queues of two or more entries so that candidates are tried
/// round-robin.
pub open spec fn spec_rotate_once(devices: Seq<Seq<u8>>) -> Seq<Seq<u8>> {
    if devices.len() >= 2 {
        devices.subrange(1, devices.len() as int) + devices.subrange(0, 1)
    } else {
        devices
    }
}

/// The devices handed out by a run of successive `next_gamepad_device`
/// calls: each call first rotates the queue, then yields its front.
pub open spec fn spec_successive_devices(devices: Seq<Seq<u8>>, calls: nat) -> Seq<Seq<u8>>
    decreases calls,
{
    if calls == 0 {
        Seq::empty()
    } else {
        let rotated = spec_rotate_once(devices);
        let head: Seq<Seq<u8>> = if rotated.len() == 0 {
            Seq::empty()
        } else {
            seq![rotated[0]]
        };
        head + spec_successive_devices(rotated, (calls - 1) as nat)
    }
}

/// Indexing of successive devices: call `j` yields entry `j + 1` of the
/// original queue, wrapping around to the front on the last call.
pub proof fn lemma_successive_device_indices(devices: Seq<Seq<u8>>, calls: nat)
    requires
        devices.len() >= 2,
        calls <= devices.len(),
    ensures
        spec_successive_devices(devices, calls).len() == calls,
        forall|j: int|
            0 <= j < calls ==> #[trigger] spec_successive_devices(devices, calls)[j] == (if j + 1
                < devices.len() {
                devices[j + 1]
            } else {
                devices[0]
            }),
    decreases calls,
{
    if calls > 0 {
        let rotated = spec_rotate_once(devices);
        assert(rotated.len() == devices.len());
        assert(forall|m: int|
            0 <= m < rotated.len() ==> #[trigger] rotated[m] == (if m < devices.len() - 1 {
                devices[m + 1]
            } else {
                devices[0]
            }));
        lemma_successive_device_indices(rotated, (calls - 1) as nat);
    }
}

/// Round-robin fairness: on a queue of `k >= 2` devices, `k` successive
/// calls of `next_gamepad_device` hand out exactly the members of the queue,
/// each one exactly once.
pub proof fn lemma_round_robin_fairness(devices: Seq<Seq<u8>>)
    requires
        devices.len() >= 2,
    ensures
        spec_successive_devices(devices, devices.len()).to_multiset() == devices.to_multiset(),
{
    let count = devices.len();
    lemma_successive_device_indices(devices, count);
    let results = spec_successive_devices(devices, count);
    let back = devices.subrange(1, count as int);
    let front = devices.subrange(0, 1);
    assert(results =~= back + front);
    assert(devices =~= front + back);
    vstd::seq_lib::lemma_multiset_commutative(back, front);
    vstd::seq_lib::lemma_multiset_commutative(front, back);
    assert(back.to_multiset().add(front.to_multiset()) =~= front.to_multiset().add(
        back.to_multiset(),
    ));
}

/// The rotating queue of eligible gamepad device paths.
pub struct GamepadDetector {
    pub gamepad_devices: Vec<Vec<u8>>,
}

impl View for GamepadDetector {
    type V = Seq<Seq<u8>>;

    open spec fn view(&self) -> Seq<Seq<u8>> {
        self.gamepad_devices.deep_view()
    }
}

impl GamepadDetector {
    /// The queue never holds the same path twice.
    pub open spec fn wf(&self) -> bool {
        self@.no_duplicates()
    }

    /// A detector with an empty queue.  The caller installs the directory
    /// watch first and only then scans the directory, registering each hit,
    /// so that no device appearing in the gap is missed.
    pub fn new() -> (detector: GamepadDetector)
        ensures
            detector@ == Seq::<Seq<u8>>::empty(),
            detector.wf(),
    {
        let detector = GamepadDetector { gamepad_devices: Vec::new() };
        proof {
            assert(detector@ =~= Seq::<Seq<u8>>::empty());
        }
        detector
    }

    /// Whether the queue holds `path`.
    fn contains_device(&self, path: &Vec<u8>) -> (found: bool)
        ensures
            found == self@.contains(path@),
    {
        let mut index: usize = 0;
        while index < self.gamepad_devices.len()
            invariant
                index <= self.gamepad_devices.len(),
                self@.len() == self.gamepad_devices.len(),
                forall|k: int| 0 <= k < index ==> #[trigger] self@[k] != path@,
            decreases self.gamepad_devices.len() - index,
        {
            if bytes_equal(&self.gamepad_devices[index], path) {
                assert(self@[index as int] == path@);
                return true;
            }
            index = index + 1;
        }
        false
    }

    /// Append `path` if it is an eligible device file not yet in the queue.
    /// This is both the handling of an `Added` folder event and the
    /// registration of one initial directory-scan hit.
    pub fn register_device(&mut self, path: &Vec<u8>)
        requires
            old(self).wf(),
        ensures
            final(self)@ == spec_apply_folder_event(old(self)@, FolderEventView::Added(path@)),
            final(self).wf(),
    {
        let ghost previous: Seq<Seq<u8>> = self@;
        if is_gamepad_device_file(path) {
            if !self.contains_device(path) {
                self.gamepad_devices.push(clone_bytes(path));
                proof {
                    assert(self@ =~= previous.push(path@));
                    lemma_apply_event_preserves_no_duplicates(
                        previous,
                        FolderEventView::Added(path@),
                    );
                }
            }
        }
    }

    /// Remove every queue entry equal to `path`.
    fn remove_device(&mut self, path: &Vec<u8>)
        ensures
            final(self)@ == spec_remove_device(old(self)@, path@),
    {
        let ghost previous: Seq<Seq<u8>> = self@;
        let mut kept: Vec<Vec<u8>> = Vec::new();
        let mut index: usize = 0;
        proof {
            assert(kept.deep_view() =~= Seq::<Seq<u8>>::empty());
            assert(previous.skip(0) =~= previous);
            assert(kept.deep_view() + spec_remove_device(previous, path@) =~= spec_remove_device(
                previous,
                path@,
            ));
        }
        while index < self.gamepad_devices.len()
            invariant
                index <= self.gamepad_devices.len(),
                previous == self.gamepad_devices.deep_view(),
                previous.len() == self.gamepad_devices.len(),
                spec_remove_device(previous, path@) == kept.deep_view() + spec_remove_device(
                    previous.skip(index as int),
                    path@,
                ),
            decreases self.gamepad_devices.len() - index,
        {
            let ghost remaining: Seq<Seq<u8>> = previous.skip(index as int);
            proof {
                assert(remaining[0] == previous[index as int]);
                assert(remaining.drop_first() =~= previous.skip(index as int + 1));
            }
            if !bytes_equal(&self.gamepad_devices[index], path) {
                let ghost kept_before: Seq<Seq<u8>> = kept.deep_view();
                kept.push(clone_bytes(&self.gamepad_devices[index]));
                proof {
                    assert(kept.deep_view() =~= kept_before.push(previous[index as int]));
                    assert(kept_before.push(previous[index as int]) + spec_remove_device(
                        previous.skip(index as int + 1),
                        path@,
                    ) =~= kept_before + (seq![previous[index as int]] + spec_remove_device(
                        previous.skip(index as int + 1),
                        path@,
                    )));
                }
            }
            index = index + 1;
        }
        proof {
            assert(previous.skip(previous.len() as int) =~= Seq::<Seq<u8>>::empty());
            assert(kept.deep_view() + Seq::<Seq<u8>>::empty() =~= kept.deep_view());
        }
        self.gamepad_devices = kept;
    }

    /// Fold a batch of folder events into the queue, first to last.  The
    /// caller is expected to filter directories out of `Added` events, since
    /// only the file system can tell them apart from device files.
    pub fn process_updates(&mut self, events: &Vec<FolderEvent>)
        requires
            old(self).wf(),
        ensures
            final(self)@ == spec_apply_folder_events(old(self)@, events.deep_view()),
            final(self).wf(),
    {
        let ghost initial: Seq<Seq<u8>> = self@;
        let ghost all_events: Seq<FolderEventView> = events.deep_view();
        let mut index: usize = 0;
        proof {
            assert(all_events.skip(0) =~= all_events);
        }
        while index < events.len()
            invariant
                index <= events.len(),
                all_events == events.deep_view(),
                all_events.len() == events.len(),
                self.wf(),
                spec_apply_folder_events(initial, all_events) == spec_apply_folder_events(
                    self@,
                    all_events.skip(index as int),
                ),
            decreases events.len() - index,
        {
            let ghost remaining: Seq<FolderEventView> = all_events.skip(index as int);
            proof {
                assert(remaining[0] == all_events[index as int]);
                assert(remaining.drop_first() =~= all_events.skip(index as int + 1));
            }
            let ghost before: Seq<Seq<u8>> = self@;
            match &events[index] {
                FolderEvent::Added(path) => {
                    self.register_device(path);
                },
                FolderEvent::Removed(path) => {
                    if is_gamepad_device_file(path) {
                        self.remove_device(path);
                        proof {
                            lemma_remove_device(before, path@);
                        }
                    }
                },
                FolderEvent::AttributesChanged(_) => {},
                FolderEvent::EventQueueOverflowed => {
                    self.gamepad_devices.clear();
                    proof {
                        assert(self@ =~= Seq::<Seq<u8>>::empty());
                    }
                },
            }
            proof {
                assert(self@ == spec_apply_folder_event(before, all_events[index as int]));
            }
            index = index + 1;
        }
        proof {
            assert(all_events.skip(all_events.len() as int) =~= Seq::<FolderEventView>::empty());
        }
    }

    /// Rotate the queue left by one when it has at least two entries, then
    /// return its front, so that repeated calls try each available device in
    /// turn.
    pub fn next_gamepad_device(&mut self) -> (device: Option<Vec<u8>>)
        requires
            old(self).wf(),
        ensures
            final(self)@ == spec_rotate_once(old(self)@),
            final(self).wf(),
            device is Some <==> old(self)@.len() > 0,
            device matches Some(path) ==> path@ == spec_rotate_once(old(self)@)[0],
    {
        let ghost previous: Seq<Seq<u8>> = self@;
        if self.gamepad_devices.len() > 1 {
            let front = self.gamepad_devices.remove(0);
            self.gamepad_devices.push(front);
            proof {
                assert(self@ =~= previous.subrange(1, previous.len() as int) + previous.subrange(
                    0,
                    1,
                ));
                assert(forall|i: int|
                    0 <= i < self@.len() ==> #[trigger] self@[i] == (if i < previous.len() - 1 {
                        previous[i + 1]
                    } else {
                        previous[0]
                    }));
                assert(self.wf());
            }
        }
        if self.gamepad_devices.len() > 0 {
            Some(clone_bytes(&self.gamepad_devices[0]))
        } else {
            None
        }
    }
}

/// Queue growth under insertion (the invariant behind the detector's
/// bookkeeping): folding `Added` events for distinct eligible paths, none of
/// them present yet, appends exactly those paths in order.
pub proof fn lemma_adds_append_in_order(devices: Seq<Seq<u8>>, paths: Seq<Seq<u8>>)
    requires
        paths.no_duplicates(),
        forall|i: int| 0 <= i < paths.len() ==> spec_is_gamepad_device_file(#[trigger] paths[i]),
        forall|i: int| 0 <= i < paths.len() ==> !devices.contains(#[trigger] paths[i]),
    ensures
        spec_apply_folder_events(
            devices,
            paths.map_values(|p: Seq<u8>| FolderEventView::Added(p)),
        ) == devices + paths,
    decreases paths.len(),
{
    let events = paths.map_values(|p: Seq<u8>| FolderEventView::Added(p));
    if paths.len() == 0 {
        assert(devices + paths =~= devices);
    } else {
        let first = paths[0];
        assert(events[0] == FolderEventView::Added(first));
        let pushed = devices.push(first);
        assert(spec_apply_folder_event(devices, events[0]) == pushed);
        let rest = paths.drop_first();
        assert(rest.no_duplicates());
        assert(forall|i: int| 0 <= i < rest.len() ==> rest[i] == paths[i + 1]);
        assert(forall|i: int| 0 <= i < rest.len() ==> !pushed.contains(#[trigger] rest[i])) by {
            assert(forall|i: int|
                0 <= i < pushed.len() ==> #[trigger] pushed[i] == (if i < devices.len() {
                    devices[i]
                } else {
                    first
                }));
        }
        lemma_adds_append_in_order(pushed, rest);
        assert(events.drop_first() =~= rest.map_values(|p: Seq<u8>| FolderEventView::Added(p)));
        assert(pushed + rest =~= devices + paths);
    }
}

/// Queue shrinkage under removal: folding `Removed` events for distinct
/// eligible paths, all of them present in a duplicate-free queue, removes
/// exactly one entry each.
pub proof fn lemma_removes_shrink_queue(devices: Seq<Seq<u8>>, paths: Seq<Seq<u8>>)
    requires
        devices.no_duplicates(),
        paths.no_duplicates(),
        forall|i: int| 0 <= i < paths.len() ==> spec_is_gamepad_device_file(#[trigger] paths[i]),
        forall|i: int| 0 <= i < paths.len() ==> devices.contains(#[trigger] paths[i]),
    ensures
        spec_apply_folder_events(
            devices,
            paths.map_values(|p: Seq<u8>| FolderEventView::Removed(p)),
        ).len() == devices.len() - paths.len(),
        spec_apply_folder_events(
            devices,
            paths.map_values(|p: Seq<u8>| FolderEventView::Removed(p)),
        ).no_duplicates(),
    decreases paths.len(),
{
    let events = paths.map_values(|p: Seq<u8>| FolderEventView::Removed(p));
    if paths.len() > 0 {
        let first = paths[0];
        assert(events[0] == FolderEventView::Removed(first));
        let shrunk = spec_remove_device(devices, first);
        lemma_remove_device(devices, first);
        let rest = paths.drop_first();
        assert(rest.no_duplicates());
        assert(forall|i: int| 0 <= i < rest.len() ==> rest[i] == paths[i + 1]);
        assert(forall|i: int| 0 <= i < rest.len() ==> shrunk.contains(#[trigger] rest[i])) by {
            assert(forall|i: int| 0 <= i < rest.len() ==> #[trigger] rest[i] != first);
        }
        lemma_removes_shrink_queue(shrunk, rest);
        assert(events.drop_first() =~= rest.map_values(|p: Seq<u8>| FolderEventView::Removed(p)));
    }
}

/// The detector's counting law: starting from an empty queue, `n` `Added`
/// events with distinct eligible paths followed by `m <= n` `Removed` events
/// with distinct paths among them leave exactly `n - m` devices, and the
/// insertion phase preserves the order of the added paths.
pub proof fn lemma_detector_queue_size(adds: Seq<Seq<u8>>, removes: Seq<Seq<u8>>)
    requires
        adds.no_duplicates(),
        removes.no_duplicates(),
        forall|i: int| 0 <= i < adds.len() ==> spec_is_gamepad_device_file(#[trigger] adds[i]),
        forall|i: int| 0 <= i < removes.len() ==> adds.contains(#[trigger] removes[i]),
    ensures
        spec_apply_folder_events(
            Seq::empty(),
            adds.map_values(|p: Seq<u8>| FolderEventView::Added(p)),
        ) == adds,
        spec_apply_folder_events(
            Seq::empty(),
            adds.map_values(|p: Seq<u8>| FolderEventView::Added(p)) + removes.map_values(
                |p: Seq<u8>| FolderEventView::Removed(p),
            ),
        ).len() == adds.len() - removes.len(),
{
    let add_events = adds.map_values(|p: Seq<u8>| FolderEventView::Added(p));
    let remove_events = removes.map_values(|p: Seq<u8>| FolderEventView::Removed(p));
    lemma_adds_append_in_order(Seq::empty(), adds);
    assert(Seq::<Seq<u8>>::empty() + adds =~= adds);
    lemma_apply_events_concat(Seq::empty(), add_events, remove_events);
    assert(forall|i: int|
        0 <= i < removes.len() ==> spec_is_gamepad_device_file(#[trigger] removes[i]));
    lemma_removes_shrink_queue(adds, removes);
}

/// Folding a concatenation of event batches is folding one after the other.
pub proof fn lemma_apply_events_concat(
    devices: Seq<Seq<u8>>,
    first: Seq<FolderEventView>,
    second: Seq<FolderEventView>,
)
    ensures
        spec_apply_folder_events(devices, first + second) == spec_apply_folder_events(
            spec_apply_folder_events(devices, first),
            second,
        ),
    decreases first.len(),
{
    if first.len() == 0 {
        assert(first + second =~= second);
    } else {
        assert((first + second)[0] == first[0]);
        assert((first + second).drop_first() =~= first.drop_first() + second);
        lemma_apply_events_concat(
            spec_apply_folder_event(devices, first[0]),
            first.drop_first(),
            second,
        );
    }
}

} // verus!
