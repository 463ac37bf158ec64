//! Decoding of the packed inotify event stream for one watched directory.
//!
//! The surrounding process owns the inotify descriptor and reads raw bytes
//! from it; the parsing of those bytes into `FolderEvent` values — headers at
//! unaligned offsets, variable-length NUL-padded names, mask decoding — is
//! done here and verified against `spec_parse_folder_events`.

use vstd::prelude::*;

verus! {

// Inotify event mask bits, as the kernel defines them.
pub const IN_ATTRIB: u32 = 0x0000_0004;
pub const IN_MOVED_FROM: u32 = 0x0000_0040;
pub const IN_MOVED_TO: u32 = 0x0000_0080;
pub const IN_CREATE: u32 = 0x0000_0100;
pub const IN_DELETE: u32 = 0x0000_0200;
pub const IN_Q_OVERFLOW: u32 = 0x0000_4000;
pub const IN_ONLYDIR: u32 = 0x0100_0000;

/// The event set a folder watch subscribes to: everything the detector needs
/// to maintain its device queue, restricted to directories.
pub const FOLDER_WATCH_MASK: u32 = IN_CREATE | IN_MOVED_TO | IN_ATTRIB | IN_DELETE | IN_MOVED_FROM
    | IN_ONLYDIR;

/// The size of the fixed inotify event header: watch descriptor, mask,
/// cookie and name length, four bytes each.
pub const INOTIFY_HEADER_SIZE: usize = 16;

/// One decoded file-system event for the watched directory.  Paths are the
/// raw bytes of the full path of the affected entry.
#[derive(Debug, Clone, PartialEq, Eq)]
pub enum FolderEvent {
    Added(Vec<u8>),
    Removed(Vec<u8>),
    AttributesChanged(Vec<u8>),
    EventQueueOverflowed,
}

/// The mathematical shape of a `FolderEvent`: the same variants over byte
/// sequences.
pub enum FolderEventView {
    Added(Seq<u8>),
    Removed(Seq<u8>),
    AttributesChanged(Seq<u8>),
    EventQueueOverflowed,
}

impl DeepView for FolderEvent {
    type V = FolderEventView;

    open spec fn deep_view(&self) -> FolderEventView {
        match self {
            FolderEvent::Added(path) => FolderEventView::Added(path@),
            FolderEvent::Removed(path) => FolderEventView::Removed(path@),
            FolderEvent::AttributesChanged(path) => FolderEventView::AttributesChanged(path@),
            FolderEvent::EventQueueOverflowed => FolderEventView::EventQueueOverflowed,
        }
    }
}

/// A failure to install the folder watch.  Setup errors are fatal at
/// startup; the carried value is the `errno` of the failed call.
#[derive(Clone, Debug, PartialEq, Eq)]
pub enum SetupError {
    CouldNotCreateFileDescriptor { errno: i32 },
    CouldNotAddWatch { errno: i32 },
}

/// A failure while draining the watch descriptor.  A would-block condition
/// is not an error (the drain simply yields no events); anything else is
/// unrecoverable for the watch.
#[derive(Clone, Debug, PartialEq, Eq)]
pub enum ProcessingError {
    CouldNotReadFromFileDescriptor { errno: i32 },
}

/// The little-endian 32-bit value stored at `offset`.
pub open spec fn spec_u32_at(buf: Seq<u8>, offset: int) -> u32
    recommends
        0 <= offset,
        offset + 4 <= buf.len(),
{
    (buf[offset] + buf[offset + 1] * 0x100 + buf[offset + 2] * 0x1_0000 + buf[offset + 3]
        * 0x100_0000) as u32
}

/// The name carried by an inotify record: the bytes of the name field up to
/// its first NUL terminator (the remainder is padding).
pub open spec fn spec_name_bytes(field: Seq<u8>) -> Seq<u8>
    decreases field.len(),
{
    if field.len() == 0 {
        field
    } else if field[0] == 0 {
        Seq::empty()
    } else {
        seq![field[0]] + spec_name_bytes(field.drop_first())
    }
}

/// A file name joined onto the watched directory path.
pub open spec fn spec_join_path(folder: Seq<u8>, name: Seq<u8>) -> Seq<u8> {
    if folder.len() > 0 && folder.last() == 47 {
        folder + name
    } else {
        folder + seq![47u8] + name
    }
}

/// The event described by one record's mask and name field, if any: the
/// field must be NUL-terminated (the kernel pads it with NULs), and the mask
/// must carry one of the watched change bits.
pub open spec fn spec_record_event(folder: Seq<u8>, mask: u32, field: Seq<u8>) -> Option<
    FolderEventView,
> {
    if field.len() == 0 || field.last() != 0 {
        None
    } else {
        let path = spec_join_path(folder, spec_name_bytes(field));
        if mask & (IN_CREATE | IN_MOVED_TO) != 0 {
            Some(FolderEventView::Added(path))
        } else if mask & (IN_DELETE | IN_MOVED_FROM) != 0 {
            Some(FolderEventView::Removed(path))
        } else if mask & IN_ATTRIB != 0 {
            Some(FolderEventView::AttributesChanged(path))
        } else {
            None
        }
    }
}

/// The events of one record beyond its optional queue-overflow marker.
pub open spec fn spec_record_name_events(folder: Seq<u8>, mask: u32, field: Seq<u8>) -> Seq<
    FolderEventView,
> {
    match spec_record_event(folder, mask, field) {
        Some(event) => seq![event],
        None => Seq::empty(),
    }
}

/// The queue-overflow marker of one record, emitted independently of any
/// other bits of the same record.
pub open spec fn spec_record_overflow(mask: u32) -> Seq<FolderEventView> {
    if mask & IN_Q_OVERFLOW != 0 {
        seq![FolderEventView::EventQueueOverflowed]
    } else {
        Seq::empty()
    }
}

/// The folder events encoded in `buf` from `offset` on.  Records are packed:
/// a 16-byte header carrying the mask and the name length, followed by that
/// many bytes of NUL-padded name.  A final fragment shorter than one whole
/// record ends the scan (the kernel only ever delivers whole records).
pub open spec fn spec_parse_from(folder: Seq<u8>, buf: Seq<u8>, offset: int) -> Seq<
    FolderEventView,
>
    decreases buf.len() - offset,
{
    if offset < 0 || offset + INOTIFY_HEADER_SIZE > buf.len() {
        Seq::empty()
    } else {
        let mask = spec_u32_at(buf, offset + 4);
        let name_length = spec_u32_at(buf, offset + 12) as int;
        if name_length == 0 {
            spec_record_overflow(mask) + spec_parse_from(
                folder,
                buf,
                offset + INOTIFY_HEADER_SIZE,
            )
        } else if offset + INOTIFY_HEADER_SIZE + name_length > buf.len() {
            spec_record_overflow(mask)
        } else {
            let field = buf.subrange(
                offset + INOTIFY_HEADER_SIZE,
                offset + INOTIFY_HEADER_SIZE + name_length,
            );
            spec_record_overflow(mask) + spec_record_name_events(folder, mask, field)
                + spec_parse_from(folder, buf, offset + INOTIFY_HEADER_SIZE + name_length)
        }
    }
}

/// All folder events encoded in one read's worth of inotify bytes.
pub open spec fn spec_parse_folder_events(folder: Seq<u8>, buf: Seq<u8>) -> Seq<FolderEventView> {
    spec_parse_from(folder, buf, 0)
}

/// Read the little-endian 32-bit value at `offset`.
fn read_u32_at(buf: &Vec<u8>, offset: usize) -> (value: u32)
    requires
        offset + 4 <= buf.len(),
    ensures
        value == spec_u32_at(buf@, offset as int),
{
    (buf[offset] as u32) + (buf[offset + 1] as u32) * 0x100 + (buf[offset + 2] as u32) * 0x1_0000
        + (buf[offset + 3] as u32) * 0x100_0000
}

/// When the first `length` bytes of the field are non-NUL and a NUL follows
/// (or the field ends), the record name is exactly those bytes.
proof fn lemma_name_bytes_take(field: Seq<u8>, length: int)
    requires
        0 <= length <= field.len(),
        forall|i: int| 0 <= i < length ==> #[trigger] field[i] != 0,
        length < field.len() ==> field[length] == 0,
    ensures
        spec_name_bytes(field) == field.take(length),
    decreases field.len(),
{
    if field.len() == 0 {
        assert(field.take(0) =~= field);
    } else if field[0] == 0 {
        assert(length == 0);
        assert(field.take(0) =~= Seq::<u8>::empty());
    } else {
        assert(length >= 1);
        let rest = field.drop_first();
        assert(forall|i: int| 0 <= i < length - 1 ==> #[trigger] rest[i] != 0);
        lemma_name_bytes_take(rest, length - 1);
        assert(seq![field[0]] + rest.take(length - 1) =~= field.take(length));
    }
}

/// Join a record's file name onto the watched directory path.
fn join_device_path(folder_path: &Vec<u8>, name: &Vec<u8>) -> (path: Vec<u8>)
    ensures
        path@ == spec_join_path(folder_path@, name@),
{
    let mut path = crate::bytes::clone_bytes(folder_path);
    if path.len() == 0 || path[path.len() - 1] != 47 {
        path.push(47);
        proof {
            assert(path@ =~= folder_path@ + seq![47u8]);
        }
    }
    let mut index: usize = 0;
    let ghost stem: Seq<u8> = path@;
    while index < name.len()
        invariant
            index <= name.len(),
            path@ == stem + name@.take(index as int),
        decreases name.len() - index,
    {
        path.push(name[index]);
        proof {
            assert(stem + name@.take(index as int + 1) =~= (stem + name@.take(index as int)).push(
                name@[index as int],
            ));
        }
        index = index + 1;
    }
    proof {
        assert(name@.take(name@.len() as int) =~= name@);
        assert(stem + name@ =~= spec_join_path(folder_path@, name@));
    }
    path
}

/// Decode one read's worth of packed inotify bytes into folder events.
///
/// Headers are copied out field by field, so no alignment of the raw buffer
/// is assumed.  A queue-overflow mark is emitted independently of the other
/// bits of its record; records without a watched change bit, and records
/// whose name field is not NUL-terminated, yield no event.
pub fn parse_folder_events(folder_path: &Vec<u8>, buf: &Vec<u8>) -> (events: Vec<FolderEvent>)
    ensures
        events.deep_view() == spec_parse_folder_events(folder_path@, buf@),
{
    let mut events: Vec<FolderEvent> = Vec::new();
    let mut offset: usize = 0;
    proof {
        assert(events.deep_view() =~= Seq::<FolderEventView>::empty());
        assert(events.deep_view() + spec_parse_from(folder_path@, buf@, 0) =~= spec_parse_from(
            folder_path@,
            buf@,
            0,
        ));
    }
    while buf.len() - offset >= INOTIFY_HEADER_SIZE
        invariant
            offset <= buf@.len(),
            spec_parse_from(folder_path@, buf@, 0) == events.deep_view() + spec_parse_from(
                folder_path@,
                buf@,
                offset as int,
            ),
        decreases buf@.len() - offset,
    {
        let ghost tail: Seq<FolderEventView> = spec_parse_from(folder_path@, buf@, offset as int);
        let mask = read_u32_at(buf, offset + 4);
        let name_length_raw = read_u32_at(buf, offset + 12);
        let ghost events_before: Seq<FolderEventView> = events.deep_view();
        if mask & IN_Q_OVERFLOW != 0 {
            events.push(FolderEvent::EventQueueOverflowed);
            proof {
                assert(events.deep_view() =~= events_before.push(
                    FolderEventView::EventQueueOverflowed,
                ));
            }
        }
        proof {
            assert(events.deep_view() =~= events_before + spec_record_overflow(mask));
        }
        if name_length_raw == 0 {
            proof {
                assert(tail == spec_record_overflow(mask) + spec_parse_from(
                    folder_path@,
                    buf@,
                    offset as int + INOTIFY_HEADER_SIZE,
                ));
                assert(events.deep_view() + spec_parse_from(
                    folder_path@,
                    buf@,
                    offset as int + INOTIFY_HEADER_SIZE,
                ) =~= events_before + tail);
            }
            offset = offset + INOTIFY_HEADER_SIZE;
        } else if name_length_raw as usize > buf.len() - (offset + INOTIFY_HEADER_SIZE) {
            // A record that runs past the end of the buffer: the kernel only
            // delivers whole records, so nothing more can be decoded.
            proof {
                assert(tail == spec_record_overflow(mask));
                assert(spec_parse_from(folder_path@, buf@, buf@.len() as int) =~= Seq::<
                    FolderEventView,
                >::empty());
                assert(events.deep_view() + spec_parse_from(
                    folder_path@,
                    buf@,
                    buf@.len() as int,
                ) =~= events_before + tail);
            }
            offset = buf.len();
        } else {
            let name_length = name_length_raw as usize;
            let field_start = offset + INOTIFY_HEADER_SIZE;
            let field_end = field_start + name_length;
            let ghost field: Seq<u8> = buf@.subrange(field_start as int, field_end as int);
            let ghost events_with_overflow: Seq<FolderEventView> = events.deep_view();
            if buf[field_end - 1] == 0 {
                // The name field is NUL-terminated and NUL-padded: the name
                // runs to the first NUL.
                let mut name_end: usize = field_start;
                while name_end < field_end - 1 && buf[name_end] != 0
                    invariant
                        field_start <= name_end < field_end <= buf@.len(),
                        forall|i: int|
                            field_start <= i < name_end ==> #[trigger] buf@[i] != 0,
                    decreases field_end - name_end,
                {
                    name_end = name_end + 1;
                }
                let name = crate::bytes::copy_byte_range(buf, field_start, name_end);
                proof {
                    assert(buf@[field_end - 1] == 0);
                    assert(buf@[name_end as int] == 0);
                    assert(forall|i: int|
                        0 <= i < name_end - field_start ==> #[trigger] field[i] != 0);
                    assert(field[name_end - field_start] == 0);
                    lemma_name_bytes_take(field, name_end - field_start as int);
                    assert(field.take(name_end - field_start as int) =~= name@);
                }
                let path = join_device_path(folder_path, &name);
                let decoded: Option<FolderEvent> = if mask & (IN_CREATE | IN_MOVED_TO) != 0 {
                    Some(FolderEvent::Added(path))
                } else if mask & (IN_DELETE | IN_MOVED_FROM) != 0 {
                    Some(FolderEvent::Removed(path))
                } else if mask & IN_ATTRIB != 0 {
                    Some(FolderEvent::AttributesChanged(path))
                } else {
                    None
                };
                if let Some(event) = decoded {
                    let ghost before_name: Seq<FolderEventView> = events.deep_view();
                    proof {
                        assert(event.deep_view() == spec_record_event(
                            folder_path@,
                            mask,
                            field,
                        ).unwrap());
                    }
                    events.push(event);
                    proof {
                        assert(events.deep_view() =~= before_name.push(event.deep_view()));
                    }
                }
            }
            proof {
                assert(events.deep_view() =~= events_with_overflow + spec_record_name_events(
                    folder_path@,
                    mask,
                    field,
                ));
                assert(tail == spec_record_overflow(mask) + spec_record_name_events(
                    folder_path@,
                    mask,
                    field,
                ) + spec_parse_from(folder_path@, buf@, field_end as int));
                assert(events.deep_view() + spec_parse_from(folder_path@, buf@, field_end as int)
                    =~= events_before + tail);
            }
            offset = field_end;
        }
    }
    proof {
        assert(spec_parse_from(folder_path@, buf@, offset as int) =~= Seq::<
            FolderEventView,
        >::empty());
        assert(events.deep_view() + Seq::<FolderEventView>::empty() =~= events.deep_view());
    }
    events
}

} // verus!
