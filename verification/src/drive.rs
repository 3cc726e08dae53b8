//! Locating the bootloader volume. The host probes the file system and
//! reports what it saw; the functions here decide which candidate, if any,
//! is the bootloader. Three strategies exist side by side: by volume label,
//! by marker file at well-known mount points, and by marker file at the
//! mount points of the FAT partitions that a block-device listing reports.

use vstd::prelude::*;
use vstd::string::StringExecFns;
use crate::json::{
    elements, json_document, json_elements, json_member, json_text, member, parse_document,
    text_of,
};
use vstd::slice::slice_subrange;
use crate::text::{same_text, utf16_lossy};

verus! {

/// The path of a mounted volume recognised as the bootloader.
#[derive(Debug, PartialEq, Eq)]
pub struct DriveHandle {
    pub path: String,
}

/// One entry of a block-device listing: its file-system type and where it
/// is mounted, each as far as the listing gives it as a string.
#[derive(Debug, PartialEq, Eq)]
pub struct BlockDevice {
    pub fstype: Option<String>,
    pub mountpoint: Option<String>,
}

/// The mathematical value of a [`BlockDevice`].
pub ghost struct BlockDeviceView {
    pub fstype: Option<Seq<char>>,
    pub mountpoint: Option<Seq<char>>,
}

impl View for BlockDevice {
    type V = BlockDeviceView;

    open spec fn view(&self) -> BlockDeviceView {
        BlockDeviceView {
            fstype: self.fstype.deep_view(),
            mountpoint: self.mountpoint.deep_view(),
        }
    }
}

impl DeepView for BlockDevice {
    type V = BlockDeviceView;

    open spec fn deep_view(&self) -> BlockDeviceView {
        self@
    }
}

/// The device that one element of the listing's array describes.
pub open spec fn device_of(entry: serde_json::Value) -> BlockDeviceView {
    BlockDeviceView {
        fstype: json_text(json_member(entry, "fstype"@)),
        mountpoint: json_text(json_member(entry, "mountpoint"@)),
    }
}

/// How many levels of nesting below the top of a listing are read. Block
/// devices nest a few levels at most: a disk, its partitions, and what is
/// layered on a partition.
pub const LISTING_DEPTH: u32 = 64;

/// The devices among `entries` and beneath them, down to `depth` further
/// levels: each entry is followed at once by the devices listed under its
/// `children`, themselves read in the same way, before the next entry.
pub open spec fn devices_under(entries: Seq<serde_json::Value>, depth: nat) -> Seq<
    BlockDeviceView,
>
    decreases depth, entries.len(),
{
    if entries.len() == 0 {
        Seq::empty()
    } else {
        let entry = entries.last();
        let beneath = if depth == 0 {
            Seq::empty()
        } else {
            match json_elements(json_member(entry, "children"@)) {
                Some(children) => devices_under(children, (depth - 1) as nat),
                None => Seq::empty(),
            }
        };
        devices_under(entries.drop_last(), depth).push(device_of(entry)) + beneath
    }
}

/// The devices that a listing reports: the elements of the array under
/// `blockdevices` and, after each, the devices beneath it, in listing
/// order; none where the text is no JSON document or holds no such array.
pub open spec fn listed_devices(listing: Seq<char>) -> Seq<BlockDeviceView> {
    match json_document(listing) {
        Some(document) => match json_elements(json_member(document, "blockdevices"@)) {
            Some(entries) => devices_under(entries, LISTING_DEPTH as nat),
            None => Seq::empty(),
        },
        None => Seq::empty(),
    }
}

/// Every entry is among the devices read from its list.
pub proof fn lemma_entry_is_listed(entries: Seq<serde_json::Value>, depth: nat, i: int)
    requires
        0 <= i < entries.len(),
    ensures
        devices_under(entries, depth).contains(device_of(entries[i])),
    decreases entries.len(),
{
    let earlier = devices_under(entries.drop_last(), depth);
    let all = devices_under(entries, depth);
    if i == entries.len() - 1 {
        assert(all[earlier.len() as int] == device_of(entries[i]));
    } else {
        lemma_entry_is_listed(entries.drop_last(), depth, i);
        let w = choose|w: int| 0 <= w < earlier.len() && earlier[w] == device_of(entries[i]);
        assert(all[w] == device_of(entries[i]));
    }
}

/// Whatever is read beneath an entry is among the devices read from the
/// entry's list: a partition listed under its disk is a device of the
/// listing, and so is what is layered on the partition, level by level.
pub proof fn lemma_nested_device_is_listed(
    entries: Seq<serde_json::Value>,
    depth: nat,
    i: int,
    device: BlockDeviceView,
)
    requires
        0 <= i < entries.len(),
        depth > 0,
        json_elements(json_member(entries[i], "children"@)) is Some,
        devices_under(
            json_elements(json_member(entries[i], "children"@))->Some_0,
            (depth - 1) as nat,
        ).contains(device),
    ensures
        devices_under(entries, depth).contains(device),
    decreases entries.len(),
{
    let earlier = devices_under(entries.drop_last(), depth);
    let all = devices_under(entries, depth);
    if i == entries.len() - 1 {
        let beneath = devices_under(
            json_elements(json_member(entries[i], "children"@))->Some_0,
            (depth - 1) as nat,
        );
        let w = choose|w: int| 0 <= w < beneath.len() && beneath[w] == device;
        assert(all[earlier.len() + 1 + w] == device);
    } else {
        lemma_nested_device_is_listed(entries.drop_last(), depth, i, device);
        let w = choose|w: int| 0 <= w < earlier.len() && earlier[w] == device;
        assert(all[w] == device);
    }
}

fn owned(text: Option<&str>) -> (copy: Option<String>)
    ensures
        copy.deep_view() == match text {
            Some(characters) => Some(characters@),
            None => None,
        },
{
    match text {
        Some(characters) => Some(String::from_str(characters)),
        None => None,
    }
}

/// Appends to `devices` the devices among `entries` and beneath them.
fn read_devices(entries: &Vec<serde_json::Value>, depth: u32, devices: &mut Vec<BlockDevice>)
    ensures
        final(devices).deep_view() == old(devices).deep_view() + devices_under(
            entries@,
            depth as nat,
        ),
    decreases depth,
{
    let ghost start = devices.deep_view();
    let mut i: usize = 0;
    assert(entries@.take(0) =~= Seq::<serde_json::Value>::empty());
    assert(devices.deep_view() =~= start + devices_under(entries@.take(0), depth as nat));
    while i < entries.len()
        invariant
            i <= entries.len(),
            devices.deep_view() == start + devices_under(entries@.take(i as int), depth as nat),
        decreases entries.len() - i,
    {
        let entry = &entries[i];
        let ghost before = devices.deep_view();
        assert(entries@.take(i + 1).drop_last() =~= entries@.take(i as int));
        assert(entries@.take(i + 1).last() == *entry);
        let device = BlockDevice {
            fstype: owned(text_of(member(entry, "fstype"))),
            mountpoint: owned(text_of(member(entry, "mountpoint"))),
        };
        devices.push(device);
        assert(devices.deep_view() =~= before.push(device_of(*entry)));
        if depth > 0 {
            match elements(member(entry, "children")) {
                Some(children) => {
                    read_devices(children, depth - 1, devices);
                },
                None => {},
            }
        }
        assert(devices.deep_view() =~= start + devices_under(
            entries@.take(i + 1),
            depth as nat,
        ));
        i += 1;
    }
    assert(entries@.take(i as int) =~= entries@);
}

/// Reads the JSON output of the block-device listing utility: every device
/// it reports, the nested ones included.
pub fn block_devices(listing: &str) -> (devices: Vec<BlockDevice>)
    ensures
        devices.deep_view() == listed_devices(listing@),
{
    let mut devices: Vec<BlockDevice> = Vec::new();
    assert(devices.deep_view() =~= Seq::<BlockDeviceView>::empty());
    match parse_document(listing) {
        Some(document) => {
            match elements(member(&document, "blockdevices")) {
                Some(entries) => {
                    read_devices(entries, LISTING_DEPTH, &mut devices);
                    assert(devices.deep_view() =~= listed_devices(listing@));
                },
                None => {},
            }
        },
        None => {},
    }
    devices
}

/// The file-system type that marks a FAT partition in a listing.
pub open spec fn fat_type() -> Seq<char> {
    "vfat"@
}

/// Whether `device` is a mounted FAT partition.
pub open spec fn is_mounted_fat(device: BlockDeviceView) -> bool {
    device.fstype == Some(fat_type()) && device.mountpoint is Some
}

/// The mount points of the mounted FAT partitions among `devices`, in
/// listing order.
pub open spec fn fat_mounts(devices: Seq<BlockDeviceView>) -> Seq<Seq<char>>
    decreases devices.len(),
{
    if devices.len() == 0 {
        Seq::empty()
    } else if is_mounted_fat(devices.last()) {
        fat_mounts(devices.drop_last()).push(devices.last().mountpoint->Some_0)
    } else {
        fat_mounts(devices.drop_last())
    }
}

/// The mount point of every mounted FAT partition among `devices` is a
/// candidate.
pub proof fn lemma_fat_mount_is_candidate(devices: Seq<BlockDeviceView>, k: int)
    requires
        0 <= k < devices.len(),
        is_mounted_fat(devices[k]),
    ensures
        fat_mounts(devices).contains(devices[k].mountpoint->Some_0),
    decreases devices.len(),
{
    let earlier = fat_mounts(devices.drop_last());
    let all = fat_mounts(devices);
    if k == devices.len() - 1 {
        assert(all[earlier.len() as int] == devices[k].mountpoint->Some_0);
    } else {
        lemma_fat_mount_is_candidate(devices.drop_last(), k);
        let w = choose|w: int|
            0 <= w < earlier.len() && earlier[w] == devices[k].mountpoint->Some_0;
        assert(all[w] == devices[k].mountpoint->Some_0);
    }
}

/// Picks from a block-device listing the places where a FAT partition is
/// mounted: the candidates whose root is then searched for the marker file.
pub fn fat_mount_points(devices: &Vec<BlockDevice>) -> (mounts: Vec<String>)
    ensures
        mounts.deep_view() == fat_mounts(devices.deep_view()),
{
    let mut mounts: Vec<String> = Vec::new();
    let mut i: usize = 0;
    assert(devices.deep_view().take(0) =~= Seq::<BlockDeviceView>::empty());
    assert(mounts.deep_view() =~= Seq::<Seq<char>>::empty());
    while i < devices.len()
        invariant
            i <= devices.len(),
            mounts.deep_view() == fat_mounts(devices.deep_view().take(i as int)),
        decreases devices.len() - i,
    {
        let device = &devices[i];
        let ghost before = mounts.deep_view();
        assert(devices.deep_view().take(i + 1).drop_last() =~= devices.deep_view().take(i as int));
        assert(devices.deep_view().take(i + 1).last() == device@);
        let is_fat = match &device.fstype {
            Some(fstype) => same_text(fstype.as_str(), "vfat"),
            None => false,
        };
        if is_fat {
            match &device.mountpoint {
                Some(mountpoint) => {
                    mounts.push(mountpoint.clone());
                    assert(mounts.deep_view() =~= before.push(mountpoint@));
                },
                None => {},
            }
        }
        i += 1;
    }
    assert(devices.deep_view().take(i as int) =~= devices.deep_view());
    mounts
}

/// The label that the bootloader gives its volume.
pub const BOOTLOADER_LABEL: &'static str = "RPI-RP2";

/// The file that the bootloader always places at the root of its volume.
pub const MARKER_FILE: &'static str = "INFO_UF2.TXT";

/// The directory under which one platform mounts every volume.
pub const VOLUMES_DIRECTORY: &'static str = "/Volumes";

/// A candidate volume as the host saw it: its root path, whether that is a
/// directory, and its volume label (or, where volumes are directories of one
/// parent, the directory's name), if it could be read.
#[derive(Debug, PartialEq, Eq)]
pub struct Volume {
    pub path: String,
    pub is_dir: bool,
    pub label: Option<String>,
}

/// A candidate mount point as the host saw it: its path, whether it is a
/// directory, and whether the marker file lies at its root.
#[derive(Debug, PartialEq, Eq)]
pub struct MountPoint {
    pub path: String,
    pub is_dir: bool,
    pub has_marker: bool,
}

/// Whether `volume` is a directory labelled as the bootloader.
pub open spec fn is_bootloader_volume(volume: Volume) -> bool {
    volume.is_dir && volume.label.deep_view() == Some(BOOTLOADER_LABEL@)
}

/// Whether a well-known mount point holds the bootloader: it is a directory
/// and the marker file is there.
pub open spec fn is_marked_directory(mount: MountPoint) -> bool {
    mount.is_dir && mount.has_marker
}

/// Whether `volume` passes the label test.
pub fn has_bootloader_label(volume: &Volume) -> (accepted: bool)
    ensures
        accepted == is_bootloader_volume(*volume),
{
    volume.is_dir && match &volume.label {
        Some(label) => same_text(label.as_str(), BOOTLOADER_LABEL),
        None => false,
    }
}

/// Whether position `i` holds the first of `volumes` that is a directory
/// labelled as the bootloader.
pub open spec fn is_first_bootloader_volume(volumes: Seq<Volume>, i: int) -> bool {
    &&& 0 <= i < volumes.len()
    &&& is_bootloader_volume(volumes[i])
    &&& forall|k: int| 0 <= k < i ==> !is_bootloader_volume(volumes[k])
}

/// Enumeration by label: the first candidate, in the order given, that is a
/// directory labelled as the bootloader; nothing when no candidate is.
pub fn find_by_label(volumes: &[Volume]) -> (found: Option<DriveHandle>)
    ensures
        match found {
            Some(handle) => exists|i: int|
                is_first_bootloader_volume(volumes@, i) && handle.path@ == volumes[i].path@,
            None => forall|i: int| 0 <= i < volumes.len() ==> !is_bootloader_volume(volumes[i]),
        },
{
    let mut i: usize = 0;
    while i < volumes.len()
        invariant
            i <= volumes.len(),
            forall|k: int| 0 <= k < i ==> !is_bootloader_volume(volumes[k]),
        decreases volumes.len() - i,
    {
        if has_bootloader_label(&volumes[i]) {
            assert(is_first_bootloader_volume(volumes@, i as int));
            return Some(DriveHandle { path: volumes[i].path.clone() });
        }
        i += 1;
    }
    None
}

/// Whether position `i` holds the first of the well-known mount points
/// that is a directory with the marker file.
pub open spec fn is_first_marked_directory(direct: Seq<MountPoint>, i: int) -> bool {
    &&& 0 <= i < direct.len()
    &&& is_marked_directory(direct[i])
    &&& forall|k: int| 0 <= k < i ==> !is_marked_directory(direct[k])
}

/// Whether none of the well-known mount points is a directory with the
/// marker file.
pub open spec fn no_marked_directory(direct: Seq<MountPoint>) -> bool {
    forall|k: int| 0 <= k < direct.len() ==> !is_marked_directory(direct[k])
}

/// Whether position `j` holds the first of the listed mount points with
/// the marker file.
pub open spec fn is_first_marked(listed: Seq<MountPoint>, j: int) -> bool {
    &&& 0 <= j < listed.len()
    &&& listed[j].has_marker
    &&& forall|k: int| 0 <= k < j ==> !listed[k].has_marker
}

/// Enumeration by marker file. `direct` are the well-known mount points,
/// accepted when they are directories that hold the marker file; `listed`
/// are the mount points of the FAT partitions from the block-device listing,
/// accepted when the marker file is there. The result is the first accepted
/// well-known mount point; where none is accepted, the first accepted
/// listed one; where none is either, nothing.
pub fn find_by_marker(direct: &[MountPoint], listed: &[MountPoint]) -> (found: Option<
    DriveHandle,
>)
    ensures
        match found {
            Some(handle) => {
                ||| exists|i: int|
                    is_first_marked_directory(direct@, i) && handle.path@ == direct[i].path@
                ||| no_marked_directory(direct@) && exists|j: int|
                    is_first_marked(listed@, j) && handle.path@ == listed[j].path@
            },
            None => no_marked_directory(direct@) && forall|j: int|
                0 <= j < listed.len() ==> !listed[j].has_marker,
        },
{
    let mut i: usize = 0;
    while i < direct.len()
        invariant
            i <= direct.len(),
            forall|k: int| 0 <= k < i ==> !is_marked_directory(direct[k]),
        decreases direct.len() - i,
    {
        if direct[i].is_dir && direct[i].has_marker {
            assert(is_first_marked_directory(direct@, i as int));
            return Some(DriveHandle { path: direct[i].path.clone() });
        }
        i += 1;
    }
    let mut j: usize = 0;
    while j < listed.len()
        invariant
            j <= listed.len(),
            no_marked_directory(direct@),
            forall|k: int| 0 <= k < j ==> !listed[k].has_marker,
        decreases listed.len() - j,
    {
        if listed[j].has_marker {
            assert(is_first_marked(listed@, j as int));
            return Some(DriveHandle { path: listed[j].path.clone() });
        }
        j += 1;
    }
    None
}

/// The well-known mount points for a user called `user`.
pub open spec fn user_mount_points(user: Seq<char>) -> Seq<Seq<char>> {
    seq![
        "/media/"@ + user + "/RPI-RP2"@,
        "/run/media/"@ + user + "/RPI-RP2"@,
        "/mnt/RPI-RP2"@,
    ]
}

/// The well-known mount points to probe directly, in order. Without a user
/// name there are none.
pub fn direct_mount_points(user: Option<&str>) -> (paths: Vec<String>)
    ensures
        paths.deep_view() == match user {
            Some(name) => user_mount_points(name@),
            None => Seq::<Seq<char>>::empty(),
        },
{
    let mut paths: Vec<String> = Vec::new();
    match user {
        Some(name) => {
            let mut media = String::from_str("/media/");
            media.append(name);
            media.append("/RPI-RP2");
            let mut run_media = String::from_str("/run/media/");
            run_media.append(name);
            run_media.append("/RPI-RP2");
            paths.push(media);
            paths.push(run_media);
            paths.push(String::from_str("/mnt/RPI-RP2"));
            assert(paths.deep_view() =~= user_mount_points(name@));
        },
        None => {
            assert(paths.deep_view() =~= Seq::<Seq<char>>::empty());
        },
    }
    paths
}

/// The root of the lettered drive number `index`, counting from `A`, whose
/// code is 65: the letter, a colon and a backslash.
pub open spec fn drive_root_text(index: int) -> Seq<char> {
    seq![((65 + index) as u8) as char, ':', '\\']
}

/// The roots of all lettered drives, `A` to `Z`, in order.
pub fn drive_roots() -> (roots: Vec<String>)
    ensures
        roots.len() == 26,
        forall|i: int| 0 <= i < 26 ==> roots[i]@ == drive_root_text(i),
{
    let mut roots: Vec<String> = Vec::new();
    let mut index: u8 = 0;
    while index < 26
        invariant
            index <= 26,
            roots.len() == index,
            forall|i: int| 0 <= i < index ==> roots[i]@ == drive_root_text(i),
        decreases 26 - index,
    {
        let letter: u8 = 65 + index;
        let mut root = String::new();
        root.push(letter as char);
        root.push(':');
        root.push('\\');
        assert(root@ =~= drive_root_text(index as int));
        roots.push(root);
        index += 1;
    }
    roots
}

/// The number of code units before the first zero in `buffer`, or its whole
/// length where it holds no zero.
pub open spec fn label_end(buffer: Seq<u16>) -> int
    decreases buffer.len(),
{
    if buffer.len() == 0 || buffer[0] == 0 {
        0
    } else {
        1 + label_end(buffer.drop_first())
    }
}

/// `label_end` is where the first zero stands.
pub proof fn lemma_label_end(buffer: Seq<u16>)
    ensures
        0 <= label_end(buffer) <= buffer.len(),
        forall|k: int| 0 <= k < label_end(buffer) ==> buffer[k] != 0,
        label_end(buffer) < buffer.len() ==> buffer[label_end(buffer)] == 0,
    decreases buffer.len(),
{
    if buffer.len() == 0 || buffer[0] == 0 {
    } else {
        let rest = buffer.drop_first();
        lemma_label_end(rest);
        assert forall|k: int| 0 <= k < label_end(buffer) implies buffer[k] != 0 by {
            if k > 0 {
                assert(rest[k - 1] == buffer[k]);
            }
        }
        if label_end(buffer) < buffer.len() {
            assert(rest[label_end(rest)] == buffer[label_end(buffer)]);
        }
    }
}

/// A sequence whose first `n` units are not zero, and which ends there or
/// has a zero there, has its label end at `n`.
pub proof fn lemma_label_end_is(buffer: Seq<u16>, n: int)
    requires
        0 <= n <= buffer.len(),
        forall|k: int| 0 <= k < n ==> buffer[k] != 0,
        n < buffer.len() ==> buffer[n] == 0,
    ensures
        label_end(buffer) == n,
{
    lemma_label_end(buffer);
    let e = label_end(buffer);
    if e < n {
        assert(buffer[e] == 0);
    } else if e > n {
        assert(buffer[n] == 0);
    }
}

/// How many code units of a zero-terminated buffer belong to the text.
pub fn label_length(buffer: &[u16]) -> (length: usize)
    ensures
        length == label_end(buffer@),
{
    let mut i: usize = 0;
    while i < buffer.len() && buffer[i] != 0
        invariant
            i <= buffer.len(),
            forall|k: int| 0 <= k < i ==> buffer[k] != 0,
        decreases buffer.len() - i,
    {
        i += 1;
    }
    proof {
        lemma_label_end_is(buffer@, i as int);
    }
    i
}

/// Decodes the volume label that the platform wrote, as UTF-16 with a
/// closing zero, into `buffer`.
pub fn decode_volume_label(buffer: &[u16]) -> (label: String)
    ensures
        label@ == utf16_lossy(buffer@.take(label_end(buffer@))),
{
    let length = label_length(buffer);
    proof {
        lemma_label_end(buffer@);
        assert(buffer@.subrange(0, length as int) =~= buffer@.take(length as int));
    }
    String::from_utf16_lossy(slice_subrange(buffer, 0, length))
}

} // verus!
