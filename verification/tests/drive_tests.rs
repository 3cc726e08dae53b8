use boxupdater::drive::{
    block_devices, decode_volume_label, direct_mount_points, drive_roots, fat_mount_points,
    find_by_label, find_by_marker, has_bootloader_label, label_length, BlockDevice, DriveHandle,
    MountPoint, Volume, BOOTLOADER_LABEL, LISTING_DEPTH, MARKER_FILE, VOLUMES_DIRECTORY,
};

fn volume(path: &str, is_dir: bool, label: Option<&str>) -> Volume {
    Volume { path: path.to_string(), is_dir, label: label.map(|l| l.to_string()) }
}

fn mount(path: &str, is_dir: bool, has_marker: bool) -> MountPoint {
    MountPoint { path: path.to_string(), is_dir, has_marker }
}

fn device(fstype: Option<&str>, mountpoint: Option<&str>) -> BlockDevice {
    BlockDevice {
        fstype: fstype.map(|s| s.to_string()),
        mountpoint: mountpoint.map(|s| s.to_string()),
    }
}

fn handle(path: &str) -> Option<DriveHandle> {
    Some(DriveHandle { path: path.to_string() })
}

fn utf16(text: &str) -> Vec<u16> {
    text.encode_utf16().collect()
}

#[test]
fn fixed_names() {
    assert_eq!(BOOTLOADER_LABEL, "RPI-RP2");
    assert_eq!(MARKER_FILE, "INFO_UF2.TXT");
    assert_eq!(VOLUMES_DIRECTORY, "/Volumes");
}

#[test]
fn label_test_wants_a_directory_with_the_exact_label() {
    assert!(has_bootloader_label(&volume("E:\\", true, Some("RPI-RP2"))));
    assert!(!has_bootloader_label(&volume("E:\\", false, Some("RPI-RP2"))));
    assert!(!has_bootloader_label(&volume("E:\\", true, Some("rpi-rp2"))));
    assert!(!has_bootloader_label(&volume("E:\\", true, Some("RPI-RP2 "))));
    assert!(!has_bootloader_label(&volume("E:\\", true, Some("RPI-RP"))));
    assert!(!has_bootloader_label(&volume("E:\\", true, Some(""))));
    assert!(!has_bootloader_label(&volume("E:\\", true, None)));
}

#[test]
fn first_labelled_volume_wins() {
    let volumes = vec![
        volume("C:\\", true, Some("System")),
        volume("D:\\", false, Some("RPI-RP2")),
        volume("E:\\", true, None),
        volume("F:\\", true, Some("RPI-RP2")),
        volume("G:\\", true, Some("RPI-RP2")),
    ];
    assert_eq!(find_by_label(&volumes), handle("F:\\"));
}

#[test]
fn no_labelled_volume_is_no_error() {
    let volumes = vec![volume("/Volumes/Macintosh HD", true, Some("Macintosh HD"))];
    assert_eq!(find_by_label(&volumes), None);
    assert_eq!(find_by_label(&[]), None);
}

#[test]
fn directory_name_serves_as_label() {
    let volumes = vec![
        volume("/Volumes/Data", true, Some("Data")),
        volume("/Volumes/RPI-RP2", true, Some("RPI-RP2")),
    ];
    assert_eq!(find_by_label(&volumes), handle("/Volumes/RPI-RP2"));
}

#[test]
fn well_known_mount_points_come_first() {
    let direct = vec![
        mount("/media/kim/RPI-RP2", false, false),
        mount("/run/media/kim/RPI-RP2", true, true),
        mount("/mnt/RPI-RP2", true, true),
    ];
    let listed = vec![mount("/mnt/usb", true, true)];
    assert_eq!(find_by_marker(&direct, &listed), handle("/run/media/kim/RPI-RP2"));
}

#[test]
fn well_known_mount_point_needs_directory_and_marker() {
    let direct = vec![
        mount("/media/kim/RPI-RP2", true, false),
        mount("/run/media/kim/RPI-RP2", false, true),
    ];
    assert_eq!(find_by_marker(&direct, &[]), None);
}

#[test]
fn listed_partitions_are_the_fallback() {
    let direct = vec![mount("/media/kim/RPI-RP2", false, false), mount("/mnt/RPI-RP2", true, false)];
    let listed = vec![
        mount("/boot/efi", true, false),
        mount("/mnt/stick", false, true),
        mount("/mnt/other", true, true),
    ];
    assert_eq!(find_by_marker(&direct, &listed), handle("/mnt/stick"));
    assert_eq!(find_by_marker(&[], &listed), handle("/mnt/stick"));
}

#[test]
fn nothing_marked_is_no_error() {
    let listed = vec![mount("/boot/efi", true, false)];
    assert_eq!(find_by_marker(&[], &listed), None);
    assert_eq!(find_by_marker(&[], &[]), None);
}

#[test]
fn mount_points_of_a_user() {
    assert_eq!(
        direct_mount_points(Some("kim")),
        vec!["/media/kim/RPI-RP2", "/run/media/kim/RPI-RP2", "/mnt/RPI-RP2"]
    );
    assert_eq!(
        direct_mount_points(Some("")),
        vec!["/media//RPI-RP2", "/run/media//RPI-RP2", "/mnt/RPI-RP2"]
    );
}

#[test]
fn no_user_no_mount_points() {
    assert_eq!(direct_mount_points(None), Vec::<String>::new());
}

#[test]
fn all_drive_letters_in_order() {
    let roots = drive_roots();
    assert_eq!(roots.len(), 26);
    assert_eq!(roots[0], "A:\\");
    assert_eq!(roots[1], "B:\\");
    assert_eq!(roots[4], "E:\\");
    assert_eq!(roots[25], "Z:\\");
    for (i, root) in roots.iter().enumerate() {
        let letter = (b'A' + i as u8) as char;
        assert_eq!(*root, format!("{}:\\", letter));
    }
}

#[test]
fn listing_is_read_as_json() {
    let listing = r#"{
        "blockdevices": [
            {"name": "sda", "fstype": null, "mountpoint": null},
            {"name": "sdb1", "fstype": "vfat", "mountpoint": "/media/kim/RPI-RP2"},
            {"name": "nvme0n1p2", "fstype": "ext4", "mountpoint": "/"},
            {"name": "sdc1", "fstype": "vfat", "mountpoint": null},
            {"name": "sdd1", "fstype": "vfat"},
            {"name": "sde1", "mountpoint": "/mnt/e"}
        ]
    }"#;
    assert_eq!(
        block_devices(listing),
        vec![
            device(None, None),
            device(Some("vfat"), Some("/media/kim/RPI-RP2")),
            device(Some("ext4"), Some("/")),
            device(Some("vfat"), None),
            device(Some("vfat"), None),
            device(None, Some("/mnt/e")),
        ]
    );
}

#[test]
fn members_that_are_no_strings_count_as_missing() {
    let listing = r#"{"blockdevices": [{"fstype": 7, "mountpoint": ["/mnt/a"]}, "sda", {"fstype": {"x": 1}, "mountpoint": true}]}"#;
    assert_eq!(block_devices(listing), vec![device(None, None), device(None, None), device(None, None)]);
}

#[test]
fn listing_without_devices() {
    assert_eq!(block_devices(""), Vec::new());
    assert_eq!(block_devices("NAME FSTYPE MOUNTPOINT"), Vec::new());
    assert_eq!(block_devices("{\"blockdevices\": ["), Vec::new());
    assert_eq!(block_devices("{}"), Vec::new());
    assert_eq!(block_devices("[]"), Vec::new());
    assert_eq!(block_devices(r#"{"blockdevices": {"fstype": "vfat"}}"#), Vec::new());
    assert_eq!(block_devices(r#"{"blockdevices": []}"#), Vec::new());
    assert_eq!(block_devices(r#"{"devices": [{"fstype": "vfat", "mountpoint": "/m"}]}"#), Vec::new());
}

#[test]
fn mounted_fat_partitions_in_listing_order() {
    let devices = vec![
        device(Some("ext4"), Some("/")),
        device(Some("vfat"), Some("/boot/efi")),
        device(Some("vfat"), None),
        device(None, Some("/mnt/x")),
        device(Some("VFAT"), Some("/mnt/upper")),
        device(Some("vfat "), Some("/mnt/space")),
        device(Some("vfat"), Some("/media/kim/RPI-RP2")),
        device(Some("vfat"), Some("")),
    ];
    assert_eq!(fat_mount_points(&devices), vec!["/boot/efi", "/media/kim/RPI-RP2", ""]);
    assert_eq!(fat_mount_points(&Vec::new()), Vec::<String>::new());
}

#[test]
fn listing_to_candidates() {
    let listing = r#"{"blockdevices":[{"name":"sda1","fstype":"vfat","mountpoint":"/boot/efi"},{"name":"sdb1","fstype":"vfat","mountpoint":"/mnt/pico"}]}"#;
    assert_eq!(fat_mount_points(&block_devices(listing)), vec!["/boot/efi", "/mnt/pico"]);
}

#[test]
fn label_ends_at_the_first_zero() {
    let mut buffer = utf16("RPI-RP2");
    buffer.resize(256, 0);
    assert_eq!(label_length(&buffer), 7);
    assert_eq!(label_length(&[0u16, 65, 66]), 0);
    assert_eq!(label_length(&[65u16, 0, 66, 0]), 1);
    assert_eq!(label_length(&[65u16, 66, 67]), 3);
    assert_eq!(label_length(&[]), 0);
}

#[test]
fn label_is_decoded_up_to_the_zero() {
    let mut buffer = utf16("RPI-RP2");
    buffer.resize(256, 0);
    assert_eq!(decode_volume_label(&buffer), "RPI-RP2");
    let mut tail = utf16("AB");
    tail.push(0);
    tail.extend(utf16("CD"));
    assert_eq!(decode_volume_label(&tail), "AB");
    assert_eq!(decode_volume_label(&utf16("no zero")), "no zero");
    assert_eq!(decode_volume_label(&[0u16; 8]), "");
    assert_eq!(decode_volume_label(&[]), "");
}

#[test]
fn label_outside_ascii_and_broken_pairs() {
    let mut buffer = utf16("Dat\u{e9}n \u{1f4be}");
    buffer.push(0);
    assert_eq!(decode_volume_label(&buffer), "Dat\u{e9}n \u{1f4be}");
    assert_eq!(decode_volume_label(&[0x0041, 0xd800, 0x0042, 0]), "A\u{fffd}B");
}

#[test]
fn decoded_label_feeds_the_label_test() {
    let mut buffer = utf16("RPI-RP2");
    buffer.resize(64, 0);
    let seen = Volume { path: "D:\\".to_string(), is_dir: true, label: Some(decode_volume_label(&buffer)) };
    assert_eq!(find_by_label(&vec![seen]), handle("D:\\"));
}

#[test]
fn partitions_are_listed_under_their_disk() {
    let listing = r#"{
        "blockdevices": [
            {"name": "sdb", "fstype": null, "mountpoint": null,
             "children": [
                {"name": "sdb1", "fstype": "vfat", "mountpoint": "/media/kim/RPI-RP2"}
             ]}
        ]
    }"#;
    let devices = block_devices(listing);
    assert_eq!(devices, vec![device(None, None), device(Some("vfat"), Some("/media/kim/RPI-RP2"))]);
    assert_eq!(fat_mount_points(&devices), vec!["/media/kim/RPI-RP2"]);
    let listed = vec![mount("/media/kim/RPI-RP2", true, true)];
    assert_eq!(find_by_marker(&[], &listed), handle("/media/kim/RPI-RP2"));
}

#[test]
fn nested_devices_follow_their_parent_in_listing_order() {
    let listing = r#"{
        "blockdevices": [
            {"name": "sda", "fstype": null, "mountpoint": null, "children": [
                {"name": "sda1", "fstype": "vfat", "mountpoint": "/boot/efi"},
                {"name": "sda2", "fstype": "crypto_LUKS", "mountpoint": null, "children": [
                    {"name": "root", "fstype": "ext4", "mountpoint": "/"},
                    {"name": "stick", "fstype": "vfat", "mountpoint": "/mnt/deep", "children": []}
                ]},
                {"name": "sda3", "fstype": "swap", "mountpoint": "[SWAP]"}
            ]},
            {"name": "sdb", "fstype": "vfat", "mountpoint": "/mnt/whole"},
            {"name": "sdc", "fstype": null, "mountpoint": null, "children": "none"},
            {"name": "sdd", "fstype": null, "mountpoint": null, "children": [
                {"name": "sdd1", "fstype": "vfat", "mountpoint": "/run/media/kim/RPI-RP2"}
            ]}
        ]
    }"#;
    let devices = block_devices(listing);
    assert_eq!(
        devices,
        vec![
            device(None, None),
            device(Some("vfat"), Some("/boot/efi")),
            device(Some("crypto_LUKS"), None),
            device(Some("ext4"), Some("/")),
            device(Some("vfat"), Some("/mnt/deep")),
            device(Some("swap"), Some("[SWAP]")),
            device(Some("vfat"), Some("/mnt/whole")),
            device(None, None),
            device(None, None),
            device(Some("vfat"), Some("/run/media/kim/RPI-RP2")),
        ]
    );
    assert_eq!(
        fat_mount_points(&devices),
        vec!["/boot/efi", "/mnt/deep", "/mnt/whole", "/run/media/kim/RPI-RP2"]
    );
}

#[test]
fn deep_nesting_is_read() {
    let mut listing = String::from(r#"{"fstype": "vfat", "mountpoint": "/mnt/level20"}"#);
    for level in (0..20).rev() {
        listing = format!(
            r#"{{"fstype": "l{}", "mountpoint": null, "children": [{}]}}"#,
            level, listing
        );
    }
    let listing = format!(r#"{{"blockdevices": [{}]}}"#, listing);
    let devices = block_devices(&listing);
    assert_eq!(devices.len(), 21);
    assert_eq!(devices[0], device(Some("l0"), None));
    assert_eq!(devices[19], device(Some("l19"), None));
    assert_eq!(devices[20], device(Some("vfat"), Some("/mnt/level20")));
    assert_eq!(fat_mount_points(&devices), vec!["/mnt/level20"]);
    assert_eq!(LISTING_DEPTH, 64);
}
