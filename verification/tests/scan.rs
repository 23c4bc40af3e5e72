use picontrolx::caches::disk::fetcher::{
    get_disks, get_disks_info, get_disks_partitions, is_listed_link, is_valid_subsystem, partition_names,
    scan_disks_in_dev_folder, size_in_bytes, BlockEntry, DeviceProbe, DiskInfo, Disks, LabelLink, Partition,
    PartitionProbe,
};
use picontrolx::caches::{disk, hello};
use picontrolx::public::{DiskEntry, DiskServiceData};

fn block(name: &str, device_path: &str) -> BlockEntry {
    BlockEntry { name: name.to_string(), device_path: Some(device_path.to_string()) }
}

fn bare(kernel: &str) -> DiskInfo {
    DiskInfo { kernel: kernel.to_string(), size: 0, partitions: Vec::new() }
}

fn probe(kernel: &str, id: Option<&str>, capacity: u64) -> PartitionProbe {
    PartitionProbe {
        kernel: kernel.to_string(),
        device: Some(DeviceProbe { id: id.map(|s| s.to_string()), capacity }),
    }
}

fn label(name: &str, target: &str) -> LabelLink {
    LabelLink { name: Some(name.to_string()), target: Some(target.to_string()) }
}

const VDA: &str = "../devices/pci0000:a2/0000:a2:00.0/0000:a3:00.0/0000:a4:00.0/0000:a5:00.0/virtio0/block/vda";

#[test]
fn subsystems_of_interest() {
    assert!(is_valid_subsystem(VDA));
    assert!(is_valid_subsystem("../devices/platform/usb1/1-1/host0/block/sdb"));
    assert!(is_valid_subsystem("pci"));
    assert!(is_valid_subsystem("xxusb"));
    assert!(!is_valid_subsystem("../devices/virtual/block/loop0"));
    assert!(!is_valid_subsystem(""));
    assert!(!is_valid_subsystem("pc"));
    assert!(!is_valid_subsystem("p-c-i u_s_b"));
    assert!(!is_valid_subsystem("PCI"));
}

#[test]
fn a_link_that_could_not_be_read_is_of_no_interest() {
    assert!(is_listed_link(Some(VDA)));
    assert!(is_listed_link(Some("usb")));
    assert!(!is_listed_link(Some("../devices/virtual/block/ram0")));
    assert!(!is_listed_link(None));
    let entries = vec![
        BlockEntry { name: "sdx".to_string(), device_path: None },
        block("vda", VDA),
    ];
    assert_eq!(scan_disks_in_dev_folder(&entries), vec![bare("vda")]);
}

#[test]
fn the_producers_wake_every_five_seconds() {
    assert_eq!(hello::PERIOD_MS, 5000);
    assert_eq!(disk::PERIOD_MS, 5000);
}

#[test]
fn scan_lists_devices_on_a_bus_and_no_loop_devices() {
    let entries = vec![
        block("loop0", "../devices/virtual/block/loop0"),
        block("vda", VDA),
        block("loop1", "../devices/pci0000:00/block/loop1"),
        block("ram0", "../devices/virtual/block/ram0"),
        block("sdb", "../devices/platform/usb1/block/sdb"),
        block("myloop", "../devices/pci0000:00/block/myloop"),
    ];
    assert_eq!(scan_disks_in_dev_folder(&entries), vec![bare("vda"), bare("sdb"), bare("myloop")]);
    assert!(scan_disks_in_dev_folder(&Vec::new()).is_empty());
}

#[test]
fn sectors_are_512_bytes() {
    assert_eq!(size_in_bytes("8"), 4096);
    assert_eq!(size_in_bytes("2097152\n"), 1073741824);
    assert_eq!(size_in_bytes("  16\t\n"), 8192);
    assert_eq!(size_in_bytes("\u{a0}1\u{2003}"), 512);
    assert_eq!(size_in_bytes("+3"), 1536);
    assert_eq!(size_in_bytes("0"), 0);
    assert_eq!(size_in_bytes("007"), 3584);
}

#[test]
fn a_text_that_is_no_number_counts_as_zero() {
    assert_eq!(size_in_bytes(""), 0);
    assert_eq!(size_in_bytes("   "), 0);
    assert_eq!(size_in_bytes("+"), 0);
    assert_eq!(size_in_bytes("-1"), 0);
    assert_eq!(size_in_bytes("12a"), 0);
    assert_eq!(size_in_bytes("1 2"), 0);
    assert_eq!(size_in_bytes("++1"), 0);
    assert_eq!(size_in_bytes("0x10"), 0);
    // One more than fits 64 bits.
    assert_eq!(size_in_bytes("18446744073709551616"), 0);
    assert_eq!(size_in_bytes("99999999999999999999999"), 0);
}

#[test]
fn a_size_beyond_64_bits_is_cut_off() {
    assert_eq!(size_in_bytes("18446744073709551615"), u64::MAX << 9);
    assert_eq!(size_in_bytes("36028797018963968"), 0);
    assert_eq!(size_in_bytes("36028797018963969"), 512);
}

#[test]
fn sizes_are_filled_in_by_position() {
    let mut disks = vec![bare("vda"), bare("sdb"), bare("sdc")];
    disks[1].size = 5;
    disks[2].size = 6;
    get_disks_info(&mut disks, &vec![Some("8\n".to_string()), None]);
    assert_eq!(disks[0].size, 4096);
    // A file that could not be read leaves the size as it is.
    assert_eq!(disks[1].size, 5);
    assert_eq!(disks[2].size, 6);
    assert_eq!(disks[0].kernel, "vda");
    get_disks_info(&mut disks, &vec![Some("junk".to_string()), Some("1".to_string()), Some("2".to_string()), Some("3".to_string())]);
    assert_eq!(disks.iter().map(|d| d.size).collect::<Vec<_>>(), vec![0, 512, 1024]);
}

#[test]
fn partitions_are_numbered_one_to_nine() {
    assert_eq!(
        partition_names("sda"),
        vec!["sda1", "sda2", "sda3", "sda4", "sda5", "sda6", "sda7", "sda8", "sda9"]
    );
    assert_eq!(partition_names("")[0], "1");
}

#[test]
fn partitions_take_label_and_mount_points() {
    let mut disks = vec![bare("sda"), bare("sdb"), bare("sdc")];
    disks[2].partitions.push(Partition {
        kernel: "old".to_string(),
        size: 1,
        uuid: String::new(),
        mount_path: None,
        label: String::new(),
    });
    let probes = vec![
        vec![
            probe("sda1", Some("1111-aaaa"), 1000),
            PartitionProbe { kernel: "sda2".to_string(), device: None },
            probe("sda3", None, 3000),
            probe("sda4", Some("4444-dddd"), 4000),
        ],
        Vec::new(),
    ];
    let labels = vec![
        label("other", "../../sdb1"),
        // An entry whose link or name could not be read gives no label.
        LabelLink { name: Some("unread".to_string()), target: None },
        LabelLink { name: None, target: Some("../../sda1".to_string()) },
        label("first", "../../sda1"),
        label("second", "../../sda1"),
    ];
    let mounts = vec![
        Some("proc /proc proc rw 0 0".to_string()),
        Some("/dev/sda1 /boot ext4 rw 0 0".to_string()),
        // A line that could not be read is passed over.
        None,
        Some("/dev/sda10 /ten ext4 rw 0 0".to_string()),
        Some("/dev/sda4".to_string()),
        Some("/dev/sda4  /double ext4".to_string()),
        Some("/dev/sda4 /data".to_string()),
        Some(" /dev/sda1 /indented ext4".to_string()),
    ];
    get_disks_partitions(&mut disks, &probes, &labels, &mounts);
    assert_eq!(
        disks[0].partitions,
        vec![
            Partition {
                kernel: "sda1".to_string(),
                size: 1000,
                uuid: "1111-aaaa".to_string(),
                // A line is matched by its beginning, so `sda10` counts too.
                mount_path: Some(vec!["/boot".to_string(), "/ten".to_string()]),
                label: "first".to_string(),
            },
            Partition {
                kernel: "sda4".to_string(),
                size: 4000,
                uuid: "4444-dddd".to_string(),
                // No second field, an empty second field, a last field.
                mount_path: Some(vec![String::new(), "/data".to_string()]),
                label: String::new(),
            },
        ]
    );
    assert!(disks[1].partitions.is_empty());
    // A device without probes loses what it held.
    assert!(disks[2].partitions.is_empty());
    assert_eq!(disks[0].kernel, "sda");
}

#[test]
fn test_scan() {
    let entries = vec![block("loop0", "../devices/virtual/block/loop0"), block("vda", VDA)];
    let sizes = vec![Some("2048\n".to_string())];
    let probes = vec![vec![probe("vda1", Some("abcd"), 1048576)]];
    let labels = vec![label("root", "../../vda1")];
    let mounts = vec![Some("/dev/vda1 / ext4 rw 0 0".to_string())];
    let disks = get_disks(&entries, &sizes, &probes, &labels, &mounts);
    println!("{:?}", disks);
    assert_eq!(
        disks,
        Disks {
            disks: vec![DiskInfo {
                kernel: "vda".to_string(),
                size: 1048576,
                partitions: vec![Partition {
                    kernel: "vda1".to_string(),
                    size: 1048576,
                    uuid: "abcd".to_string(),
                    mount_path: Some(vec!["/".to_string()]),
                    label: "root".to_string(),
                }],
            }],
        }
    );
    assert_eq!(get_disks(&Vec::new(), &Vec::new(), &Vec::new(), &Vec::new(), &Vec::new()), Disks { disks: Vec::new() });
}

#[test]
fn the_inventory_is_published_partition_by_partition() {
    let part = |kernel: &str, mount_path: Option<Vec<&str>>| Partition {
        kernel: kernel.to_string(),
        size: 10,
        uuid: "id".to_string(),
        mount_path: mount_path.map(|v| v.into_iter().map(|s| s.to_string()).collect()),
        label: "l".to_string(),
    };
    let inventory = Disks {
        disks: vec![
            DiskInfo {
                kernel: "sda".to_string(),
                size: 100,
                partitions: vec![part("sda1", Some(vec!["/a", "/b"])), part("sda2", Some(vec![]))],
            },
            bare("sdb"),
            DiskInfo { kernel: "sdc".to_string(), size: 100, partitions: vec![part("sdc1", None)] },
        ],
    };
    let record = |name: &str, mounted: bool, mount_point: &str| DiskEntry {
        name: name.to_string(),
        size: 10,
        uuid: "id".to_string(),
        mounted,
        mount_point: mount_point.to_string(),
        label: "l".to_string(),
    };
    assert_eq!(
        inventory.to_service_data(),
        DiskServiceData {
            disks: vec![record("sda1", true, "/a"), record("sda2", false, ""), record("sdc1", false, "")],
        }
    );
    assert_eq!(Disks { disks: Vec::new() }.to_service_data(), DiskServiceData { disks: Vec::new() });
}
