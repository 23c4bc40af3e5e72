//! The rules by which the inventory of block devices is assembled from what
//! the host reports. Reading the host is left to the caller: every function
//! here takes what was read as plain values.

use crate::public::{DiskEntry, DiskRecord, DiskServiceData};
use crate::text::{
    chars_of, contains, occurs_at, parse_u64, push_char, spec_contains, spec_parse_u64, spec_starts_with, spec_trim, string_of,
    trim,
};
use vstd::prelude::*;

verus! {

/// Whether a block device hangs on a bus of interest, told from the path
/// that its entry under `/sys/block` links to: the path names `pci` or
/// `usb`.
pub fn is_valid_subsystem(device_path: &str) -> (valid: bool)
    ensures
        valid == (spec_contains(device_path@, "pci"@) || spec_contains(device_path@, "usb"@)),
{
    let path = chars_of(device_path);
    let pci = chars_of("pci");
    let usb = chars_of("usb");
    contains(&path, &pci) || contains(&path, &usb)
}

/// Whether the entry of a block device under `/sys/block` is of interest,
/// told from the path that it links to. `None` stands for a link that could
/// not be read or is no text: such an entry is of no interest.
pub open spec fn spec_is_listed_link(link: Option<Seq<char>>) -> bool {
    link matches Some(path) && (spec_contains(path, "pci"@) || spec_contains(path, "usb"@))
}

/// Whether the entry of a block device under `/sys/block` is of interest:
/// its link could be read, is a text, and names a bus of interest.
pub fn is_listed_link(link: Option<&str>) -> (valid: bool)
    ensures
        valid == (link matches Some(p) && (spec_contains(p@, "pci"@) || spec_contains(p@, "usb"@))),
{
    match link {
        Some(path) => is_valid_subsystem(path),
        None => false,
    }
}

/// A text that may be missing, as a mathematical value.
pub open spec fn spec_text(text: Option<String>) -> Option<Seq<char>> {
    match text {
        Some(t) => Some(t@),
        None => None,
    }
}

/// A partition as a mathematical value.
pub struct PartitionView {
    pub kernel: Seq<char>,
    pub size: u64,
    pub uuid: Seq<char>,
    pub mount_path: Option<Seq<Seq<char>>>,
    pub label: Seq<char>,
}

/// One partition of a block device.
#[derive(Debug, PartialEq, Eq)]
pub struct Partition {
    /// Kernel name, such as `sda1`.
    pub kernel: String,
    /// Capacity in bytes.
    pub size: u64,
    pub uuid: String,
    /// Where the partition is mounted; `None` while that is not known.
    pub mount_path: Option<Vec<String>>,
    pub label: String,
}

/// The views of `texts`, in order.
pub open spec fn spec_texts(texts: Seq<String>) -> Seq<Seq<char>> {
    texts.map_values(|t: String| t@)
}

impl View for Partition {
    type V = PartitionView;

    open spec fn view(&self) -> PartitionView {
        PartitionView {
            kernel: self.kernel@,
            size: self.size,
            uuid: self.uuid@,
            mount_path: match self.mount_path {
                Some(paths) => Some(spec_texts(paths@)),
                None => None,
            },
            label: self.label@,
        }
    }
}

/// A block device as a mathematical value.
pub struct DiskInfoView {
    pub kernel: Seq<char>,
    pub size: u64,
    pub partitions: Seq<PartitionView>,
}

/// One block device with its partitions.
#[derive(Debug, PartialEq, Eq)]
pub struct DiskInfo {
    /// Kernel name, such as `sda`.
    pub kernel: String,
    /// Capacity in bytes.
    pub size: u64,
    pub partitions: Vec<Partition>,
}

impl View for DiskInfo {
    type V = DiskInfoView;

    open spec fn view(&self) -> DiskInfoView {
        DiskInfoView {
            kernel: self.kernel@,
            size: self.size,
            partitions: self.partitions@.map_values(|p: Partition| p@),
        }
    }
}

/// The views of `disks`, in order.
pub open spec fn spec_disks(disks: Seq<DiskInfo>) -> Seq<DiskInfoView> {
    disks.map_values(|d: DiskInfo| d@)
}

/// The inventory: the block devices in discovery order.
#[derive(Debug, PartialEq, Eq)]
pub struct Disks {
    pub disks: Vec<DiskInfo>,
}

impl View for Disks {
    type V = Seq<DiskInfoView>;

    open spec fn view(&self) -> Seq<DiskInfoView> {
        spec_disks(self.disks@)
    }
}

/// An entry of `/sys/block` as a mathematical value.
pub struct BlockEntryView {
    pub name: Seq<char>,
    pub device_path: Option<Seq<char>>,
}

/// An entry of `/sys/block`: the kernel name of a block device and the path
/// that the entry links to, `None` where the link could not be read or is
/// no text.
#[derive(Debug, PartialEq, Eq)]
pub struct BlockEntry {
    pub name: String,
    pub device_path: Option<String>,
}

impl View for BlockEntry {
    type V = BlockEntryView;

    open spec fn view(&self) -> BlockEntryView {
        BlockEntryView { name: self.name@, device_path: spec_text(self.device_path) }
    }
}

/// Whether an entry of `/sys/block` is listed: its device hangs on a bus of
/// interest and is no loop device.
pub open spec fn spec_is_listed(entry: BlockEntryView) -> bool {
    &&& spec_is_listed_link(entry.device_path)
    &&& !spec_starts_with(entry.name, "loop"@)
}

/// A device as the scan first lists it: size and partitions still unknown.
pub open spec fn spec_unprobed(entry: BlockEntryView) -> DiskInfoView {
    DiskInfoView { kernel: entry.name, size: 0, partitions: Seq::empty() }
}

/// The devices that a scan of `entries` lists, in the order of the entries.
pub open spec fn spec_scan(entries: Seq<BlockEntryView>) -> Seq<DiskInfoView> {
    entries.filter(|e: BlockEntryView| spec_is_listed(e)).map_values(|e: BlockEntryView| spec_unprobed(e))
}

/// The views of `entries`, in order.
pub open spec fn spec_entries(entries: Seq<BlockEntry>) -> Seq<BlockEntryView> {
    entries.map_values(|e: BlockEntry| e@)
}

/// Lists the block devices among the entries of `/sys/block`: those on a
/// bus of interest, without the loop devices, in the order of the entries.
/// Sizes and partitions are filled in later.
pub fn scan_disks_in_dev_folder(entries: &Vec<BlockEntry>) -> (disks: Vec<DiskInfo>)
    ensures
        spec_disks(disks@) == spec_scan(spec_entries(entries@)),
{
    let lo = chars_of("loop");
    let mut disks: Vec<DiskInfo> = Vec::new();
    let mut i: usize = 0;
    proof {
        assert(spec_entries(entries@).take(0) =~= Seq::<BlockEntryView>::empty());
        reveal(Seq::filter);
        assert(spec_disks(disks@) =~= spec_scan(spec_entries(entries@).take(0)));
    }
    while i < entries.len()
        invariant
            i <= entries.len(),
            lo@ == "loop"@,
            spec_disks(disks@) == spec_scan(spec_entries(entries@).take(i as int)),
        decreases entries.len() - i,
    {
        let entry = &entries[i];
        let ghost before = disks@;
        let name = chars_of(entry.name.as_str());
        let link = match &entry.device_path {
            Some(path) => Some(path.as_str()),
            None => None,
        };
        let listed = is_listed_link(link) && !occurs_at(&name, &lo, 0);
        if listed {
            disks.push(DiskInfo { kernel: entry.name.clone(), size: 0, partitions: Vec::new() });
        }
        proof {
            let views = spec_entries(entries@);
            let pred = |e: BlockEntryView| spec_is_listed(e);
            let make = |e: BlockEntryView| spec_unprobed(e);
            assert(views.take(i + 1).drop_last() =~= views.take(i as int));
            assert(views.take(i + 1).last() == entry@);
            reveal(Seq::filter);
            assert(listed == spec_is_listed(entry@));
            if listed {
                let kept = views.take(i as int).filter(pred);
                assert(views.take(i + 1).filter(pred) == kept.push(entry@));
                assert(kept.push(entry@).map_values(make) =~= kept.map_values(make).push(spec_unprobed(entry@)));
                let pushed = disks@[disks@.len() - 1];
                assert(pushed.partitions@.map_values(|p: Partition| p@) =~= Seq::<PartitionView>::empty());
                assert(pushed@ == spec_unprobed(entry@));
                assert(spec_disks(disks@) =~= spec_disks(before).push(spec_unprobed(entry@)));
            }
        }
        i += 1;
    }
    proof {
        assert(spec_entries(entries@).take(entries@.len() as int) =~= spec_entries(entries@));
    }
    disks
}

/// The capacity in bytes that the text of a `size` file under `/sys/block`
/// stands for. The file holds the number of sectors of 512 bytes, with
/// white space around it. A text that is no number counts as zero sectors;
/// what does not fit 64 bits after the multiplication is cut off.
pub open spec fn spec_size_in_bytes(text: Seq<char>) -> u64 {
    match spec_parse_u64(spec_trim(text)) {
        Some(sectors) => sectors << 9u64,
        None => 0,
    }
}

/// The capacity in bytes that the text of a `size` file stands for.
pub fn size_in_bytes(text: &str) -> (size: u64)
    ensures
        size == spec_size_in_bytes(text@),
{
    let chars = chars_of(text);
    let (lo, hi) = trim(&chars);
    match parse_u64(&chars, lo, hi) {
        Some(sectors) => sectors << 9u64,
        None => 0,
    }
}

/// The devices with their sizes filled in. `sizes[i]` is what was read from
/// the `size` file of `disks[i]`, or `None` where it could not be read: such
/// a device, and one that `sizes` does not reach, keeps the size it has.
pub open spec fn spec_with_sizes(disks: Seq<DiskInfoView>, sizes: Seq<Option<String>>) -> Seq<DiskInfoView> {
    Seq::new(
        disks.len(),
        |i: int|
            if i < sizes.len() && sizes[i] is Some {
                DiskInfoView { size: spec_size_in_bytes(sizes[i]->0@), ..disks[i] }
            } else {
                disks[i]
            },
    )
}

/// Fills in the size of every device from the text of its `size` file.
pub fn get_disks_info(disks: &mut Vec<DiskInfo>, sizes: &Vec<Option<String>>)
    ensures
        spec_disks(final(disks)@) == spec_with_sizes(spec_disks(old(disks)@), sizes@),
{
    let mut i: usize = 0;
    while i < disks.len()
        invariant
            i <= disks.len(),
            disks.len() == old(disks).len(),
            forall|j: int| 0 <= j < i ==> (#[trigger] disks@[j])@ == spec_with_sizes(spec_disks(old(disks)@), sizes@)[j],
            forall|j: int| i <= j < disks.len() ==> disks@[j] == old(disks)@[j],
        decreases disks.len() - i,
    {
        if i < sizes.len() {
            match &sizes[i] {
                Some(text) => {
                    let size = size_in_bytes(text.as_str());
                    disks[i].size = size;
                },
                None => {},
            }
        }
        i += 1;
    }
    proof {
        assert(spec_disks(disks@) =~= spec_with_sizes(spec_disks(old(disks)@), sizes@));
    }
}

/// An entry of `/dev/disk/by-label` as a mathematical value.
pub struct LabelLinkView {
    pub name: Option<Seq<char>>,
    pub target: Option<Seq<char>>,
}

/// An entry of `/dev/disk/by-label`: the label that names it and the device
/// path that it links to. Either is `None` where it could not be read or is
/// no text.
#[derive(Debug, PartialEq, Eq)]
pub struct LabelLink {
    pub name: Option<String>,
    pub target: Option<String>,
}

impl View for LabelLink {
    type V = LabelLinkView;

    open spec fn view(&self) -> LabelLinkView {
        LabelLinkView { name: spec_text(self.name), target: spec_text(self.target) }
    }
}

/// The views of `labels`, in order.
pub open spec fn spec_labels(labels: Seq<LabelLink>) -> Seq<LabelLinkView> {
    labels.map_values(|l: LabelLink| l@)
}

/// Whether an entry gives the partition `kernel` its label: its target
/// names the partition and its own name is known.
pub open spec fn spec_labels_partition(label: LabelLinkView, kernel: Seq<char>) -> bool {
    label.target matches Some(target) && spec_contains(target, kernel) && label.name is Some
}

/// The label of the partition `kernel`: the name of the first entry that
/// gives it one, or the empty text where none does.
pub open spec fn spec_label_for(labels: Seq<LabelLinkView>, kernel: Seq<char>) -> Seq<char>
    decreases labels.len(),
{
    if labels.len() == 0 {
        Seq::empty()
    } else if spec_labels_partition(labels[0], kernel) {
        labels[0].name->0
    } else {
        spec_label_for(labels.skip(1), kernel)
    }
}

/// Length of the field that `text` begins with: up to its first blank.
pub open spec fn spec_field_len(text: Seq<char>) -> int
    decreases text.len(),
{
    if text.len() == 0 || text[0] == ' ' {
        0
    } else {
        1 + spec_field_len(text.skip(1))
    }
}

/// The second of the fields that single blanks separate in `line`, or
/// `None` where the line has no blank.
pub open spec fn spec_second_field(line: Seq<char>) -> Option<Seq<char>> {
    let first = spec_field_len(line);
    if first < line.len() {
        let rest = line.skip(first + 1);
        Some(rest.take(spec_field_len(rest)))
    } else {
        None
    }
}

/// The device path of the partition `kernel`.
pub open spec fn spec_device_path(kernel: Seq<char>) -> Seq<char> {
    "/dev/"@ + kernel
}

/// The mount point that a line of `/proc/mounts` gives the partition
/// `kernel`: the second field of a line that begins with the partition's
/// device path. `None` for any other line, for one without a second field,
/// and for one that could not be read.
pub open spec fn spec_mount_point(line: Option<Seq<char>>, kernel: Seq<char>) -> Option<Seq<char>> {
    match line {
        Some(text) => if spec_starts_with(text, spec_device_path(kernel)) {
            spec_second_field(text)
        } else {
            None
        },
        None => None,
    }
}

/// Where the partition `kernel` is mounted, by the lines of `/proc/mounts`:
/// the mount points that the lines give it, in the order of the lines.
pub open spec fn spec_mount_points(mounts: Seq<Option<Seq<char>>>, kernel: Seq<char>) -> Seq<Seq<char>>
    decreases mounts.len(),
{
    if mounts.len() == 0 {
        Seq::empty()
    } else {
        let before = spec_mount_points(mounts.drop_last(), kernel);
        match spec_mount_point(mounts.last(), kernel) {
            Some(point) => before.push(point),
            None => before,
        }
    }
}

/// The lines that were read, as mathematical values, in order.
pub open spec fn spec_lines(lines: Seq<Option<String>>) -> Seq<Option<Seq<char>>> {
    lines.map_values(|l: Option<String>| spec_text(l))
}

/// What a probe found of a device.
#[derive(Debug, PartialEq, Eq)]
pub struct DeviceProbe {
    /// The identifier of the file system, where the device has one.
    pub id: Option<String>,
    /// Capacity in bytes.
    pub capacity: u64,
}

/// A partition whose device node exists, and what a probe of it found;
/// `None` where the probe failed.
#[derive(Debug, PartialEq, Eq)]
pub struct PartitionProbe {
    pub kernel: String,
    pub device: Option<DeviceProbe>,
}

/// The partition that a probe yields: none where the probe failed or found
/// no identifier; otherwise the probed capacity and identifier, the label
/// from `/dev/disk/by-label` and the mount points from `/proc/mounts`.
pub open spec fn spec_partition_info(
    probe: PartitionProbe,
    labels: Seq<LabelLinkView>,
    mounts: Seq<Option<Seq<char>>>,
) -> Option<PartitionView> {
    match probe.device {
        Some(DeviceProbe { id: Some(uuid), capacity }) => Some(
            PartitionView {
                kernel: probe.kernel@,
                size: capacity,
                uuid: uuid@,
                mount_path: Some(spec_mount_points(mounts, probe.kernel@)),
                label: spec_label_for(labels, probe.kernel@),
            },
        ),
        _ => None,
    }
}

/// The partitions that the probes of one device yield, in order.
pub open spec fn spec_partitions(
    probes: Seq<PartitionProbe>,
    labels: Seq<LabelLinkView>,
    mounts: Seq<Option<Seq<char>>>,
) -> Seq<PartitionView>
    decreases probes.len(),
{
    if probes.len() == 0 {
        Seq::empty()
    } else {
        let before = spec_partitions(probes.drop_last(), labels, mounts);
        match spec_partition_info(probes.last(), labels, mounts) {
            Some(partition) => before.push(partition),
            None => before,
        }
    }
}

/// The devices with their partitions filled in. `probes[i]` holds the
/// probes of the partitions of `disks[i]`; a device that `probes` does not
/// reach has no partitions.
pub open spec fn spec_with_partitions(
    disks: Seq<DiskInfoView>,
    probes: Seq<Vec<PartitionProbe>>,
    labels: Seq<LabelLinkView>,
    mounts: Seq<Option<Seq<char>>>,
) -> Seq<DiskInfoView> {
    Seq::new(
        disks.len(),
        |i: int|
            DiskInfoView {
                partitions: if i < probes.len() {
                    spec_partitions(probes[i]@, labels, mounts)
                } else {
                    Seq::empty()
                },
                ..disks[i]
            },
    )
}

/// The length of the field that `text[from..]` begins with.
fn field_len(text: &Vec<char>, from: usize) -> (len: usize)
    requires
        from <= text.len(),
    ensures
        len == spec_field_len(text@.skip(from as int)),
        from + len <= text.len(),
{
    let mut len: usize = 0;
    while from + len < text.len() && text[from + len] != ' '
        invariant
            from + len <= text.len(),
            spec_field_len(text@.skip(from as int)) == len + spec_field_len(text@.skip(from + len)),
        decreases text.len() - from - len,
    {
        proof {
            assert(text@.skip(from + len).skip(1) =~= text@.skip(from + len + 1));
        }
        len += 1;
    }
    len
}

fn second_field(line: &Vec<char>) -> (field: Option<String>)
    ensures
        match spec_second_field(line@) {
            Some(f) => field matches Some(s) && s@ == f,
            None => field is None,
        },
{
    proof {
        assert(line@.skip(0) =~= line@);
    }
    let first = field_len(line, 0);
    if first < line.len() {
        let len = field_len(line, first + 1);
        proof {
            let rest = line@.skip(first + 1);
            assert(rest.take(len as int) =~= line@.subrange(first + 1, first + 1 + len));
        }
        Some(string_of(line, first + 1, first + 1 + len))
    } else {
        None
    }
}

fn label_for(labels: &Vec<LabelLink>, kernel: &Vec<char>) -> (label: String)
    ensures
        label@ == spec_label_for(spec_labels(labels@), kernel@),
{
    let mut i: usize = 0;
    proof {
        assert(spec_labels(labels@).skip(0) =~= spec_labels(labels@));
    }
    while i < labels.len()
        invariant
            i <= labels.len(),
            spec_label_for(spec_labels(labels@), kernel@) == spec_label_for(
                spec_labels(labels@).skip(i as int),
                kernel@,
            ),
        decreases labels.len() - i,
    {
        proof {
            let rest = spec_labels(labels@).skip(i as int);
            assert(rest[0] == labels@[i as int]@);
            assert(rest.skip(1) =~= spec_labels(labels@).skip(i + 1));
        }
        match (&labels[i].target, &labels[i].name) {
            (Some(target), Some(name)) => {
                let target = chars_of(target.as_str());
                if contains(&target, kernel) {
                    return name.clone();
                }
            },
            _ => {},
        }
        i += 1;
    }
    String::new()
}

fn mount_points(mounts: &Vec<Option<String>>, kernel: &Vec<char>) -> (points: Vec<String>)
    ensures
        spec_texts(points@) == spec_mount_points(spec_lines(mounts@), kernel@),
{
    let mut path = chars_of("/dev/");
    let mut k: usize = 0;
    while k < kernel.len()
        invariant
            k <= kernel.len(),
            path@ == "/dev/"@ + kernel@.take(k as int),
        decreases kernel.len() - k,
    {
        path.push(kernel[k]);
        proof {
            assert("/dev/"@ + kernel@.take(k + 1) =~= ("/dev/"@ + kernel@.take(k as int)).push(kernel@[k as int]));
        }
        k += 1;
    }
    proof {
        assert(kernel@.take(kernel@.len() as int) =~= kernel@);
    }
    let mut points: Vec<String> = Vec::new();
    let mut i: usize = 0;
    proof {
        assert(spec_lines(mounts@).take(0) =~= Seq::<Option<Seq<char>>>::empty());
        assert(spec_texts(points@) =~= Seq::<Seq<char>>::empty());
    }
    while i < mounts.len()
        invariant
            i <= mounts.len(),
            path@ == spec_device_path(kernel@),
            spec_texts(points@) == spec_mount_points(spec_lines(mounts@).take(i as int), kernel@),
        decreases mounts.len() - i,
    {
        let ghost before = points@;
        proof {
            let lines = spec_lines(mounts@);
            assert(lines.take(i + 1).drop_last() =~= lines.take(i as int));
            assert(lines.take(i + 1).last() == spec_text(mounts@[i as int]));
        }
        match &mounts[i] {
            Some(text) => {
                let line = chars_of(text.as_str());
                if occurs_at(&line, &path, 0) {
                    match second_field(&line) {
                        Some(point) => {
                            points.push(point);
                            proof {
                                assert(spec_texts(points@) =~= spec_texts(before).push(point@));
                            }
                        },
                        None => {},
                    }
                }
            },
            None => {},
        }
        i += 1;
    }
    proof {
        assert(spec_lines(mounts@).take(mounts@.len() as int) =~= spec_lines(mounts@));
    }
    points
}

/// The partition that a probe yields, if it yields one.
fn get_partition_info(probe: &PartitionProbe, labels: &Vec<LabelLink>, mounts: &Vec<Option<String>>) -> (partition: Option<
    Partition,
>)
    ensures
        match spec_partition_info(*probe, spec_labels(labels@), spec_lines(mounts@)) {
            Some(p) => partition matches Some(made) && made@ == p,
            None => partition is None,
        },
{
    match &probe.device {
        None => None,
        Some(device) => match &device.id {
            None => None,
            Some(uuid) => {
                let kernel = chars_of(probe.kernel.as_str());
                let label = label_for(labels, &kernel);
                let points = mount_points(mounts, &kernel);
                Some(
                    Partition {
                        kernel: probe.kernel.clone(),
                        size: device.capacity,
                        uuid: uuid.clone(),
                        mount_path: Some(points),
                        label,
                    },
                )
            },
        },
    }
}

/// The views of `partitions`, in order.
pub open spec fn spec_partition_views(partitions: Seq<Partition>) -> Seq<PartitionView> {
    partitions.map_values(|p: Partition| p@)
}

fn partitions_of(probes: &Vec<PartitionProbe>, labels: &Vec<LabelLink>, mounts: &Vec<Option<String>>) -> (partitions: Vec<
    Partition,
>)
    ensures
        spec_partition_views(partitions@) == spec_partitions(probes@, spec_labels(labels@), spec_lines(mounts@)),
{
    let mut partitions: Vec<Partition> = Vec::new();
    let mut i: usize = 0;
    proof {
        assert(probes@.take(0) =~= Seq::<PartitionProbe>::empty());
        assert(spec_partition_views(partitions@) =~= Seq::<PartitionView>::empty());
    }
    while i < probes.len()
        invariant
            i <= probes.len(),
            spec_partition_views(partitions@) == spec_partitions(
                probes@.take(i as int),
                spec_labels(labels@),
                spec_lines(mounts@),
            ),
        decreases probes.len() - i,
    {
        let ghost before = partitions@;
        proof {
            assert(probes@.take(i + 1).drop_last() =~= probes@.take(i as int));
            assert(probes@.take(i + 1).last() == probes@[i as int]);
        }
        match get_partition_info(&probes[i], labels, mounts) {
            Some(partition) => {
                partitions.push(partition);
                proof {
                    assert(spec_partition_views(partitions@) =~= spec_partition_views(before).push(partition@));
                }
            },
            None => {},
        }
        i += 1;
    }
    proof {
        assert(probes@.take(probes@.len() as int) =~= probes@);
    }
    partitions
}

/// Fills in the partitions of every device from the probes of its
/// partitions, the entries of `/dev/disk/by-label` and the lines of
/// `/proc/mounts`.
pub fn get_disks_partitions(
    disks: &mut Vec<DiskInfo>,
    probes: &Vec<Vec<PartitionProbe>>,
    labels: &Vec<LabelLink>,
    mounts: &Vec<Option<String>>,
)
    ensures
        spec_disks(final(disks)@) == spec_with_partitions(
            spec_disks(old(disks)@),
            probes@,
            spec_labels(labels@),
            spec_lines(mounts@),
        ),
{
    let mut i: usize = 0;
    while i < disks.len()
        invariant
            i <= disks.len(),
            disks.len() == old(disks).len(),
            forall|j: int|
                0 <= j < i ==> (#[trigger] disks@[j])@ == spec_with_partitions(
                    spec_disks(old(disks)@),
                    probes@,
                    spec_labels(labels@),
                    spec_lines(mounts@),
                )[j],
            forall|j: int| i <= j < disks.len() ==> disks@[j] == old(disks)@[j],
        decreases disks.len() - i,
    {
        let partitions = if i < probes.len() {
            partitions_of(&probes[i], labels, mounts)
        } else {
            let none: Vec<Partition> = Vec::new();
            proof {
                assert(spec_partition_views(none@) =~= Seq::<PartitionView>::empty());
            }
            none
        };
        disks[i].partitions = partitions;
        i += 1;
    }
    proof {
        assert(spec_disks(disks@) =~= spec_with_partitions(
            spec_disks(old(disks)@),
            probes@,
            spec_labels(labels@),
            spec_lines(mounts@),
        ));
    }
}

/// The digits that number the partitions of a device.
pub open spec fn spec_partition_digits() -> Seq<char> {
    seq!['1', '2', '3', '4', '5', '6', '7', '8', '9']
}

/// The kernel names under which the partitions of the device `kernel` are
/// looked for: the name of the device followed by one digit, `1` to `9`.
pub fn partition_names(kernel: &str) -> (names: Vec<String>)
    ensures
        names@.len() == 9,
        forall|i: int| 0 <= i < 9 ==> (#[trigger] names@[i])@ == kernel@.push(spec_partition_digits()[i]),
{
    let digits: [char; 9] = ['1', '2', '3', '4', '5', '6', '7', '8', '9'];
    let mut names: Vec<String> = Vec::new();
    let mut i: usize = 0;
    while i < 9
        invariant
            i <= 9,
            digits@ == spec_partition_digits(),
            names@.len() == i,
            forall|j: int| 0 <= j < i ==> (#[trigger] names@[j])@ == kernel@.push(spec_partition_digits()[j]),
        decreases 9 - i,
    {
        let mut name = kernel.to_owned();
        push_char(&mut name, digits[i]);
        names.push(name);
        i += 1;
    }
    names
}

/// The inventory that a scan yields: the listed devices, with the sizes and
/// the partitions that were read for them.
pub open spec fn spec_get_disks(
    entries: Seq<BlockEntryView>,
    sizes: Seq<Option<String>>,
    probes: Seq<Vec<PartitionProbe>>,
    labels: Seq<LabelLinkView>,
    mounts: Seq<Option<Seq<char>>>,
) -> Seq<DiskInfoView> {
    spec_with_partitions(spec_with_sizes(spec_scan(entries), sizes), probes, labels, mounts)
}

/// Assembles the inventory from what was read of the host: the entries of
/// `/sys/block`; for the devices that `scan_disks_in_dev_folder` lists of
/// them, in that order, the text of the `size` file and the probes of the
/// partitions; the entries of `/dev/disk/by-label`; the lines of
/// `/proc/mounts`.
pub fn get_disks(
    entries: &Vec<BlockEntry>,
    sizes: &Vec<Option<String>>,
    probes: &Vec<Vec<PartitionProbe>>,
    labels: &Vec<LabelLink>,
    mounts: &Vec<Option<String>>,
) -> (inventory: Disks)
    ensures
        inventory@ == spec_get_disks(
            spec_entries(entries@),
            sizes@,
            probes@,
            spec_labels(labels@),
            spec_lines(mounts@),
        ),
{
    let mut disks = scan_disks_in_dev_folder(entries);
    get_disks_info(&mut disks, sizes);
    get_disks_partitions(&mut disks, probes, labels, mounts);
    Disks { disks }
}

/// The record that a partition is published as: mounted where it has a
/// mount point, and then at the first of them.
pub open spec fn spec_record(partition: PartitionView) -> DiskRecord {
    DiskRecord {
        name: partition.kernel,
        size: partition.size,
        uuid: partition.uuid,
        mounted: partition.mount_path matches Some(paths) && paths.len() > 0,
        mount_point: match partition.mount_path {
            Some(paths) => if paths.len() > 0 {
                paths[0]
            } else {
                Seq::empty()
            },
            None => Seq::empty(),
        },
        label: partition.label,
    }
}

/// The records of the inventory: one for every partition, device by device.
pub open spec fn spec_records(disks: Seq<DiskInfoView>) -> Seq<DiskRecord>
    decreases disks.len(),
{
    if disks.len() == 0 {
        Seq::empty()
    } else {
        spec_records(disks.drop_last()) + disks.last().partitions.map_values(|p: PartitionView| spec_record(p))
    }
}

fn record_of(partition: &Partition) -> (entry: DiskEntry)
    ensures
        entry@ == spec_record(partition@),
{
    let (mounted, mount_point) = match &partition.mount_path {
        Some(paths) => if paths.len() > 0 {
            (true, paths[0].clone())
        } else {
            (false, String::new())
        },
        None => (false, String::new()),
    };
    DiskEntry {
        name: partition.kernel.clone(),
        size: partition.size,
        uuid: partition.uuid.clone(),
        mounted,
        mount_point,
        label: partition.label.clone(),
    }
}

impl Disks {
    /// The snapshot that the disk source publishes of this inventory: one
    /// record for every partition, device by device.
    pub fn to_service_data(&self) -> (data: DiskServiceData)
        ensures
            data@ == spec_records(self@),
    {
        let mut entries: Vec<DiskEntry> = Vec::new();
        let ghost view = |d: DiskEntry| d@;
        let ghost record = |p: PartitionView| spec_record(p);
        let mut i: usize = 0;
        proof {
            assert(self@.take(0) =~= Seq::<DiskInfoView>::empty());
            assert(entries@.map_values(view) =~= Seq::<DiskRecord>::empty());
        }
        while i < self.disks.len()
            invariant
                i <= self.disks.len(),
                view == |d: DiskEntry| d@,
                record == |p: PartitionView| spec_record(p),
                entries@.map_values(view) == spec_records(self@.take(i as int)),
            decreases self.disks.len() - i,
        {
            let disk = &self.disks[i];
            let ghost before = entries@;
            let mut j: usize = 0;
            proof {
                assert(disk@.partitions.take(0) =~= Seq::<PartitionView>::empty());
                assert(before.map_values(view) + disk@.partitions.take(0).map_values(record) =~= before.map_values(
                    view,
                ));
            }
            while j < disk.partitions.len()
                invariant
                    j <= disk.partitions.len(),
                    view == |d: DiskEntry| d@,
                    record == |p: PartitionView| spec_record(p),
                    entries@.map_values(view) == before.map_values(view) + disk@.partitions.take(j as int).map_values(
                        record,
                    ),
                decreases disk.partitions.len() - j,
            {
                let ghost sofar = entries@;
                let entry = record_of(&disk.partitions[j]);
                entries.push(entry);
                proof {
                    assert(disk@.partitions[j as int] == disk.partitions@[j as int]@);
                    assert(disk@.partitions.take(j + 1).map_values(record) =~= disk@.partitions.take(
                        j as int,
                    ).map_values(record).push(entry@));
                    assert(entries@.map_values(view) =~= sofar.map_values(view).push(entry@));
                }
                j += 1;
            }
            proof {
                assert(disk@.partitions.take(disk.partitions@.len() as int) =~= disk@.partitions);
                assert(self@.take(i + 1).drop_last() =~= self@.take(i as int));
                assert(self@.take(i + 1).last() == disk@);
            }
            i += 1;
        }
        proof {
            assert(self@.take(self.disks@.len() as int) =~= self@);
        }
        DiskServiceData { disks: entries }
    }
}

} // verus!
