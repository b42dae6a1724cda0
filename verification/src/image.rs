//! Firmware images and flash plans.
//!
//! A firmware image is a blob with a declared format. A flash plan is the
//! set of writes, each an address with its bytes, that programming the image
//! comes to. A raw binary is planned here: its bytes go, one for one, to a
//! base address of the target's memory map. Intel-hex and ELF images carry
//! their own addressing and are parsed by the driver.

use vstd::prelude::*;
use crate::text::same_text;

verus! {

/// The formats in which a firmware image can be declared.
#[derive(Clone, Copy, PartialEq, Eq, Debug, Structural)]
pub enum ImageFormat {
    /// A raw binary: the contents of the flash, one for one.
    Bin,
    /// Intel-hex.
    Hex,
    /// ELF.
    Elf,
}

/// Why an image was turned down.
#[derive(Clone, Copy, PartialEq, Eq, Debug, Structural)]
pub enum ImageError {
    /// The declared format is none of the recognised ones.
    UnsupportedFormat,
    /// The content is malformed, or it does not fit the target's memory.
    ImageParseError,
}

/// The format that a tag declares, if it declares one.
pub open spec fn format_tagged(tag: Seq<char>) -> Option<ImageFormat> {
    if tag == "bin"@ {
        Some(ImageFormat::Bin)
    } else if tag == "hex"@ {
        Some(ImageFormat::Hex)
    } else if tag == "elf"@ {
        Some(ImageFormat::Elf)
    } else {
        None
    }
}

impl ImageFormat {
    /// Reads a format tag: `bin`, `hex` or `elf`. Every other tag is turned
    /// down with `UnsupportedFormat`.
    pub fn from_tag(tag: &str) -> (format: Result<ImageFormat, ImageError>)
        ensures
            match format {
                Ok(read) => format_tagged(tag@) == Some(read),
                Err(error) => format_tagged(tag@) is None && error == ImageError::UnsupportedFormat,
            },
    {
        if same_text(tag, "bin") {
            Ok(ImageFormat::Bin)
        } else if same_text(tag, "hex") {
            Ok(ImageFormat::Hex)
        } else if same_text(tag, "elf") {
            Ok(ImageFormat::Elf)
        } else {
            Err(ImageError::UnsupportedFormat)
        }
    }
}

/// A firmware image as it was uploaded.
#[derive(Debug)]
pub struct FirmwareImage {
    /// The declared format.
    pub format: ImageFormat,
    /// The blob.
    pub bytes: Vec<u8>,
    /// Where a raw binary goes; `None` for the target's default. Images in
    /// the other formats carry their own addresses and ignore it.
    pub base_address: Option<u64>,
    /// How many bytes at the start of a raw binary are left out.
    pub skip: u32,
    /// The version of the firmware, where it was given.
    pub version: Option<u32>,
}

impl FirmwareImage {
    /// An image in the format that the tag declares, to be placed at the
    /// target's default address, with nothing left out.
    pub fn new(tag: &str, bytes: Vec<u8>, version: Option<u32>) -> (image: Result<
        FirmwareImage,
        ImageError,
    >)
        ensures
            match image {
                Ok(made) => {
                    &&& format_tagged(tag@) == Some(made.format)
                    &&& made.bytes == bytes
                    &&& made.base_address is None
                    &&& made.skip == 0
                    &&& made.version == version
                },
                Err(error) => format_tagged(tag@) is None && error == ImageError::UnsupportedFormat,
            },
    {
        match ImageFormat::from_tag(tag) {
            Ok(format) => Ok(FirmwareImage { format, bytes, base_address: None, skip: 0, version }),
            Err(error) => Err(error),
        }
    }
}

/// What a region of a target's memory is.
#[derive(Clone, Copy, PartialEq, Eq, Debug, Structural)]
pub enum RegionKind {
    /// Flash or other non-volatile memory.
    Nvm,
    /// RAM.
    Ram,
    /// Neither.
    Generic,
}

/// One region of a target's memory: the addresses from `start` up to, and
/// not including, `end`.
#[derive(Clone, Copy, PartialEq, Eq, Debug, Structural)]
pub struct MemoryRegion {
    pub kind: RegionKind,
    pub start: u64,
    pub end: u64,
    /// Whether the target boots from this region.
    pub boot: bool,
}

impl MemoryRegion {
    /// Whether the region holds an address.
    pub open spec fn holds(self, address: int) -> bool {
        self.start <= address < self.end
    }

    /// Whether an image may be placed in the region.
    pub open spec fn programmable(self) -> bool {
        self.kind is Nvm || self.kind is Ram
    }

    /// Whether the region is one in which a raw binary goes by default:
    /// non-volatile, and, where `boot_only` is set, booted from.
    pub open spec fn takes_binary(self, boot_only: bool) -> bool {
        self.kind is Nvm && (self.boot || !boot_only)
    }
}

/// Whether some programmable region holds an address.
pub open spec fn programmable_at(regions: Seq<MemoryRegion>, address: int) -> bool {
    exists|i: int|
        0 <= i < regions.len() && (#[trigger] regions[i]).programmable() && regions[i].holds(
            address,
        )
}

/// Whether programmable regions, one or several, hold every address from
/// `start` up to, and not including, `end`.
pub open spec fn covers(regions: Seq<MemoryRegion>, start: int, end: int) -> bool {
    forall|address: int| start <= address < end ==> #[trigger] programmable_at(regions, address)
}

/// The start of the first region that takes a raw binary.
pub open spec fn first_binary_start(regions: Seq<MemoryRegion>, boot_only: bool) -> Option<u64>
    decreases regions.len(),
{
    if regions.len() == 0 {
        None
    } else if regions[0].takes_binary(boot_only) {
        Some(regions[0].start)
    } else {
        first_binary_start(regions.drop_first(), boot_only)
    }
}

/// The address at which a target takes a raw binary unless told otherwise:
/// the start of its first non-volatile region that it boots from or, where
/// it boots from none, of its first non-volatile region.
pub open spec fn default_base(regions: Seq<MemoryRegion>) -> Option<u64> {
    match first_binary_start(regions, true) {
        Some(base) => Some(base),
        None => first_binary_start(regions, false),
    }
}

/// The memory map of a target.
#[derive(Debug)]
pub struct MemoryMap {
    pub regions: Vec<MemoryRegion>,
}

impl MemoryMap {
    /// The memory map with the given regions.
    pub fn new(regions: Vec<MemoryRegion>) -> (map: Self)
        ensures
            map.regions == regions,
    {
        MemoryMap { regions }
    }

    /// Finds a programmable region that holds an address.
    fn programmable_region(&self, address: u64) -> (found: Option<MemoryRegion>)
        ensures
            match found {
                Some(region) => region.programmable() && region.holds(address as int)
                    && self.regions@.contains(region),
                None => !programmable_at(self.regions@, address as int),
            },
    {
        let mut at: usize = 0;
        while at < self.regions.len()
            invariant
                at <= self.regions.len(),
                forall|i: int|
                    0 <= i < at ==> !((#[trigger] self.regions@[i]).programmable()
                        && self.regions@[i].holds(address as int)),
            decreases self.regions.len() - at,
        {
            let region = self.regions[at];
            let fits = match region.kind {
                RegionKind::Generic => false,
                _ => region.start <= address && address < region.end,
            };
            if fits {
                return Some(region);
            }
            at += 1;
        }
        None
    }

    /// Tells whether programmable regions hold every address from `start`
    /// up to, and not including, `end`.
    pub fn is_covered(&self, start: u64, end: u64) -> (covered: bool)
        ensures
            covered == covers(self.regions@, start as int, end as int),
    {
        let mut at: u64 = start;
        while at < end
            invariant
                start <= at,
                covers(self.regions@, start as int, at as int),
            decreases end - at,
        {
            match self.programmable_region(at) {
                Some(region) => {
                    assert forall|address: int| start <= address < region.end implies #[trigger] programmable_at(
                        self.regions@,
                        address,
                    ) by {
                        if address >= at {
                            let i = choose|i: int|
                                0 <= i < self.regions@.len() && self.regions@[i] == region;
                            assert(self.regions@[i].programmable() && self.regions@[i].holds(
                                address,
                            ));
                        }
                    }
                    at = if region.end < end {
                        region.end
                    } else {
                        end
                    };
                },
                None => {
                    return false;
                },
            }
        }
        true
    }

    /// Finds the start of the first region that takes a raw binary.
    fn binary_start(&self, boot_only: bool) -> (start: Option<u64>)
        ensures
            start == first_binary_start(self.regions@, boot_only),
    {
        let mut at: usize = 0;
        assert(self.regions@.skip(0) =~= self.regions@);
        while at < self.regions.len()
            invariant
                at <= self.regions.len(),
                first_binary_start(self.regions@, boot_only) == first_binary_start(
                    self.regions@.skip(at as int),
                    boot_only,
                ),
            decreases self.regions.len() - at,
        {
            let region = self.regions[at];
            let taken = match region.kind {
                RegionKind::Nvm => region.boot || !boot_only,
                _ => false,
            };
            proof {
                assert(self.regions@.skip(at as int)[0] == region);
                assert(self.regions@.skip(at as int).drop_first() =~= self.regions@.skip(
                    at as int + 1,
                ));
            }
            if taken {
                return Some(region.start);
            }
            at += 1;
        }
        None
    }

    /// The address at which the target takes a raw binary unless told
    /// otherwise.
    pub fn default_base(&self) -> (base: Option<u64>)
        ensures
            base == default_base(self.regions@),
    {
        match self.binary_start(true) {
            Some(base) => Some(base),
            None => self.binary_start(false),
        }
    }
}

/// One write of a flash plan: bytes, and the address of the first of them.
#[derive(Debug)]
pub struct FlashSegment {
    pub address: u64,
    pub data: Vec<u8>,
}

/// A write as plain values.
pub struct SegmentView {
    pub address: u64,
    pub data: Seq<u8>,
}

impl SegmentView {
    /// The address after the last byte of the write.
    pub open spec fn end(self) -> int {
        self.address + self.data.len()
    }

    /// Whether the write reaches an address.
    pub open spec fn holds(self, address: int) -> bool {
        self.address <= address < self.end()
    }
}

impl View for FlashSegment {
    type V = SegmentView;

    open spec fn view(&self) -> SegmentView {
        SegmentView { address: self.address, data: self.data@ }
    }
}

/// Whether a plan writes an address.
pub open spec fn written(segments: Seq<SegmentView>, address: int) -> bool {
    exists|i: int| 0 <= i < segments.len() && (#[trigger] segments[i]).holds(address)
}

/// The byte that a plan writes at an address that it writes.
pub open spec fn byte_written(segments: Seq<SegmentView>, address: int) -> u8 {
    let i = choose|i: int| 0 <= i < segments.len() && (#[trigger] segments[i]).holds(address);
    segments[i].data[address - segments[i].address]
}

/// Whether the writes of a plan are in order: none is empty, the address
/// after each is still a 64-bit address, and each ends before the next
/// begins.
pub open spec fn in_order(segments: Seq<SegmentView>) -> bool {
    &&& forall|i: int|
        0 <= i < segments.len() ==> (#[trigger] segments[i]).data.len() > 0 && segments[i].end()
            <= u64::MAX
    &&& forall|i: int, j: int|
        0 <= i < j < segments.len() ==> (#[trigger] segments[i]).end() <= (
        #[trigger] segments[j]).address
}

/// The bytes of a raw binary that are placed: all but the first `skip`.
pub open spec fn binary_payload(bytes: Seq<u8>, skip: u32) -> Seq<u8> {
    if skip >= bytes.len() {
        Seq::empty()
    } else {
        bytes.skip(skip as int)
    }
}

/// The writes that a raw binary comes to on a target with the given memory
/// regions.
///
/// A binary of which nothing is left after the skipped bytes comes to no
/// write. Otherwise its payload is one write, at the base address given or
/// else at the target's default; the image is turned down where there is no
/// such address, or where the write would not lie within programmable
/// memory.
pub open spec fn binary_segments(
    bytes: Seq<u8>,
    base_address: Option<u64>,
    skip: u32,
    regions: Seq<MemoryRegion>,
) -> Result<Seq<SegmentView>, ImageError> {
    let payload = binary_payload(bytes, skip);
    let base = match base_address {
        Some(given) => Some(given),
        None => default_base(regions),
    };
    if payload.len() == 0 {
        Ok(Seq::empty())
    } else {
        match base {
            Some(address) => {
                if address + payload.len() <= u64::MAX && covers(
                    regions,
                    address as int,
                    address + payload.len(),
                ) {
                    Ok(seq![SegmentView { address, data: payload }])
                } else {
                    Err(ImageError::ImageParseError)
                }
            },
            None => Err(ImageError::ImageParseError),
        }
    }
}

/// The staged writes that programming an image comes to.
#[derive(Debug)]
pub struct FlashPlan {
    segments: Vec<FlashSegment>,
}

impl View for FlashPlan {
    type V = Seq<SegmentView>;

    closed spec fn view(&self) -> Seq<SegmentView> {
        self.segments@.map_values(|segment: FlashSegment| segment@)
    }
}

impl FlashPlan {
    /// Whether the plan's writes are in order. Every plan's are.
    pub open spec fn wf(&self) -> bool {
        in_order(self@)
    }

    #[verifier::type_invariant]
    spec fn ordered(&self) -> bool {
        self.wf()
    }

    /// Plans a raw binary against a target's memory map.
    pub fn from_binary(
        bytes: &Vec<u8>,
        base_address: Option<u64>,
        skip: u32,
        map: &MemoryMap,
    ) -> (plan: Result<FlashPlan, ImageError>)
        ensures
            match plan {
                Ok(made) => binary_segments(bytes@, base_address, skip, map.regions@) == Ok::<
                    Seq<SegmentView>,
                    ImageError,
                >(made@) && made.wf(),
                Err(error) => binary_segments(bytes@, base_address, skip, map.regions@) == Err::<
                    Seq<SegmentView>,
                    ImageError,
                >(error),
            },
    {
        let length: usize = bytes.len();
        if skip as usize >= length {
            let plan = FlashPlan { segments: Vec::new() };
            assert(plan@ =~= Seq::<SegmentView>::empty());
            return Ok(plan);
        }
        let base = match base_address {
            Some(given) => Some(given),
            None => map.default_base(),
        };
        let address: u64 = match base {
            Some(address) => address,
            None => {
                return Err(ImageError::ImageParseError);
            },
        };
        let count: usize = length - skip as usize;
        if count as u64 > u64::MAX - address {
            return Err(ImageError::ImageParseError);
        }
        if !map.is_covered(address, address + count as u64) {
            return Err(ImageError::ImageParseError);
        }
        let mut data: Vec<u8> = Vec::new();
        let mut at: usize = skip as usize;
        while at < length
            invariant
                skip as usize <= at <= length,
                length == bytes@.len(),
                data@ == bytes@.subrange(skip as int, at as int),
            decreases length - at,
        {
            data.push(bytes[at]);
            at += 1;
        }
        assert(data@ =~= binary_payload(bytes@, skip));
        let mut segments: Vec<FlashSegment> = Vec::new();
        segments.push(FlashSegment { address, data });
        let plan = FlashPlan { segments };
        assert(plan@ =~= seq![SegmentView { address, data: binary_payload(bytes@, skip) }]);
        Ok(plan)
    }

    /// The writes of the plan, in the order of their addresses.
    pub fn segments(&self) -> (segments: &Vec<FlashSegment>)
        ensures
            segments@.map_values(|segment: FlashSegment| segment@) == self@,
            self.wf(),
    {
        proof {
            use_type_invariant(self);
        }
        &self.segments
    }

    /// The byte that the plan writes at an address; `None` where it writes
    /// none there.
    pub fn byte_at(&self, address: u64) -> (byte: Option<u8>)
        ensures
            match byte {
                Some(value) => written(self@, address as int) && value == byte_written(
                    self@,
                    address as int,
                ),
                None => !written(self@, address as int),
            },
    {
        proof {
            use_type_invariant(self);
        }
        let mut at: usize = 0;
        while at < self.segments.len()
            invariant
                at <= self.segments.len(),
                self.wf(),
                forall|i: int| 0 <= i < at ==> !(#[trigger] self@[i]).holds(address as int),
            decreases self.segments.len() - at,
        {
            let segment = &self.segments[at];
            assert(segment@ == self@[at as int]);
            if segment.address <= address && address - segment.address < segment.data.len() as u64 {
                let offset: usize = (address - segment.address) as usize;
                proof {
                    lemma_one_write_per_address(self@, at as int, address as int);
                }
                return Some(segment.data[offset]);
            }
            at += 1;
        }
        None
    }
}

/// In a plan whose writes are in order, at most one write reaches an
/// address, so the byte written there is that write's.
pub proof fn lemma_one_write_per_address(segments: Seq<SegmentView>, at: int, address: int)
    requires
        in_order(segments),
        0 <= at < segments.len(),
        segments[at].holds(address),
    ensures
        written(segments, address),
        byte_written(segments, address) == segments[at].data[address - segments[at].address],
        forall|i: int| 0 <= i < segments.len() && (#[trigger] segments[i]).holds(address) ==> i == at,
{
    assert forall|i: int| 0 <= i < segments.len() && (#[trigger] segments[i]).holds(
        address,
    ) implies i == at by {
        if i < at {
            assert(segments[i].end() <= segments[at].address);
        } else if at < i {
            assert(segments[at].end() <= segments[i].address);
        }
    }
}

/// A planned raw binary writes exactly the addresses from its base on, one
/// for each byte of its payload, and writes at each the byte of the image
/// that belongs there; every address that it writes is programmable.
pub proof fn lemma_binary_plan_places_bytes(
    bytes: Seq<u8>,
    base_address: Option<u64>,
    skip: u32,
    regions: Seq<MemoryRegion>,
    address: int,
)
    requires
        binary_segments(bytes, base_address, skip, regions) is Ok,
    ensures
        ({
            let segments = binary_segments(bytes, base_address, skip, regions)->Ok_0;
            let base = match base_address {
                Some(given) => given as int,
                None => default_base(regions).unwrap_or(0) as int,
            };
            &&& in_order(segments)
            &&& written(segments, address) <==> skip < bytes.len() && base <= address < base
                + bytes.len() - skip
            &&& written(segments, address) ==> byte_written(segments, address) == bytes[skip
                + address - base]
            &&& written(segments, address) ==> programmable_at(regions, address)
        }),
{
    let segments = binary_segments(bytes, base_address, skip, regions)->Ok_0;
    if binary_payload(bytes, skip).len() > 0 {
        assert(segments.len() == 1);
        if segments[0].holds(address) {
            lemma_one_write_per_address(segments, 0, address);
        }
    }
}

} // verus!
