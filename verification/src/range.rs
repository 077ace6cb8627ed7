//! Byte ranges derived from declared lengths, and the memory they select.
//!
//! Nothing here touches memory by address. A [`ByteRange`] is a pair of
//! numbers; it turns into bytes only through [`Region::window`], which checks
//! it against the memory the caller supplied.

use vstd::prelude::*;
use vstd::arithmetic::div_mod::lemma_fundamental_div_mod;
use vstd::arithmetic::mul::{lemma_mul_inequality, lemma_mul_is_commutative};

verus! {

/// Why a range could not be derived.
#[derive(Clone, Copy, Debug, PartialEq, Eq, Structural)]
pub enum BoundsError {
    /// The declared length leaves no room for a trailer after the header.
    NegativeOrZeroTrailer,
    /// The trailer is not a whole number of elements long.
    MisalignedTrailer,
    /// A tagged sub-record is cut short by the end of its list, or declares
    /// a length too small to hold its own tag and length bytes.
    TruncatedRecord,
    /// A declared offset lies past the end of the record.
    OffsetBeyondLength,
    /// A declared offset points into the fixed part of the record.
    OffsetBeforeHeader,
    /// The record would run past the last address a `u64` can hold.
    AddressOverflow,
}

/// The half-open range of addresses `[start, end)`.
///
/// A range whose `end` lies below its `start` selects nothing.
#[derive(Clone, Copy, Debug, PartialEq, Eq, Structural)]
pub struct ByteRange {
    /// Address of the first byte.
    pub start: u64,
    /// Address one past the last byte.
    pub end: u64,
}

impl ByteRange {
    /// Number of bytes in the range.
    pub open spec fn spec_len(&self) -> int {
        if self.start <= self.end {
            self.end - self.start
        } else {
            0
        }
    }

    /// Number of bytes in the range.
    pub fn len(&self) -> (n: u64)
        ensures
            n == self.spec_len(),
    {
        if self.start <= self.end {
            self.end - self.start
        } else {
            0
        }
    }

    /// Whether the range selects no byte.
    pub fn is_empty(&self) -> (empty: bool)
        ensures
            empty == (self.spec_len() == 0),
    {
        self.end <= self.start
    }

    /// Whether every byte of `inner` lies in this range.
    pub open spec fn spec_covers(&self, inner: ByteRange) -> bool {
        inner.spec_len() == 0 || (self.start <= inner.start && inner.end <= self.end)
    }

    /// Whether every byte of `inner` lies in this range.
    #[verifier::when_used_as_spec(spec_covers)]
    pub fn covers(&self, inner: ByteRange) -> (covered: bool)
        ensures
            covered == self.spec_covers(inner),
    {
        inner.end <= inner.start || (self.start <= inner.start && inner.end <= self.end)
    }
}

/// The trailer of a record: what follows its header, up to its declared
/// length.
pub open spec fn trailer_range(record_base: u64, header_size: u64, declared_length: u64) -> Result<
    ByteRange,
    BoundsError,
> {
    if declared_length <= header_size {
        Err(BoundsError::NegativeOrZeroTrailer)
    } else if record_base + declared_length > u64::MAX {
        Err(BoundsError::AddressOverflow)
    } else {
        Ok(
            ByteRange {
                start: (record_base + header_size) as u64,
                end: (record_base + declared_length) as u64,
            },
        )
    }
}

/// The trailer of a record whose kind may legitimately carry none: a
/// declared length equal to the header size gives the empty range.
pub open spec fn optional_trailer_range(
    record_base: u64,
    header_size: u64,
    declared_length: u64,
) -> Result<ByteRange, BoundsError> {
    if declared_length < header_size {
        Err(BoundsError::NegativeOrZeroTrailer)
    } else if record_base + declared_length > u64::MAX {
        Err(BoundsError::AddressOverflow)
    } else {
        Ok(
            ByteRange {
                start: (record_base + header_size) as u64,
                end: (record_base + declared_length) as u64,
            },
        )
    }
}

/// The part of a record that starts `byte_offset` bytes after its base and
/// runs to its declared length, where the record's first `fixed_size` bytes
/// are scalar fields.
pub open spec fn offset_range(
    record_base: u64,
    declared_length: u64,
    byte_offset: u64,
    fixed_size: u64,
) -> Result<ByteRange, BoundsError> {
    if byte_offset > declared_length {
        Err(BoundsError::OffsetBeyondLength)
    } else if byte_offset < fixed_size {
        Err(BoundsError::OffsetBeforeHeader)
    } else if record_base + declared_length > u64::MAX {
        Err(BoundsError::AddressOverflow)
    } else {
        Ok(
            ByteRange {
                start: (record_base + byte_offset) as u64,
                end: (record_base + declared_length) as u64,
            },
        )
    }
}

/// Derives `[record_base + header_size, record_base + declared_length)`.
///
/// Fails with `NegativeOrZeroTrailer` when the declared length does not
/// exceed the header size, and with `AddressOverflow` when the record would
/// not fit below the top of the address space.
pub fn trailer_of(record_base: u64, header_size: u64, declared_length: u64) -> (trailer: Result<
    ByteRange,
    BoundsError,
>)
    ensures
        trailer == trailer_range(record_base, header_size, declared_length),
{
    if declared_length <= header_size {
        return Err(BoundsError::NegativeOrZeroTrailer);
    }
    if declared_length > u64::MAX - record_base {
        return Err(BoundsError::AddressOverflow);
    }
    Ok(ByteRange { start: record_base + header_size, end: record_base + declared_length })
}

/// As [`trailer_of`], for records that may end right after their header:
/// only a declared length below the header size is refused.
pub fn optional_trailer_of(record_base: u64, header_size: u64, declared_length: u64) -> (trailer:
    Result<ByteRange, BoundsError>)
    ensures
        trailer == optional_trailer_range(record_base, header_size, declared_length),
{
    if declared_length < header_size {
        return Err(BoundsError::NegativeOrZeroTrailer);
    }
    if declared_length > u64::MAX - record_base {
        return Err(BoundsError::AddressOverflow);
    }
    Ok(ByteRange { start: record_base + header_size, end: record_base + declared_length })
}

/// Derives `[record_base + byte_offset, record_base + declared_length)` for
/// data that a record places at an offset of its own choosing.
///
/// Fails with `OffsetBeyondLength` when the offset exceeds the declared
/// length, with `OffsetBeforeHeader` when it points into the first
/// `fixed_size` bytes, and with `AddressOverflow` when the record would not
/// fit below the top of the address space.
pub fn at_offset(record_base: u64, declared_length: u64, byte_offset: u64, fixed_size: u64) -> (part:
    Result<ByteRange, BoundsError>)
    ensures
        part == offset_range(record_base, declared_length, byte_offset, fixed_size),
{
    if byte_offset > declared_length {
        return Err(BoundsError::OffsetBeyondLength);
    }
    if byte_offset < fixed_size {
        return Err(BoundsError::OffsetBeforeHeader);
    }
    if declared_length > u64::MAX - record_base {
        return Err(BoundsError::AddressOverflow);
    }
    Ok(ByteRange { start: record_base + byte_offset, end: record_base + declared_length })
}

/// A range read as equally sized elements laid end to end.
#[derive(Clone, Copy, Debug, PartialEq, Eq, Structural)]
pub struct ElementArray {
    /// The bytes the elements occupy.
    pub range: ByteRange,
    /// Size of one element in bytes.
    pub element_size: u64,
}

impl ElementArray {
    /// Number of whole elements in the range.
    pub open spec fn spec_count(&self) -> int {
        if self.element_size == 0 {
            0
        } else {
            self.range.spec_len() / self.element_size as int
        }
    }

    /// The bytes of element `index`.
    pub open spec fn spec_element(self, index: int) -> ByteRange {
        ByteRange {
            start: (self.range.start + index * self.element_size) as u64,
            end: (self.range.start + (index + 1) * self.element_size) as u64,
        }
    }

    /// Number of whole elements in the range.
    pub fn count(&self) -> (n: u64)
        ensures
            n == self.spec_count(),
    {
        if self.element_size == 0 {
            0
        } else {
            self.range.len() / self.element_size
        }
    }

    /// The bytes of element `index`, or `None` when the array has no such
    /// element.
    pub fn element(&self, index: u64) -> (bytes: Option<ByteRange>)
        ensures
            bytes == if index < self.spec_count() {
                Some(self.spec_element(index as int))
            } else {
                None
            },
            index < self.spec_count() ==> self.range.spec_covers(self.spec_element(index as int))
                && self.spec_element(index as int).spec_len() == self.element_size,
    {
        if index >= self.count() {
            return None;
        }
        proof {
            lemma_element_within(*self, index as int);
        }
        let first: u64 = self.range.start + index * self.element_size;
        Some(ByteRange { start: first, end: first + self.element_size })
    }
}

/// Element `index` of an array lies inside the array's range, and is exactly
/// one element size long.
pub proof fn lemma_element_within(array: ElementArray, index: int)
    requires
        0 <= index < array.spec_count(),
    ensures
        array.range.start + (index + 1) * array.element_size <= array.range.end,
        0 <= index * array.element_size < (index + 1) * array.element_size,
        (index + 1) * array.element_size == index * array.element_size + array.element_size,
        array.range.spec_covers(array.spec_element(index)),
        array.spec_element(index).spec_len() == array.element_size,
{
    let size = array.element_size as int;
    let len = array.range.spec_len();
    lemma_fundamental_div_mod(len, size);
    assert((index + 1) * size <= (len / size) * size) by {
        lemma_mul_inequality(index + 1, len / size, size);
    }
    assert(size * (len / size) == (len / size) * size) by {
        lemma_mul_is_commutative(size, len / size);
    }
    assert((index + 1) * size == index * size + size) by (nonlinear_arith);
    assert(0 <= index * size) by (nonlinear_arith)
        requires
            0 <= index,
            0 < size,
    ;
}

/// What reading `range` as elements of `element_size` bytes yields.
pub open spec fn as_elements(range: ByteRange, element_size: u64) -> Result<
    ElementArray,
    BoundsError,
> {
    if range.spec_len() % (element_size as int) != 0 {
        Err(BoundsError::MisalignedTrailer)
    } else {
        Ok(ElementArray { range, element_size })
    }
}

/// Reads `range` as an array of elements of `E` bytes each.
///
/// Fails with `MisalignedTrailer` unless the length of the range is a
/// multiple of `E`: a remainder is never dropped.
pub fn as_array<const E: usize>(range: ByteRange) -> (array: Result<ElementArray, BoundsError>)
    requires
        E > 0,
    ensures
        array == as_elements(range, E as u64),
{
    if range.len() % (E as u64) != 0 {
        Err(BoundsError::MisalignedTrailer)
    } else {
        Ok(ElementArray { range, element_size: E as u64 })
    }
}

/// The elements of an array cut from a range whose length is a multiple of
/// the element size tile that range: there are `len / size` of them, each
/// is `size` bytes long, the first starts where the range starts, each
/// starts where the one before it ends, no two overlap, and the last ends
/// where the range ends.
pub proof fn lemma_elements_tile_range(range: ByteRange, element_size: u64)
    requires
        range.start <= range.end,
        element_size > 0,
        range.spec_len() % (element_size as int) == 0,
    ensures
        as_elements(range, element_size) is Ok,
        ({
            let array = as_elements(range, element_size)->Ok_0;
            &&& array.spec_count() * element_size == range.spec_len()
            &&& array.spec_element(0).start == range.start
            &&& forall|i: int|
                0 <= i < array.spec_count() ==> #[trigger] array.spec_element(i).spec_len()
                    == element_size
            &&& forall|i: int|
                0 <= i < array.spec_count() - 1 ==> #[trigger] array.spec_element(i).end
                    == array.spec_element(i + 1).start
            &&& forall|i: int, j: int|
                0 <= i < j < array.spec_count() ==> #[trigger] array.spec_element(i).end
                    <= #[trigger] array.spec_element(j).start
            &&& array.spec_count() > 0 ==> array.spec_element(array.spec_count() - 1).end
                == range.end
        }),
{
    let array = ElementArray { range, element_size };
    let size = element_size as int;
    let len = range.spec_len();
    lemma_fundamental_div_mod(len, size);
    lemma_mul_is_commutative(size, len / size);
    assert forall|i: int| 0 <= i < array.spec_count() implies #[trigger] array.spec_element(
        i,
    ).spec_len() == element_size by {
        lemma_element_within(array, i);
    }
    assert forall|i: int| 0 <= i < array.spec_count() - 1 implies #[trigger] array.spec_element(
        i,
    ).end == array.spec_element(i + 1).start by {
        lemma_element_within(array, i);
        lemma_element_within(array, i + 1);
    }
    assert forall|i: int, j: int| 0 <= i < j < array.spec_count() implies #[trigger] array.spec_element(
        i,
    ).end <= #[trigger] array.spec_element(j).start by {
        lemma_element_within(array, i);
        lemma_element_within(array, j);
        lemma_mul_inequality(i + 1, j, size);
    }
    if array.spec_count() > 0 {
        lemma_element_within(array, array.spec_count() - 1);
    }
}

/// What a region holds, as plain values: `bytes[i]` is the byte at address
/// `base + i`.
pub struct RegionView {
    /// Address of the first byte.
    pub base: u64,
    /// The bytes themselves.
    pub bytes: Seq<u8>,
}

impl RegionView {
    /// Address one past the last byte.
    pub open spec fn end(self) -> int {
        self.base + self.bytes.len()
    }

    /// Whether every address of `range` lies in this region.
    pub open spec fn holds(self, range: ByteRange) -> bool {
        self.base <= range.start <= range.end <= self.end()
    }

    /// The bytes of `range`, when the region holds all of it.
    pub open spec fn window(self, range: ByteRange) -> Option<Seq<u8>> {
        if self.holds(range) {
            Some(self.bytes.subrange(range.start - self.base, range.end - self.base))
        } else {
            None
        }
    }

    /// The bytes from address `from` to the end of the region, when `from`
    /// lies in the region or right at its end.
    pub open spec fn tail(self, from: u64) -> Option<Seq<u8>> {
        if self.base <= from <= self.end() {
            Some(self.bytes.subrange(from - self.base, self.bytes.len() as int))
        } else {
            None
        }
    }
}

/// A window of memory that the caller supplies: a slice of bytes and the
/// address of its first byte. The window ends at or below the top of the
/// address space.
#[derive(Clone, Copy, Debug)]
pub struct Region<'a> {
    base: u64,
    bytes: &'a [u8],
}

impl<'a> View for Region<'a> {
    type V = RegionView;

    closed spec fn view(&self) -> RegionView {
        RegionView { base: self.base, bytes: self.bytes@ }
    }
}

impl<'a> Region<'a> {
    #[verifier::type_invariant]
    spec fn fits_address_space(self) -> bool {
        self.base + self.bytes@.len() <= u64::MAX
    }

    /// The region that starts at address `base` and holds `bytes`, or `None`
    /// when it would reach past the top of the address space.
    pub fn new(base: u64, bytes: &'a [u8]) -> (region: Option<Region<'a>>)
        ensures
            match region {
                Some(region) => region@ == (RegionView { base, bytes: bytes@ }) && region@.end()
                    <= u64::MAX,
                None => base + bytes@.len() > u64::MAX,
            },
    {
        if bytes.len() as u64 > u64::MAX - base {
            None
        } else {
            Some(Region { base, bytes })
        }
    }

    /// Address of the first byte.
    pub fn base(&self) -> (base: u64)
        ensures
            base == self@.base,
            self@.end() <= u64::MAX,
    {
        proof {
            use_type_invariant(self);
        }
        self.base
    }

    /// All the bytes of the region.
    pub fn bytes(&self) -> (bytes: &'a [u8])
        ensures
            bytes@ == self@.bytes,
            self@.end() <= u64::MAX,
    {
        proof {
            use_type_invariant(self);
        }
        self.bytes
    }

    /// The bytes that `range` selects, or `None` unless the whole range lies
    /// in this region.
    pub fn window(&self, range: ByteRange) -> (bytes: Option<&'a [u8]>)
        ensures
            self@.end() <= u64::MAX,
            match bytes {
                Some(slice) => self@.window(range) == Some(slice@),
                None => self@.window(range) is None,
            },
    {
        proof {
            use_type_invariant(self);
        }
        if range.start < self.base || range.end < range.start {
            return None;
        }
        let size: u64 = self.bytes.len() as u64;
        let first: u64 = range.start - self.base;
        let count: u64 = range.end - range.start;
        if first > size || count > size - first {
            return None;
        }
        let slice: &'a [u8] = &self.bytes[first as usize..(first + count) as usize];
        Some(slice)
    }

    /// The bytes of element `index` of `array`, or `None` when the array has
    /// no such element or the region does not hold it.
    pub fn element(&self, array: &ElementArray, index: u64) -> (bytes: Option<&'a [u8]>)
        ensures
            match bytes {
                Some(slice) => index < array.spec_count() && self@.window(
                    array.spec_element(index as int),
                ) == Some(slice@) && slice@.len() == array.element_size,
                None => index >= array.spec_count() || self@.window(
                    array.spec_element(index as int),
                ) is None,
            },
    {
        match array.element(index) {
            Some(range) => self.window(range),
            None => None,
        }
    }

    /// The bytes from address `from` to the end of the region, or `None`
    /// when `from` lies outside it.
    pub fn tail(&self, from: u64) -> (bytes: Option<&'a [u8]>)
        ensures
            self@.end() <= u64::MAX,
            match bytes {
                Some(slice) => self@.tail(from) == Some(slice@),
                None => self@.tail(from) is None,
            },
    {
        proof {
            use_type_invariant(self);
        }
        if from < self.base {
            return None;
        }
        let first: u64 = from - self.base;
        if first > self.bytes.len() as u64 {
            return None;
        }
        let slice: &'a [u8] = &self.bytes[first as usize..self.bytes.len()];
        Some(slice)
    }
}

} // verus!
