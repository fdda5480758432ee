//! Integers of the guest's pointer width, values with a fixed wire layout, and the four
//! primitives that move bytes between the host and the guest's linear memory.

use vstd::prelude::*;
use vstd::utf8::{decode_utf8, valid_utf8};

use super::error::HostError;

verus! {

/// A value with a fixed little-endian wire layout of `spec_size()` bytes.
pub trait RawValue: Sized {
    /// The number of bytes that the layout takes.
    spec fn spec_size() -> nat;

    /// The value that a byte string of exactly that length stands for.
    spec fn decoded(bytes: Seq<u8>) -> Self;

    fn size() -> (size: usize)
        ensures
            size == Self::spec_size(),
    ;

    fn from_wasm_bytes(bytes: &[u8]) -> (value: Result<Self, HostError>)
        ensures
            bytes@.len() == Self::spec_size() ==> value == Ok::<Self, HostError>(
                Self::decoded(bytes@),
            ),
            bytes@.len() != Self::spec_size() ==> value == Err::<Self, HostError>(
                HostError::InvalidLength,
            ),
    ;
}

/// The number that four bytes hold, least significant byte first.
pub open spec fn le_u32(bytes: Seq<u8>) -> u32 {
    (bytes[0] as int + bytes[1] as int * 0x100 + bytes[2] as int * 0x1_0000 + bytes[3] as int
        * 0x100_0000) as u32
}

/// The number that eight bytes hold, least significant byte first.
pub open spec fn le_u64(bytes: Seq<u8>) -> u64 {
    (le_u32(bytes.subrange(0, 4)) as int + le_u32(bytes.subrange(4, 8)) as int
        * 0x1_0000_0000) as u64
}

fn read_le_u32(bytes: &[u8], at: usize) -> (value: u32)
    requires
        at + 4 <= bytes@.len(),
    ensures
        value == le_u32(bytes@.subrange(at as int, at + 4)),
{
    let b0: u32 = bytes[at] as u32;
    let b1: u32 = bytes[at + 1] as u32;
    let b2: u32 = bytes[at + 2] as u32;
    let b3: u32 = bytes[at + 3] as u32;
    b0 + b1 * 0x100 + b2 * 0x1_0000 + b3 * 0x100_0000
}

impl RawValue for u32 {
    open spec fn spec_size() -> nat {
        4
    }

    open spec fn decoded(bytes: Seq<u8>) -> u32 {
        le_u32(bytes)
    }

    fn size() -> (size: usize) {
        4
    }

    fn from_wasm_bytes(bytes: &[u8]) -> (value: Result<u32, HostError>) {
        if bytes.len() != 4 {
            return Err(HostError::InvalidLength);
        }
        Ok(read_le_u32(bytes, 0))
    }
}

impl RawValue for u64 {
    open spec fn spec_size() -> nat {
        8
    }

    open spec fn decoded(bytes: Seq<u8>) -> u64 {
        le_u64(bytes)
    }

    fn size() -> (size: usize) {
        8
    }

    fn from_wasm_bytes(bytes: &[u8]) -> (value: Result<u64, HostError>) {
        if bytes.len() != 8 {
            return Err(HostError::InvalidLength);
        }
        Ok(read_le_u64(bytes, 0))
    }
}

/// The number that two bytes hold, least significant byte first.
pub open spec fn le_u16(bytes: Seq<u8>) -> u16 {
    (bytes[0] as int + bytes[1] as int * 0x100) as u16
}

/// The number that sixteen bytes hold, least significant byte first.
pub open spec fn le_u128(bytes: Seq<u8>) -> u128 {
    (le_u64(bytes.subrange(0, 8)) as int + le_u64(bytes.subrange(8, 16)) as int
        * 0x1_0000_0000_0000_0000) as u128
}

fn read_le_u64(bytes: &[u8], at: usize) -> (value: u64)
    requires
        at + 8 <= bytes@.len(),
    ensures
        value == le_u64(bytes@.subrange(at as int, at + 8)),
{
    assert(at + 8 <= bytes.len());
    let low: u64 = read_le_u32(bytes, at) as u64;
    let high: u64 = read_le_u32(bytes, at + 4) as u64;
    assert(bytes@.subrange(at as int, at + 8).subrange(0, 4) == bytes@.subrange(
        at as int,
        at + 4,
    ));
    assert(bytes@.subrange(at as int, at + 8).subrange(4, 8) == bytes@.subrange(
        at + 4,
        at + 8,
    ));
    low + high * 0x1_0000_0000
}

impl RawValue for u8 {
    open spec fn spec_size() -> nat {
        1
    }

    open spec fn decoded(bytes: Seq<u8>) -> u8 {
        bytes[0]
    }

    fn size() -> (size: usize) {
        1
    }

    fn from_wasm_bytes(bytes: &[u8]) -> (value: Result<u8, HostError>) {
        if bytes.len() != 1 {
            return Err(HostError::InvalidLength);
        }
        Ok(bytes[0])
    }
}

impl RawValue for u16 {
    open spec fn spec_size() -> nat {
        2
    }

    open spec fn decoded(bytes: Seq<u8>) -> u16 {
        le_u16(bytes)
    }

    fn size() -> (size: usize) {
        2
    }

    fn from_wasm_bytes(bytes: &[u8]) -> (value: Result<u16, HostError>) {
        if bytes.len() != 2 {
            return Err(HostError::InvalidLength);
        }
        Ok(bytes[0] as u16 + bytes[1] as u16 * 0x100)
    }
}

impl RawValue for u128 {
    open spec fn spec_size() -> nat {
        16
    }

    open spec fn decoded(bytes: Seq<u8>) -> u128 {
        le_u128(bytes)
    }

    fn size() -> (size: usize) {
        16
    }

    fn from_wasm_bytes(bytes: &[u8]) -> (value: Result<u128, HostError>) {
        if bytes.len() != 16 {
            return Err(HostError::InvalidLength);
        }
        let low: u128 = read_le_u64(bytes, 0) as u128;
        let high: u128 = read_le_u64(bytes, 8) as u128;
        Ok(low + high * 0x1_0000_0000_0000_0000)
    }
}

impl RawValue for i8 {
    open spec fn spec_size() -> nat {
        1
    }

    /// The byte, read as a number in two's complement.
    open spec fn decoded(bytes: Seq<u8>) -> i8 {
        bytes[0] as i8
    }

    fn size() -> (size: usize) {
        1
    }

    fn from_wasm_bytes(bytes: &[u8]) -> (value: Result<i8, HostError>) {
        match u8::from_wasm_bytes(bytes) {
            Ok(value) => Ok(#[verifier::truncate] (value as i8)),
            Err(error) => Err(error),
        }
    }
}

impl RawValue for i16 {
    open spec fn spec_size() -> nat {
        2
    }

    /// The bytes, read as a number in two's complement.
    open spec fn decoded(bytes: Seq<u8>) -> i16 {
        le_u16(bytes) as i16
    }

    fn size() -> (size: usize) {
        2
    }

    fn from_wasm_bytes(bytes: &[u8]) -> (value: Result<i16, HostError>) {
        match u16::from_wasm_bytes(bytes) {
            Ok(value) => Ok(#[verifier::truncate] (value as i16)),
            Err(error) => Err(error),
        }
    }
}

impl RawValue for i32 {
    open spec fn spec_size() -> nat {
        4
    }

    /// The bytes, read as a number in two's complement.
    open spec fn decoded(bytes: Seq<u8>) -> i32 {
        le_u32(bytes) as i32
    }

    fn size() -> (size: usize) {
        4
    }

    fn from_wasm_bytes(bytes: &[u8]) -> (value: Result<i32, HostError>) {
        match u32::from_wasm_bytes(bytes) {
            Ok(value) => Ok(#[verifier::truncate] (value as i32)),
            Err(error) => Err(error),
        }
    }
}

impl RawValue for i64 {
    open spec fn spec_size() -> nat {
        8
    }

    /// The bytes, read as a number in two's complement.
    open spec fn decoded(bytes: Seq<u8>) -> i64 {
        le_u64(bytes) as i64
    }

    fn size() -> (size: usize) {
        8
    }

    fn from_wasm_bytes(bytes: &[u8]) -> (value: Result<i64, HostError>) {
        match u64::from_wasm_bytes(bytes) {
            Ok(value) => Ok(#[verifier::truncate] (value as i64)),
            Err(error) => Err(error),
        }
    }
}

impl RawValue for i128 {
    open spec fn spec_size() -> nat {
        16
    }

    /// The bytes, read as a number in two's complement.
    open spec fn decoded(bytes: Seq<u8>) -> i128 {
        le_u128(bytes) as i128
    }

    fn size() -> (size: usize) {
        16
    }

    fn from_wasm_bytes(bytes: &[u8]) -> (value: Result<i128, HostError>) {
        match u128::from_wasm_bytes(bytes) {
            Ok(value) => Ok(#[verifier::truncate] (value as i128)),
            Err(error) => Err(error),
        }
    }
}

/// An integer of the guest's pointer width. The host links every function that takes memory
/// offsets once for `u32` and once for `u64`.
pub trait WasmUsize: RawValue + Copy {
    /// The number that the integer holds.
    spec fn as_nat(self) -> nat;

    /// The largest number that the width can hold.
    spec fn spec_max() -> nat;

    proof fn lemma_in_range(self)
        ensures
            self.as_nat() <= Self::spec_max(),
    ;

    proof fn lemma_width()
        ensures
            Self::spec_size() <= 8,
    ;

    fn zero() -> (zero: Self)
        ensures
            zero.as_nat() == 0,
    ;

    fn is_zero(self) -> (zero: bool)
        ensures
            zero == (self.as_nat() == 0),
    ;

    /// The same number in the host's native width, if it fits.
    fn into_usize(self) -> (native: Result<usize, HostError>)
        ensures
            native == into_usize_spec(self.as_nat()),
    ;

    /// The same number in the guest's width, if it fits.
    fn from_usize(value: usize) -> (guest: Result<Self, HostError>)
        ensures
            value <= Self::spec_max() ==> guest.is_ok() && guest.unwrap().as_nat() == value,
            value > Self::spec_max() ==> guest == Err::<Self, HostError>(
                HostError::IntegerConversion,
            ),
    ;

    /// The sum of two numbers, if the width can hold it.
    fn checked_add(self, other: Self) -> (sum: Option<Self>)
        ensures
            self.as_nat() + other.as_nat() <= Self::spec_max() ==> sum.is_some()
                && sum.unwrap().as_nat() == self.as_nat() + other.as_nat(),
            self.as_nat() + other.as_nat() > Self::spec_max() ==> sum.is_none(),
    ;
}

/// A number of the guest in the host's native width, if it fits.
pub open spec fn into_usize_spec(value: nat) -> Result<usize, HostError> {
    if value <= usize::MAX {
        Ok(value as usize)
    } else {
        Err(HostError::IntegerConversion)
    }
}

impl WasmUsize for u32 {
    open spec fn as_nat(self) -> nat {
        self as nat
    }

    open spec fn spec_max() -> nat {
        u32::MAX as nat
    }

    proof fn lemma_in_range(self) {
    }

    proof fn lemma_width() {
    }

    fn zero() -> (zero: u32) {
        0
    }

    fn is_zero(self) -> (zero: bool) {
        self == 0
    }

    fn into_usize(self) -> (native: Result<usize, HostError>) {
        Ok(self as usize)
    }

    fn from_usize(value: usize) -> (guest: Result<u32, HostError>) {
        if value <= u32::MAX as usize {
            Ok(value as u32)
        } else {
            Err(HostError::IntegerConversion)
        }
    }

    fn checked_add(self, other: u32) -> (sum: Option<u32>) {
        if other <= u32::MAX - self {
            Some(self + other)
        } else {
            None
        }
    }
}

impl WasmUsize for u64 {
    open spec fn as_nat(self) -> nat {
        self as nat
    }

    open spec fn spec_max() -> nat {
        u64::MAX as nat
    }

    proof fn lemma_in_range(self) {
    }

    proof fn lemma_width() {
    }

    fn zero() -> (zero: u64) {
        0
    }

    fn is_zero(self) -> (zero: bool) {
        self == 0
    }

    fn into_usize(self) -> (native: Result<usize, HostError>) {
        if self <= usize::MAX as u64 {
            Ok(self as usize)
        } else {
            Err(HostError::IntegerConversion)
        }
    }

    fn from_usize(value: usize) -> (guest: Result<u64, HostError>) {
        Ok(value as u64)
    }

    fn checked_add(self, other: u64) -> (sum: Option<u64>) {
        if other <= u64::MAX - self {
            Some(self + other)
        } else {
            None
        }
    }
}

/// What a read of `length` bytes at `pointer` gives: the bytes, if both numbers fit the
/// host's native width and the range lies inside the memory.
pub open spec fn read_spec(memory: Seq<u8>, pointer: nat, length: nat) -> Result<
    Seq<u8>,
    HostError,
> {
    if length > usize::MAX || pointer > usize::MAX {
        Err(HostError::IntegerConversion)
    } else if pointer + length > memory.len() {
        Err(HostError::MemoryAccess)
    } else {
        Ok(memory.subrange(pointer as int, (pointer + length) as int))
    }
}

/// The memory after `bytes` were written at `pointer`.
pub open spec fn overwritten(memory: Seq<u8>, pointer: int, bytes: Seq<u8>) -> Seq<u8> {
    memory.subrange(0, pointer) + bytes + memory.subrange(
        pointer + bytes.len(),
        memory.len() as int,
    )
}

/// How many bytes a write moves: as many as the guest's buffer takes, at most what the
/// source holds.
pub open spec fn moved(capacity: nat, available: nat) -> nat {
    if capacity < available {
        capacity
    } else {
        available
    }
}

/// What a write of `bytes` at `pointer` into a guest buffer of `capacity` bytes returns.
pub open spec fn write_outcome(memory: Seq<u8>, bytes: Seq<u8>, pointer: nat, capacity: nat)
    -> Result<nat, HostError> {
    if capacity == 0 {
        Ok(0)
    } else if pointer > usize::MAX {
        Err(HostError::IntegerConversion)
    } else if pointer + bytes.len() > memory.len() {
        Err(HostError::MemoryAccess)
    } else {
        Ok(bytes.len())
    }
}

/// The memory after that write: a failed write leaves it as it was.
pub open spec fn written_memory(memory: Seq<u8>, bytes: Seq<u8>, pointer: nat, capacity: nat)
    -> Seq<u8> {
    if capacity != 0 && write_outcome(memory, bytes, pointer, capacity).is_ok() {
        overwritten(memory, pointer as int, bytes)
    } else {
        memory
    }
}

/// A streaming resource is read in pieces that make up the whole: what a read moves and what
/// it leaves are, one after the other, what was there.
pub proof fn lemma_pieces_make_the_whole(buffer: Seq<u8>, capacity: nat)
    ensures
        moved(capacity, buffer.len()) <= capacity,
        moved(capacity, buffer.len()) <= buffer.len(),
        buffer.take(moved(capacity, buffer.len()) as int) + buffer.skip(
            moved(capacity, buffer.len()) as int,
        ) == buffer,
        capacity > 0 && buffer.len() > 0 ==> buffer.skip(
            moved(capacity, buffer.len()) as int,
        ).len() < buffer.len(),
{
}

/// Whether what a host function returns in the guest's width is the outcome `expected`.
pub open spec fn returns_count<Usize: WasmUsize>(
    returned: Result<Usize, HostError>,
    expected: Result<nat, HostError>,
) -> bool {
    match returned {
        Ok(count) => expected == Ok::<nat, HostError>(count.as_nat()),
        Err(error) => expected == Err::<nat, HostError>(error),
    }
}

/// Copies `length` bytes of the guest's memory, from `pointer` on, into a fresh buffer.
pub fn read_from_memory_to_buffer<Usize: WasmUsize>(
    memory: &[u8],
    buffer_ptr: Usize,
    buffer_length: Usize,
) -> (buffer: Result<Vec<u8>, HostError>)
    ensures
        match buffer {
            Ok(bytes) => read_spec(memory@, buffer_ptr.as_nat(), buffer_length.as_nat()) == Ok::<
                Seq<u8>,
                HostError,
            >(bytes@),
            Err(error) => read_spec(memory@, buffer_ptr.as_nat(), buffer_length.as_nat())
                == Err::<Seq<u8>, HostError>(error),
        },
{
    let length: usize = buffer_length.into_usize()?;
    let pointer: usize = buffer_ptr.into_usize()?;
    if pointer > memory.len() || length > memory.len() - pointer {
        return Err(HostError::MemoryAccess);
    }
    Ok(vstd::slice::slice_to_vec(vstd::slice::slice_subrange(memory, pointer, pointer + length)))
}

/// Writes `source` into the guest's memory at `pointer`, if it lies inside.
fn copy_to_memory(memory: &mut [u8], pointer: usize, source: &Vec<u8>) -> (inside: bool)
    ensures
        inside == (pointer + source@.len() <= old(memory)@.len()),
        final(memory)@ == if inside {
            overwritten(old(memory)@, pointer as int, source@)
        } else {
            old(memory)@
        },
{
    let size: usize = memory.len();
    if pointer > size || source.len() > size - pointer {
        return false;
    }
    let mut index: usize = 0;
    while index < source.len()
        invariant
            index <= source@.len(),
            pointer + source@.len() <= size,
            memory@.len() == size,
            size == old(memory)@.len(),
            forall|k: int| 0 <= k < pointer ==> memory@[k] == old(memory)@[k],
            forall|k: int| pointer <= k < pointer + index ==> memory@[k] == source@[k - pointer],
            forall|k: int| pointer + index <= k < size ==> memory@[k] == old(memory)@[k],
        decreases source@.len() - index,
    {
        memory[pointer + index] = source[index];
        index = index + 1;
    }
    true
}

/// Writes `source`, cut to the guest's buffer, at `pointer` and says how much was written.
fn write_to_memory<Usize: WasmUsize>(
    memory: &mut [u8],
    source: &Vec<u8>,
    buffer_ptr: Usize,
    buffer_length: Usize,
) -> (written: Result<Usize, HostError>)
    requires
        buffer_length.as_nat() != 0,
        source@.len() <= buffer_length.as_nat(),
    ensures
        returns_count(
            written,
            write_outcome(old(memory)@, source@, buffer_ptr.as_nat(), buffer_length.as_nat()),
        ),
        final(memory)@ == written_memory(
            old(memory)@,
            source@,
            buffer_ptr.as_nat(),
            buffer_length.as_nat(),
        ),
{
    let pointer: usize = buffer_ptr.into_usize()?;
    if !copy_to_memory(memory, pointer, source) {
        return Err(HostError::MemoryAccess);
    }
    proof {
        buffer_length.lemma_in_range();
    }
    Usize::from_usize(source.len())
}

/// How many bytes of a source of `available` bytes go into a guest buffer of
/// `buffer_length` bytes.
fn moved_count<Usize: WasmUsize>(buffer_length: Usize, available: usize) -> (count: usize)
    ensures
        count == moved(buffer_length.as_nat(), available as nat),
{
    match buffer_length.into_usize() {
        Ok(capacity) => if capacity < available {
            capacity
        } else {
            available
        },
        Err(_) => available,
    }
}

/// Copies the first bytes of `source`, as many as the guest's buffer takes, into the
/// guest's memory at `buffer_ptr`, and returns how many were written. The source stays as
/// it is: this is for fixed data such as the sender's name.
pub fn write_constant_to_memory<Usize: WasmUsize>(
    memory: &mut [u8],
    source: &[u8],
    buffer_ptr: Usize,
    buffer_length: Usize,
) -> (written: Result<Usize, HostError>)
    ensures
        returns_count(
            written,
            write_outcome(
                old(memory)@,
                source@.take(moved(buffer_length.as_nat(), source@.len()) as int),
                buffer_ptr.as_nat(),
                buffer_length.as_nat(),
            ),
        ),
        final(memory)@ == written_memory(
            old(memory)@,
            source@.take(moved(buffer_length.as_nat(), source@.len()) as int),
            buffer_ptr.as_nat(),
            buffer_length.as_nat(),
        ),
{
    if buffer_length.is_zero() {
        return Ok(Usize::zero());
    }
    let count: usize = moved_count(buffer_length, source.len());
    let cut: Vec<u8> = vstd::slice::slice_to_vec(vstd::slice::slice_subrange(source, 0, count));
    write_to_memory(memory, &cut, buffer_ptr, buffer_length)
}

/// Takes the first bytes out of `buffer`, as many as the guest's buffer takes, writes them
/// into the guest's memory at `buffer_ptr`, and returns how many were written. What is left
/// in `buffer` waits for the next call: this is for streaming resources. The bytes leave
/// `buffer` before the write is tried, so a failed write loses them.
pub fn write_from_buffer_to_memory<Usize: WasmUsize>(
    memory: &mut [u8],
    buffer: &mut Vec<u8>,
    buffer_ptr: Usize,
    buffer_length: Usize,
) -> (written: Result<Usize, HostError>)
    ensures
        returns_count(
            written,
            write_outcome(
                old(memory)@,
                old(buffer)@.take(moved(buffer_length.as_nat(), old(buffer)@.len()) as int),
                buffer_ptr.as_nat(),
                buffer_length.as_nat(),
            ),
        ),
        final(memory)@ == written_memory(
            old(memory)@,
            old(buffer)@.take(moved(buffer_length.as_nat(), old(buffer)@.len()) as int),
            buffer_ptr.as_nat(),
            buffer_length.as_nat(),
        ),
        final(buffer)@ == old(buffer)@.skip(
            moved(buffer_length.as_nat(), old(buffer)@.len()) as int,
        ),
{
    if buffer_length.is_zero() {
        return Ok(Usize::zero());
    }
    let count: usize = moved_count(buffer_length, buffer.len());
    let mut source: Vec<u8> = buffer.split_off(count);
    core::mem::swap(buffer, &mut source);
    write_to_memory(memory, &source, buffer_ptr, buffer_length)
}

/// Reads one value with a fixed wire layout from the guest's memory at `buffer_ptr`.
pub fn read_value_from_memory<Usize: WasmUsize, Value: RawValue>(
    memory: &[u8],
    buffer_ptr: Usize,
) -> (value: Result<Value, HostError>)
    ensures
        value == read_value_spec::<Value>(memory@, buffer_ptr.as_nat()),
{
    let pointer: usize = buffer_ptr.into_usize()?;
    let size: usize = Value::size();
    if pointer > memory.len() || size > memory.len() - pointer {
        return Err(HostError::MemoryAccess);
    }
    Value::from_wasm_bytes(vstd::slice::slice_subrange(memory, pointer, pointer + size))
}

/// The value that the guest's memory holds at `pointer`.
pub open spec fn read_value_spec<Value: RawValue>(memory: Seq<u8>, pointer: nat) -> Result<
    Value,
    HostError,
> {
    if pointer > usize::MAX {
        Err(HostError::IntegerConversion)
    } else if pointer + Value::spec_size() > memory.len() {
        Err(HostError::MemoryAccess)
    } else {
        Ok(Value::decoded(memory.subrange(pointer as int, (pointer + Value::spec_size()) as int)))
    }
}

/// The value with index `index` of an array that starts at `pointer`: its address has to
/// fit the guest's width.
pub open spec fn element_spec<Usize: WasmUsize, Value: RawValue>(
    memory: Seq<u8>,
    pointer: nat,
    index: nat,
) -> Result<Value, HostError> {
    if pointer + Value::spec_size() * index > Usize::spec_max() {
        Err(HostError::IntegerConversion)
    } else {
        read_value_spec::<Value>(memory, pointer + Value::spec_size() * index)
    }
}

/// The first `count` values of an array that starts at `pointer`, or what the first value
/// that cannot be read fails with.
pub open spec fn elements_spec<Usize: WasmUsize, Value: RawValue>(
    memory: Seq<u8>,
    pointer: nat,
    count: nat,
) -> Result<Seq<Value>, HostError>
    decreases count,
{
    if count == 0 {
        Ok(Seq::empty())
    } else {
        match elements_spec::<Usize, Value>(memory, pointer, (count - 1) as nat) {
            Err(error) => Err(error),
            Ok(values) => match element_spec::<Usize, Value>(
                memory,
                pointer,
                (count - 1) as nat,
            ) {
                Err(error) => Err(error),
                Ok(value) => Ok(values.push(value)),
            },
        }
    }
}

/// What a read of an array of `count` values at `pointer` gives.
pub open spec fn read_array_spec<Usize: WasmUsize, Value: RawValue>(
    memory: Seq<u8>,
    pointer: nat,
    count: nat,
) -> Result<Seq<Value>, HostError> {
    if count > usize::MAX {
        Err(HostError::IntegerConversion)
    } else {
        elements_spec::<Usize, Value>(memory, pointer, count)
    }
}

/// Reads one value of an array from the guest's memory.
fn read_element<Usize: WasmUsize, Value: RawValue>(
    memory: &[u8],
    buffer_ptr: Usize,
    index: usize,
) -> (value: Result<Value, HostError>)
    ensures
        value == element_spec::<Usize, Value>(memory@, buffer_ptr.as_nat(), index as nat),
{
    let size: usize = Value::size();
    proof {
        buffer_ptr.lemma_in_range();
    }
    match size.checked_mul(index) {
        Some(native_offset) => {
            let offset: Usize = Usize::from_usize(native_offset)?;
            match buffer_ptr.checked_add(offset) {
                Some(pointer) => read_value_from_memory(memory, pointer),
                None => Err(HostError::IntegerConversion),
            }
        },
        None => Err(HostError::IntegerConversion),
    }
}

/// Reads `value_count` values with a fixed wire layout that lie one after the other in the
/// guest's memory from `buffer_ptr` on.
pub fn read_value_array_from_memory<Usize: WasmUsize, Value: RawValue>(
    memory: &[u8],
    buffer_ptr: Usize,
    value_count: Usize,
) -> (values: Result<Vec<Value>, HostError>)
    ensures
        match values {
            Ok(values) => read_array_spec::<Usize, Value>(
                memory@,
                buffer_ptr.as_nat(),
                value_count.as_nat(),
            ) == Ok::<Seq<Value>, HostError>(values@),
            Err(error) => read_array_spec::<Usize, Value>(
                memory@,
                buffer_ptr.as_nat(),
                value_count.as_nat(),
            ) == Err::<Seq<Value>, HostError>(error),
        },
{
    let count: usize = value_count.into_usize()?;
    let mut values: Vec<Value> = Vec::new();
    let mut index: usize = 0;
    while index < count
        invariant
            index <= count,
            count == value_count.as_nat(),
            elements_spec::<Usize, Value>(memory@, buffer_ptr.as_nat(), index as nat) == Ok::<
                Seq<Value>,
                HostError,
            >(values@),
        decreases count - index,
    {
        match read_element::<Usize, Value>(memory, buffer_ptr, index) {
            Ok(value) => {
                values.push(value);
            },
            Err(error) => {
                proof {
                    lemma_elements_fail::<Usize, Value>(
                        memory@,
                        buffer_ptr.as_nat(),
                        index as nat,
                        count as nat,
                    );
                }
                return Err(error);
            },
        }
        index = index + 1;
    }
    Ok(values)
}

/// An array that was read holds as many values as were asked for.
pub proof fn lemma_elements_count<Usize: WasmUsize, Value: RawValue>(
    memory: Seq<u8>,
    pointer: nat,
    count: nat,
)
    ensures
        elements_spec::<Usize, Value>(memory, pointer, count) matches Ok(values) ==> values.len()
            == count,
    decreases count,
{
    if count > 0 {
        lemma_elements_count::<Usize, Value>(memory, pointer, (count - 1) as nat);
    }
}

/// Once the value with index `index` cannot be read, no longer array can be read either, and
/// the failure is that of this value.
proof fn lemma_elements_fail<Usize: WasmUsize, Value: RawValue>(
    memory: Seq<u8>,
    pointer: nat,
    index: nat,
    count: nat,
)
    requires
        index < count,
        elements_spec::<Usize, Value>(memory, pointer, index).is_ok(),
        element_spec::<Usize, Value>(memory, pointer, index).is_err(),
    ensures
        elements_spec::<Usize, Value>(memory, pointer, count) == Err::<Seq<Value>, HostError>(
            element_spec::<Usize, Value>(memory, pointer, index)->Err_0,
        ),
    decreases count,
{
    if count > index + 1 {
        lemma_elements_fail::<Usize, Value>(memory, pointer, index, (count - 1) as nat);
    }
}

/// The address of one value in the guest's memory, as the guest lays it out.
#[derive(Debug, PartialEq, Eq)]
pub struct Pointer<Usize: WasmUsize> {
    pub pointer: Usize,
}

impl<Usize: WasmUsize> RawValue for Pointer<Usize> {
    open spec fn spec_size() -> nat {
        Usize::spec_size()
    }

    open spec fn decoded(bytes: Seq<u8>) -> Self {
        Pointer { pointer: Usize::decoded(bytes) }
    }

    fn size() -> (size: usize) {
        Usize::size()
    }

    fn from_wasm_bytes(bytes: &[u8]) -> (value: Result<Self, HostError>) {
        match Usize::from_wasm_bytes(bytes) {
            Ok(pointer) => Ok(Pointer { pointer }),
            Err(error) => Err(error),
        }
    }
}

/// The address and the length of a run of values in the guest's memory, as the guest lays
/// them out: the address first, then the length.
#[derive(Debug, PartialEq, Eq)]
pub struct SlicePointer<Usize: WasmUsize> {
    pub pointer: Usize,
    pub length: Usize,
}

impl<Usize: WasmUsize> RawValue for SlicePointer<Usize> {
    open spec fn spec_size() -> nat {
        2 * Usize::spec_size()
    }

    open spec fn decoded(bytes: Seq<u8>) -> Self {
        SlicePointer {
            pointer: Usize::decoded(bytes.subrange(0, Usize::spec_size() as int)),
            length: Usize::decoded(
                bytes.subrange(Usize::spec_size() as int, (2 * Usize::spec_size()) as int),
            ),
        }
    }

    fn size() -> (size: usize) {
        proof {
            Usize::lemma_width();
        }
        2 * Usize::size()
    }

    fn from_wasm_bytes(bytes: &[u8]) -> (value: Result<Self, HostError>) {
        proof {
            Usize::lemma_width();
        }
        let width: usize = Usize::size();
        if bytes.len() != 2 * width {
            return Err(HostError::InvalidLength);
        }
        let pointer: Usize = Usize::from_wasm_bytes(vstd::slice::slice_subrange(bytes, 0, width))?;
        let length: Usize = Usize::from_wasm_bytes(
            vstd::slice::slice_subrange(bytes, width, 2 * width),
        )?;
        Ok(SlicePointer { pointer, length })
    }
}

/// Turns bytes into text, through `String::from_utf8`, which accepts exactly the byte
/// strings that are UTF-8 and then holds the characters that they encode.
#[verifier::external_body]
pub(crate) fn string_from_utf8(bytes: Vec<u8>) -> (text: Option<String>)
    ensures
        valid_utf8(bytes@) ==> text.is_some() && text.unwrap()@ == decode_utf8(bytes@),
        !valid_utf8(bytes@) ==> text.is_none(),
{
    String::from_utf8(bytes).ok()
}

/// What a read of text of `length` bytes at `pointer` gives.
pub open spec fn read_text_spec(memory: Seq<u8>, pointer: nat, length: nat) -> Result<
    Seq<char>,
    HostError,
> {
    match read_spec(memory, pointer, length) {
        Err(error) => Err(error),
        Ok(bytes) => if valid_utf8(bytes) {
            Ok(decode_utf8(bytes))
        } else {
            Err(HostError::InvalidUtf8)
        },
    }
}

/// Reads text of `buffer_length` bytes from the guest's memory at `buffer_ptr`.
pub fn read_text_from_memory<Usize: WasmUsize>(
    memory: &[u8],
    buffer_ptr: Usize,
    buffer_length: Usize,
) -> (text: Result<String, HostError>)
    ensures
        match text {
            Ok(text) => read_text_spec(memory@, buffer_ptr.as_nat(), buffer_length.as_nat())
                == Ok::<Seq<char>, HostError>(text@),
            Err(error) => read_text_spec(memory@, buffer_ptr.as_nat(), buffer_length.as_nat())
                == Err::<Seq<char>, HostError>(error),
        },
{
    let bytes: Vec<u8> = read_from_memory_to_buffer(memory, buffer_ptr, buffer_length)?;
    match string_from_utf8(bytes) {
        Some(text) => Ok(text),
        None => Err(HostError::InvalidUtf8),
    }
}

} // verus!
