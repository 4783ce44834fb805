//! The data that the C bindings take from their callers: targets,
//! capability lists, execution modes given as raw bytes, allocation layouts,
//! and the error that a failed call leaves behind.
use vstd::prelude::*;
use crate::binary::bytes::u32_of;
use crate::config::CapabilityModel;
use crate::error::Error;
use crate::function::ExecutionMode;
use crate::spv::{
    Capability, SpirvExecutionMode, EXECUTION_MODE_DEPTH_REPLACING, EXECUTION_MODE_INVOCATIONS,
    EXECUTION_MODE_LOCAL_SIZE, EXECUTION_MODE_LOCAL_SIZE_HINT, EXECUTION_MODE_ORIGIN_LOWER_LEFT,
    EXECUTION_MODE_ORIGIN_UPPER_LEFT, EXECUTION_MODE_PIXEL_CENTER_INTEGER,
};
use crate::version::{TargetPlatform, Version};

verus! {

/// A target platform as the C interface names it.
#[derive(Debug, Clone, Copy, PartialEq, Eq, Structural, Hash)]
pub enum w2s_target_platform {
    Universal,
    Vulkan,
}

/// A capability model as the C interface names it.
#[derive(Debug, Clone, Copy, PartialEq, Eq, Structural, Hash)]
pub enum w2s_capability_model {
    Static,
    Dynamic,
}

/// A target as the C interface passes it.
#[derive(Debug, Clone, Copy, PartialEq, Eq, Structural)]
pub struct w2s_target {
    pub platform: w2s_target_platform,
    pub version: Version,
}

/// A capability model and its capabilities as the C interface passes them.
#[derive(Debug, Clone)]
pub struct w2s_capabilities {
    pub model: w2s_capability_model,
    pub capabilities: Vec<Capability>,
}

impl w2s_target {
    /// The target platform that the C target names.
    pub fn to_target_platform(self) -> (r: TargetPlatform)
        ensures
            r == match self.platform {
                w2s_target_platform::Universal => TargetPlatform::Universal(self.version),
                w2s_target_platform::Vulkan => TargetPlatform::Vulkan(self.version),
            },
    {
        match self.platform {
            w2s_target_platform::Universal => TargetPlatform::Universal(self.version),
            w2s_target_platform::Vulkan => TargetPlatform::Vulkan(self.version),
        }
    }
}

impl w2s_capabilities {
    /// The capability model that the C capabilities name.
    pub fn to_capability_model(self) -> (r: CapabilityModel)
        ensures
            r == match self.model {
                w2s_capability_model::Static => CapabilityModel::Static(self.capabilities),
                w2s_capability_model::Dynamic => CapabilityModel::Dynamic(self.capabilities),
            },
    {
        match self.model {
            w2s_capability_model::Static => CapabilityModel::Static(self.capabilities),
            w2s_capability_model::Dynamic => CapabilityModel::Dynamic(self.capabilities),
        }
    }
}

/// The 32-bit word of four bytes, most significant byte first.
pub open spec fn u32_of_be(b0: u8, b1: u8, b2: u8, b3: u8) -> u32 {
    u32_of(b3, b2, b1, b0)
}

/// Calls `u32::from_ne_bytes`: the word in the byte order of the machine,
/// which is little- or big-endian; this crate does not state which.
#[verifier::external_body]
fn word_from_ne_bytes(b0: u8, b1: u8, b2: u8, b3: u8) -> (r: u32)
    ensures
        r == u32_of(b0, b1, b2, b3) || r == u32_of_be(b0, b1, b2, b3),
{
    u32::from_ne_bytes([b0, b1, b2, b3])
}

/// The word of four bytes, least significant byte first when `little`
/// holds and most significant first otherwise.
pub open spec fn word_in_order(little: bool, b0: u8, b1: u8, b2: u8, b3: u8) -> u32 {
    if little {
        u32_of(b0, b1, b2, b3)
    } else {
        u32_of_be(b0, b1, b2, b3)
    }
}

/// Whether `words` are the first words of `bytes`, all read in one byte
/// order, little-endian when `little` holds.
pub open spec fn words_in_order(little: bool, bytes: Seq<u8>, words: Seq<u32>) -> bool {
    &&& 4 * words.len() <= bytes.len()
    &&& forall|i: int|
        #![trigger words[i]]
        0 <= i < words.len() ==> words[i] == word_in_order(
            little,
            bytes[4 * i],
            bytes[4 * i + 1],
            bytes[4 * i + 2],
            bytes[4 * i + 3],
        )
}

/// The word of four bytes in the given byte order.
fn word_of(little: bool, b0: u8, b1: u8, b2: u8, b3: u8) -> (r: u32)
    ensures
        r == word_in_order(little, b0, b1, b2, b3),
{
    if little {
        let r = (b0 as u32) | ((b1 as u32) << 8) | ((b2 as u32) << 16) | ((b3 as u32) << 24);
        r
    } else {
        let r = (b3 as u32) | ((b2 as u32) << 8) | ((b1 as u32) << 16) | ((b0 as u32) << 24);
        r
    }
}

/// The words of `bytes`, all read in the machine's byte order; the bytes
/// must hold a whole number of words.
pub fn bytes_to_words(bytes: &[u8]) -> (r: Result<Vec<u32>, Error>)
    ensures
        bytes@.len() % 4 != 0 ==> r == Err::<Vec<u32>, Error>(Error::NotWholeWords),
        bytes@.len() % 4 == 0 ==> (r matches Ok(words) && words@.len() == bytes@.len() / 4 && exists|little: bool|
            #[trigger] words_in_order(little, bytes@, words@)),
{
    if bytes.len() % 4 != 0 {
        return Err(Error::NotWholeWords);
    }
    let little = word_from_ne_bytes(1, 0, 0, 0) == 1;
    let count = bytes.len() / 4;
    let mut words: Vec<u32> = Vec::new();
    let mut i: usize = 0;
    let mut p: usize = 0;
    while i < count
        invariant
            count == bytes@.len() / 4,
            bytes@.len() % 4 == 0,
            i <= count,
            p == 4 * i,
            words@.len() == i,
            forall|j: int|
                #![trigger words@[j]]
                0 <= j < i ==> words@[j] == word_in_order(
                    little,
                    bytes@[4 * j],
                    bytes@[4 * j + 1],
                    bytes@[4 * j + 2],
                    bytes@[4 * j + 3],
                ),
        decreases count - i,
    {
        assert(p + 3 < bytes@.len()) by (nonlinear_arith)
            requires
                i < count,
                p == 4 * i,
                count == bytes@.len() / 4,
                bytes@.len() % 4 == 0,
        ;
        let w = word_of(little, bytes[p], bytes[p + 1], bytes[p + 2], bytes[p + 3]);
        words.push(w);
        i = i + 1;
        p = p + 4;
    }
    assert(4 * words@.len() <= bytes@.len()) by (nonlinear_arith)
        requires
            words@.len() == bytes@.len() / 4,
    ;
    assert(words_in_order(little, bytes@, words@));
    assert(exists|l: bool| #[trigger] words_in_order(l, bytes@, words@));
    Ok(words)
}

/// The first `n` words of `data`. When the data is aligned to words, they
/// must be exactly `n`; otherwise at least `n`.
pub fn words_from_data(data: &[u8], n: usize, aligned: bool) -> (r: Result<Vec<u32>, Error>)
    ensures
        data@.len() % 4 != 0 ==> r == Err::<Vec<u32>, Error>(Error::NotWholeWords),
        data@.len() % 4 == 0 && (if aligned { data@.len() / 4 != n } else { data@.len() / 4 < n })
            ==> r == Err::<Vec<u32>, Error>(Error::InvalidWordCount),
        r matches Ok(words) ==> words@.len() == n && exists|little: bool| #[trigger] words_in_order(little, data@, words@),
        data@.len() % 4 == 0 && (if aligned { data@.len() / 4 == n } else { data@.len() / 4 >= n }) ==> r is Ok,
{
    let words = match bytes_to_words(data) {
        Ok(w) => w,
        Err(e) => return Err(e),
    };
    let ghost little = choose|little: bool| #[trigger] words_in_order(little, data@, words@);
    if aligned {
        if words.len() != n {
            return Err(Error::InvalidWordCount);
        }
        Ok(words)
    } else {
        if words.len() < n {
            return Err(Error::InvalidWordCount);
        }
        let mut first: Vec<u32> = Vec::new();
        let mut i: usize = 0;
        while i < n
            invariant
                i <= n <= words@.len(),
                first@ == words@.take(i as int),
            decreases n - i,
        {
            first.push(words[i]);
            proof {
                assert(first@ =~= words@.take(i + 1));
            }
            i = i + 1;
        }
        assert(words_in_order(little, data@, first@));
        assert(exists|l: bool| #[trigger] words_in_order(l, data@, first@));
        Ok(first)
    }
}

/// The local size (or its hint, as `mode` says) whose three sizes are the
/// first three words of `data`, read in the given byte order.
pub open spec fn local_size_mode(mode: SpirvExecutionMode, little: bool, data: Seq<u8>) -> ExecutionMode {
    let x = word_in_order(little, data[0], data[1], data[2], data[3]);
    let y = word_in_order(little, data[4], data[5], data[6], data[7]);
    let z = word_in_order(little, data[8], data[9], data[10], data[11]);
    if mode == EXECUTION_MODE_LOCAL_SIZE {
        ExecutionMode::LocalSize(x, y, z)
    } else {
        ExecutionMode::LocalSizeHint(x, y, z)
    }
}

/// The execution mode `mode` with the operands that `data` holds: four
/// bytes for `Invocations`, three words for the sizes, none otherwise.
/// Modes that the bindings do not know are refused.
pub fn decode_execution_mode(mode: SpirvExecutionMode, data: &[u8], aligned: bool) -> (r: Result<ExecutionMode, Error>)
    ensures
        mode == EXECUTION_MODE_INVOCATIONS ==> (data@.len() == 4 <==> r is Ok) && (r matches Ok(m) ==> m
            matches ExecutionMode::Invocations(x) && (x == u32_of(data@[0], data@[1], data@[2], data@[3]) || x
            == u32_of_be(data@[0], data@[1], data@[2], data@[3]))),
        mode == EXECUTION_MODE_INVOCATIONS && data@.len() != 4 ==> r == Err::<ExecutionMode, Error>(Error::InvalidWordCount),
        mode == EXECUTION_MODE_PIXEL_CENTER_INTEGER ==> r == Ok::<ExecutionMode, Error>(ExecutionMode::PixelCenterInteger),
        mode == EXECUTION_MODE_ORIGIN_UPPER_LEFT ==> r == Ok::<ExecutionMode, Error>(ExecutionMode::OriginUpperLeft),
        mode == EXECUTION_MODE_ORIGIN_LOWER_LEFT ==> r == Ok::<ExecutionMode, Error>(ExecutionMode::OriginLowerLeft),
        mode == EXECUTION_MODE_DEPTH_REPLACING ==> r == Ok::<ExecutionMode, Error>(ExecutionMode::DepthReplacing),
        mode == EXECUTION_MODE_LOCAL_SIZE || mode == EXECUTION_MODE_LOCAL_SIZE_HINT ==> {
            &&& data@.len() % 4 != 0 ==> r == Err::<ExecutionMode, Error>(Error::NotWholeWords)
            &&& data@.len() % 4 == 0 && (if aligned { data@.len() / 4 != 3 } else { data@.len() / 4 < 3 })
                ==> r == Err::<ExecutionMode, Error>(Error::InvalidWordCount)
            &&& data@.len() % 4 == 0 && (if aligned { data@.len() / 4 == 3 } else { data@.len() / 4 >= 3 })
                ==> (r matches Ok(m) && exists|little: bool| #[trigger] local_size_mode(mode, little, data@) == m)
        },
        !(mode == EXECUTION_MODE_INVOCATIONS || mode == EXECUTION_MODE_PIXEL_CENTER_INTEGER || mode
            == EXECUTION_MODE_ORIGIN_UPPER_LEFT || mode == EXECUTION_MODE_ORIGIN_LOWER_LEFT || mode
            == EXECUTION_MODE_DEPTH_REPLACING || mode == EXECUTION_MODE_LOCAL_SIZE || mode
            == EXECUTION_MODE_LOCAL_SIZE_HINT) ==> r == Err::<ExecutionMode, Error>(Error::UnsupportedExecutionMode),
{
    if mode == EXECUTION_MODE_INVOCATIONS {
        if data.len() != 4 {
            return Err(Error::InvalidWordCount);
        }
        Ok(ExecutionMode::Invocations(word_from_ne_bytes(data[0], data[1], data[2], data[3])))
    } else if mode == EXECUTION_MODE_PIXEL_CENTER_INTEGER {
        Ok(ExecutionMode::PixelCenterInteger)
    } else if mode == EXECUTION_MODE_ORIGIN_UPPER_LEFT {
        Ok(ExecutionMode::OriginUpperLeft)
    } else if mode == EXECUTION_MODE_ORIGIN_LOWER_LEFT {
        Ok(ExecutionMode::OriginLowerLeft)
    } else if mode == EXECUTION_MODE_DEPTH_REPLACING {
        Ok(ExecutionMode::DepthReplacing)
    } else if mode == EXECUTION_MODE_LOCAL_SIZE || mode == EXECUTION_MODE_LOCAL_SIZE_HINT {
        let words = match words_from_data(data, 3, aligned) {
            Ok(w) => w,
            Err(e) => return Err(e),
        };
        let ghost little = choose|little: bool| #[trigger] words_in_order(little, data@, words@);
        assert(words@[0] == word_in_order(little, data@[0], data@[1], data@[2], data@[3]));
        assert(words@[1] == word_in_order(little, data@[4], data@[5], data@[6], data@[7]));
        assert(words@[2] == word_in_order(little, data@[8], data@[9], data@[10], data@[11]));
        let m = if mode == EXECUTION_MODE_LOCAL_SIZE {
            ExecutionMode::LocalSize(words[0], words[1], words[2])
        } else {
            ExecutionMode::LocalSizeHint(words[0], words[1], words[2])
        };
        assert(local_size_mode(mode, little, data@) == m);
        assert(exists|l: bool| #[trigger] local_size_mode(mode, l, data@) == m);
        Ok(m)
    } else {
        Err(Error::UnsupportedExecutionMode)
    }
}

/// The value of a successful call, or `None` with the error kept in
/// `last_error` for the caller to fetch.
pub fn handle_error<T>(res: Result<T, Error>, last_error: &mut Option<Error>) -> (r: Option<T>)
    ensures
        match res {
            Ok(x) => r == Some(x) && *final(last_error) == *old(last_error),
            Err(e) => r is None && *final(last_error) == Some(e),
        },
{
    match res {
        Ok(x) => Some(x),
        Err(err) => {
            *last_error = Some(err);
            None
        },
    }
}

/// An allocation's size and alignment, the alignment given by its base-two
/// logarithm.
#[derive(Debug, Clone, Copy, PartialEq, Eq, Structural)]
pub struct w2s_allocator_layout {
    pub size: usize,
    pub log2_align: u16,
}

impl w2s_allocator_layout {
    /// The layout of `size` bytes aligned to `align`, a power of two.
    pub fn from_size_align(size: usize, align: usize) -> (r: Self)
        requires
            crate::values::bits::power_of_two_exponent(align as nat) is Some,
        ensures
            r.size == size,
            crate::values::bits::power_of_two_exponent(align as nat) == Some(r.log2_align as nat),
    {
        let k = match crate::values::bits::exact_log2(align as u64) {
            Some(k) => k,
            None => {
                proof {
                    assert(false);
                }
                0
            },
        };
        w2s_allocator_layout { size, log2_align: k as u16 }
    }
}

} // verus!
