//! How a new container is shaped: the creation record and its derivation
//! from the caller's options.

use vstd::prelude::*;

verus! {

/// Creation flag: the container gets an internal list of its entry names.
pub const CREATE_LISTFILE: u32 = 0x0010_0000;

/// Creation flag: the container gets the per-entry attributes table.
pub const CREATE_ATTRIBUTES: u32 = 0x0020_0000;

/// Creation flag: the container gets a signature entry.
pub const CREATE_SIGNATURE: u32 = 0x0040_0000;

/// How far the format-version bucket sits above the other creation flags.
pub const CREATE_VERSION_SHIFT: u32 = 24;

/// File flags that let the engine pick its defaults for an internal entry.
pub const FILE_DEFAULT_INTERNAL: u32 = 0xFFFF_FFFF;

pub const ATTRIBUTE_CRC32: u32 = 0x1;

pub const ATTRIBUTE_FILETIME: u32 = 0x2;

pub const ATTRIBUTE_MD5: u32 = 0x4;

pub const ATTRIBUTE_PATCH_BIT: u32 = 0x8;

/// The first format-version bucket whose containers use the large sector.
pub const LARGE_SECTOR_FROM: u32 = 3;

/// The first format-version bucket whose containers carry raw chunks.
pub const RAW_CHUNKS_FROM: u32 = 4;

/// The first format-version bucket whose attributes table records the patch
/// bit.
pub const PATCH_BIT_FROM: u32 = 3;

pub const SECTOR_SIZE_SMALL: u32 = 0x1000;

pub const SECTOR_SIZE_LARGE: u32 = 0x4000;

pub const RAW_CHUNK_SIZE: u32 = 0x4000;

/// The format-version bucket asked for: the top byte of the creation flags.
pub open spec fn version_of(flags: u32) -> u32 {
    flags >> CREATE_VERSION_SHIFT
}

pub open spec fn wants_internal_filelist(flags: u32) -> bool {
    flags & CREATE_LISTFILE != 0
}

pub open spec fn wants_attributes(flags: u32) -> bool {
    flags & CREATE_ATTRIBUTES != 0
}

pub open spec fn wants_signature(flags: u32) -> bool {
    flags & CREATE_SIGNATURE != 0
}

/// How a new container is to be initialised.
///
/// A record of plain numbers, derived once from the caller's options by
/// [`CreationConfig::derive`] and handed to the engine as it is.
#[derive(Debug, Clone, Copy, PartialEq, Eq, Structural)]
pub struct CreationConfig {
    /// Format-version bucket.
    pub version: u32,
    /// Base block granularity of entry data.
    pub sector_size: u32,
    /// Granularity of the per-chunk integrity table, 0 where there is none.
    pub raw_chunk_size: u32,
    /// File flags of the internal filelist, 0 where the container has none.
    pub file_flags1: u32,
    /// File flags of the attributes table, 0 where the container has none.
    pub file_flags2: u32,
    /// File flags of the signature entry, 0 where the container has none.
    pub file_flags3: u32,
    /// Which per-entry attributes the attributes table records.
    pub attr_flags: u32,
    /// Upper bound on the number of entries.
    pub max_entries: u32,
}

/// The attribute flags of a container of bucket `version`.
pub open spec fn derived_attr_flags(version: u32, attributes: bool) -> u32 {
    if !attributes {
        0
    } else if version >= PATCH_BIT_FROM {
        ATTRIBUTE_CRC32 | ATTRIBUTE_FILETIME | ATTRIBUTE_MD5 | ATTRIBUTE_PATCH_BIT
    } else {
        ATTRIBUTE_CRC32 | ATTRIBUTE_FILETIME | ATTRIBUTE_MD5
    }
}

/// The creation record that follows from the options: nothing else enters.
pub open spec fn derived(
    flags: u32,
    file_count_hint: u32,
    force_internal_filelist: bool,
) -> CreationConfig {
    let version = version_of(flags);
    CreationConfig {
        version,
        sector_size: if version >= LARGE_SECTOR_FROM {
            SECTOR_SIZE_LARGE
        } else {
            SECTOR_SIZE_SMALL
        },
        raw_chunk_size: if version >= RAW_CHUNKS_FROM {
            RAW_CHUNK_SIZE
        } else {
            0
        },
        file_flags1: if wants_internal_filelist(flags) || force_internal_filelist {
            FILE_DEFAULT_INTERNAL
        } else {
            0
        },
        file_flags2: if wants_attributes(flags) {
            FILE_DEFAULT_INTERNAL
        } else {
            0
        },
        file_flags3: if wants_signature(flags) {
            FILE_DEFAULT_INTERNAL
        } else {
            0
        },
        attr_flags: derived_attr_flags(version, wants_attributes(flags)),
        max_entries: file_count_hint,
    }
}

impl CreationConfig {
    /// Derives the creation record from the requested creation flags, the
    /// caller's bound on the number of entries and the caller's wish for an
    /// internal filelist.
    pub fn derive(flags: u32, file_count_hint: u32, force_internal_filelist: bool) -> (config:
        CreationConfig)
        ensures
            config == derived(flags, file_count_hint, force_internal_filelist),
    {
        let version: u32 = flags >> CREATE_VERSION_SHIFT;
        let attributes = flags & CREATE_ATTRIBUTES != 0;
        let mut file_flags1: u32 = if flags & CREATE_LISTFILE != 0 {
            FILE_DEFAULT_INTERNAL
        } else {
            0
        };
        let file_flags2: u32 = if attributes {
            FILE_DEFAULT_INTERNAL
        } else {
            0
        };
        let file_flags3: u32 = if flags & CREATE_SIGNATURE != 0 {
            FILE_DEFAULT_INTERNAL
        } else {
            0
        };
        let mut attr_flags: u32 = if attributes {
            ATTRIBUTE_CRC32 | ATTRIBUTE_FILETIME | ATTRIBUTE_MD5
        } else {
            0
        };
        let sector_size: u32 = if version >= LARGE_SECTOR_FROM {
            SECTOR_SIZE_LARGE
        } else {
            SECTOR_SIZE_SMALL
        };
        let raw_chunk_size: u32 = if version >= RAW_CHUNKS_FROM {
            RAW_CHUNK_SIZE
        } else {
            0
        };
        if version >= PATCH_BIT_FROM && attributes {
            attr_flags |= ATTRIBUTE_PATCH_BIT;
        }
        if force_internal_filelist {
            file_flags1 = FILE_DEFAULT_INTERNAL;
        }
        CreationConfig {
            version,
            sector_size,
            raw_chunk_size,
            file_flags1,
            file_flags2,
            file_flags3,
            attr_flags,
            max_entries: file_count_hint,
        }
    }
}

/// The three attribute bits and the patch bit are four different bits.
pub proof fn lemma_attr_flag_values()
    ensures
        ATTRIBUTE_CRC32 | ATTRIBUTE_FILETIME | ATTRIBUTE_MD5 == 0x7,
        ATTRIBUTE_CRC32 | ATTRIBUTE_FILETIME | ATTRIBUTE_MD5 | ATTRIBUTE_PATCH_BIT == 0xF,
        0x7u32 & ATTRIBUTE_PATCH_BIT == 0,
        0xFu32 & ATTRIBUTE_PATCH_BIT == ATTRIBUTE_PATCH_BIT,
        0u32 & ATTRIBUTE_PATCH_BIT == 0,
{
    assert(1u32 | 2u32 | 4u32 == 0x7) by (bit_vector);
    assert(1u32 | 2u32 | 4u32 | 8u32 == 0xF) by (bit_vector);
    assert(0x7u32 & 8u32 == 0) by (bit_vector);
    assert(0xFu32 & 8u32 == 8) by (bit_vector);
    assert(0u32 & 8u32 == 0) by (bit_vector);
}

/// The version bucket alone decides the two sizes, and together with the wish
/// for attributes it decides the patch bit: the large sector comes with bucket
/// 3, raw chunks with bucket 4, and the patch bit is recorded exactly in the
/// containers of bucket 3 and above that have an attributes table.
pub proof fn lemma_version_thresholds(
    flags: u32,
    file_count_hint: u32,
    force_internal_filelist: bool,
)
    ensures
        ({
            let config = derived(flags, file_count_hint, force_internal_filelist);
            let v = version_of(flags);
            &&& config.version == v
            &&& v <= 0xFF
            &&& config.sector_size == (if v >= 3 {
                0x4000u32
            } else {
                0x1000u32
            })
            &&& config.raw_chunk_size == (if v >= 4 {
                0x4000u32
            } else {
                0u32
            })
            &&& (config.attr_flags & ATTRIBUTE_PATCH_BIT != 0) <==> (v >= 3 && wants_attributes(
                flags,
            ))
            &&& config.max_entries == file_count_hint
        }),
{
    lemma_attr_flag_values();
    assert(flags >> 24 <= 0xFF) by (bit_vector);
}

/// Every version bucket can be asked for: the flags that hold bucket
/// `version` and, where `attributes` is set, the wish for an attributes
/// table, are read back as exactly that.
pub proof fn lemma_every_bucket_is_reachable(version: u32, attributes: bool)
    requires
        version <= 0xFF,
    ensures
        ({
            let flags = (version << CREATE_VERSION_SHIFT) | (if attributes {
                CREATE_ATTRIBUTES
            } else {
                0u32
            });
            version_of(flags) == version && wants_attributes(flags) == attributes
        }),
{
    assert(((version << 24) | 0x0020_0000u32) >> 24 == version) by (bit_vector)
        requires
            version <= 0xFF,
    ;
    assert(((version << 24) | 0u32) >> 24 == version) by (bit_vector)
        requires
            version <= 0xFF,
    ;
    assert(((version << 24) | 0x0020_0000u32) & 0x0020_0000u32 != 0) by (bit_vector);
    assert(((version << 24) | 0u32) & 0x0020_0000u32 == 0) by (bit_vector);
}

} // verus!
