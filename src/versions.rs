use vstd::prelude::*;

verus! {

/// A version of the first object-version line (engine 4.x and later).
/// Known versions run from `OLDEST_LOADABLE` to `LATEST` without gaps.
#[derive(Clone, Copy, Debug, PartialEq, Eq, PartialOrd, Ord, Hash, Structural)]
pub struct ObjectVersion(pub i32);

/// A version of the second object-version line (engine 5.x).
/// Known versions run from `INITIAL_VERSION` to `LATEST` without gaps.
#[derive(Clone, Copy, Debug, PartialEq, Eq, PartialOrd, Ord, Hash, Structural)]
pub struct ObjectVersionUE5(pub i32);

impl ObjectVersion {
    pub const OLDEST_LOADABLE: i32 = 214;
    pub const VER_UE4_WORLD_LEVEL_INFO: i32 = 224;
    pub const VER_UE4_ADDED_CHUNKID_TO_ASSETDATA_AND_UPACKAGE: i32 = 278;
    pub const VER_UE4_CHANGED_CHUNKID_TO_BE_AN_ARRAY_OF_CHUNKIDS: i32 = 326;
    pub const VER_UE4_ENGINE_VERSION_OBJECT: i32 = 336;
    pub const VER_UE4_LOAD_FOR_EDITOR_GAME: i32 = 365;
    pub const VER_UE4_ADD_STRING_ASSET_REFERENCES_MAP: i32 = 384;
    pub const VER_UE4_PACKAGE_SUMMARY_HAS_COMPATIBLE_ENGINE_VERSION: i32 = 444;
    pub const VER_UE4_SERIALIZE_TEXT_IN_PACKAGES: i32 = 459;
    pub const VER_UE4_APEX_CLOTH_TESSELLATION: i32 = 482;
    pub const VER_UE4_COOKED_ASSETS_IN_EDITOR_SUPPORT: i32 = 485;
    pub const VER_UE4_STREAMABLE_TEXTURE_MIN_MAX_DISTANCE: i32 = 498;
    pub const VER_UE4_NAME_HASHES_SERIALIZED: i32 = 504;
    pub const VER_UE4_INSTANCED_STEREO_UNIFORM_REFACTOR: i32 = 505;
    pub const VER_UE4_PRELOAD_DEPENDENCIES_IN_COOKED_EXPORTS: i32 = 507;
    pub const VER_UE4_TEMPLATE_INDEX_IN_COOKED_EXPORTS: i32 = 508;
    pub const VER_UE4_ADDED_SEARCHABLE_NAMES: i32 = 510;
    pub const VER_UE4_64BIT_EXPORTMAP_SERIALSIZES: i32 = 511;
    pub const VER_UE4_ADDED_SWEEP_WHILE_WALKING_FLAG: i32 = 513;
    pub const VER_UE4_ADDED_SOFT_OBJECT_PATH: i32 = 514;
    pub const VER_UE4_ADDED_PACKAGE_SUMMARY_LOCALIZATION_ID: i32 = 516;
    pub const VER_UE4_FIX_WIDE_STRING_CRC: i32 = 517;
    pub const VER_UE4_ADDED_PACKAGE_OWNER: i32 = 518;
    pub const VER_UE4_NON_OUTER_PACKAGE_IMPORT: i32 = 520;
    pub const VER_UE4_CORRECT_LICENSEE_FLAG: i32 = 522;
    pub const LATEST: i32 = 522;

    /// Whether `v` is a version of this line that the decoder knows.
    pub open spec fn is_known(v: int) -> bool {
        Self::OLDEST_LOADABLE <= v <= Self::LATEST
    }

    /// The named version for `value`, if it is a known one.
    pub fn from_i32(value: i32) -> (r: Option<ObjectVersion>)
        ensures
            r == (if Self::is_known(value as int) {
                Some(ObjectVersion(value))
            } else {
                None
            }),
    {
        if Self::OLDEST_LOADABLE <= value && value <= Self::LATEST {
            Some(ObjectVersion(value))
        } else {
            None
        }
    }
}

impl ObjectVersionUE5 {
    pub const INITIAL_VERSION: i32 = 1000;
    pub const NAMES_REFERENCED_FROM_EXPORT_DATA: i32 = 1001;
    pub const PAYLOAD_TOC: i32 = 1002;
    pub const OPTIONAL_RESOURCES: i32 = 1003;
    pub const LARGE_WORLD_COORDINATES: i32 = 1004;
    pub const REMOVE_OBJECT_EXPORT_PACKAGE_GUID: i32 = 1005;
    pub const TRACK_OBJECT_EXPORT_IS_INHERITED: i32 = 1006;
    pub const FSOFTOBJECTPATH_REMOVE_ASSET_PATH_FNAMES: i32 = 1007;
    pub const ADD_SOFTOBJECTPATH_LIST: i32 = 1008;
    pub const DATA_RESOURCES: i32 = 1009;
    pub const SCRIPT_SERIALIZATION_OFFSET: i32 = 1010;
    pub const LATEST: i32 = 1010;

    /// Whether `v` is a version of this line that the decoder knows.
    pub open spec fn is_known(v: int) -> bool {
        Self::INITIAL_VERSION <= v <= Self::LATEST
    }

    /// The named version for `value`, if it is a known one.
    pub fn from_i32(value: i32) -> (r: Option<ObjectVersionUE5>)
        ensures
            r == (if Self::is_known(value as int) {
                Some(ObjectVersionUE5(value))
            } else {
                None
            }),
    {
        if Self::INITIAL_VERSION <= value && value <= Self::LATEST {
            Some(ObjectVersionUE5(value))
        } else {
            None
        }
    }
}

/// The package flags of an asset, each a single bit of the flags field.
#[derive(Clone, Copy, Debug, PartialEq, Eq, Structural)]
pub enum PackageFlags {
    NoFlags,
    NewlyCreated,
    ClientOptional,
    ServerSideOnly,
    CompiledIn,
    ForDiffing,
    EditorOnly,
    Developer,
    UncookedOnly,
    Cooked,
    ContainsNoAsset,
    Unused1,
    Unused2,
    UnversionedProperties,
    ContainsMapData,
    Unused3,
    Compiling,
    ContainsMap,
    RequiresLocalizationGather,
    Unused4,
    PlayInEditor,
    ContainsScript,
    DisallowExport,
    Unused5,
    Unused6,
    Unused7,
    Unused8,
    Unused9,
    DynamicImports,
    RuntimeGenerated,
    ReloadingForCooker,
    FilterEditorOnly,
}

impl PackageFlags {
    /// The bit that stands for this flag (none for `NoFlags`).
    pub open spec fn spec_bits(self) -> u32 {
        match self {
            PackageFlags::NoFlags => 0x00000000,
            PackageFlags::NewlyCreated => 0x00000001,
            PackageFlags::ClientOptional => 0x00000002,
            PackageFlags::ServerSideOnly => 0x00000004,
            PackageFlags::CompiledIn => 0x00000010,
            PackageFlags::ForDiffing => 0x00000020,
            PackageFlags::EditorOnly => 0x00000040,
            PackageFlags::Developer => 0x00000080,
            PackageFlags::UncookedOnly => 0x00000100,
            PackageFlags::Cooked => 0x00000200,
            PackageFlags::ContainsNoAsset => 0x00000400,
            PackageFlags::Unused1 => 0x00000800,
            PackageFlags::Unused2 => 0x00001000,
            PackageFlags::UnversionedProperties => 0x00002000,
            PackageFlags::ContainsMapData => 0x00004000,
            PackageFlags::Unused3 => 0x00008000,
            PackageFlags::Compiling => 0x00010000,
            PackageFlags::ContainsMap => 0x00020000,
            PackageFlags::RequiresLocalizationGather => 0x00040000,
            PackageFlags::Unused4 => 0x00080000,
            PackageFlags::PlayInEditor => 0x00100000,
            PackageFlags::ContainsScript => 0x00200000,
            PackageFlags::DisallowExport => 0x00400000,
            PackageFlags::Unused5 => 0x00800000,
            PackageFlags::Unused6 => 0x01000000,
            PackageFlags::Unused7 => 0x02000000,
            PackageFlags::Unused8 => 0x04000000,
            PackageFlags::Unused9 => 0x08000000,
            PackageFlags::DynamicImports => 0x10000000,
            PackageFlags::RuntimeGenerated => 0x20000000,
            PackageFlags::ReloadingForCooker => 0x40000000,
            PackageFlags::FilterEditorOnly => 0x80000000,
        }
    }

    pub fn bits(self) -> (r: u32)
        ensures
            r == self.spec_bits(),
    {
        match self {
            PackageFlags::NoFlags => 0x00000000,
            PackageFlags::NewlyCreated => 0x00000001,
            PackageFlags::ClientOptional => 0x00000002,
            PackageFlags::ServerSideOnly => 0x00000004,
            PackageFlags::CompiledIn => 0x00000010,
            PackageFlags::ForDiffing => 0x00000020,
            PackageFlags::EditorOnly => 0x00000040,
            PackageFlags::Developer => 0x00000080,
            PackageFlags::UncookedOnly => 0x00000100,
            PackageFlags::Cooked => 0x00000200,
            PackageFlags::ContainsNoAsset => 0x00000400,
            PackageFlags::Unused1 => 0x00000800,
            PackageFlags::Unused2 => 0x00001000,
            PackageFlags::UnversionedProperties => 0x00002000,
            PackageFlags::ContainsMapData => 0x00004000,
            PackageFlags::Unused3 => 0x00008000,
            PackageFlags::Compiling => 0x00010000,
            PackageFlags::ContainsMap => 0x00020000,
            PackageFlags::RequiresLocalizationGather => 0x00040000,
            PackageFlags::Unused4 => 0x00080000,
            PackageFlags::PlayInEditor => 0x00100000,
            PackageFlags::ContainsScript => 0x00200000,
            PackageFlags::DisallowExport => 0x00400000,
            PackageFlags::Unused5 => 0x00800000,
            PackageFlags::Unused6 => 0x01000000,
            PackageFlags::Unused7 => 0x02000000,
            PackageFlags::Unused8 => 0x04000000,
            PackageFlags::Unused9 => 0x08000000,
            PackageFlags::DynamicImports => 0x10000000,
            PackageFlags::RuntimeGenerated => 0x20000000,
            PackageFlags::ReloadingForCooker => 0x40000000,
            PackageFlags::FilterEditorOnly => 0x80000000,
        }
    }
}

} // verus!
