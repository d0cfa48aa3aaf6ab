//! The catalog's project class, and the subdirectory each class is stored in.
use vstd::prelude::*;

verus! {

/// The class of a catalog project.
#[derive(Debug, Clone, Copy, PartialEq, Eq, Structural)]
pub enum ModType {
    Mod,
    ResourcePack,
    ShaderPack,
    ModPack,
}

/// The catalog's numeric class id of each project class.
pub open spec fn class_id_of(t: ModType) -> i64 {
    match t {
        ModType::Mod => 6,
        ModType::ResourcePack => 12,
        ModType::ShaderPack => 6552,
        ModType::ModPack => 4471,
    }
}

/// The project class with the given catalog class id, if any.
pub open spec fn mod_type_of(value: i64) -> Option<ModType> {
    if value == 6 {
        Some(ModType::Mod)
    } else if value == 12 {
        Some(ModType::ResourcePack)
    } else if value == 6552 {
        Some(ModType::ShaderPack)
    } else if value == 4471 {
        Some(ModType::ModPack)
    } else {
        None
    }
}

/// The subdirectory name under which files of each class are stored.
pub open spec fn folder_of(t: ModType) -> Seq<char> {
    match t {
        ModType::Mod => "mods"@,
        ModType::ResourcePack => "resourcepacks"@,
        ModType::ShaderPack => "shaderpacks"@,
        ModType::ModPack => "modpacks"@,
    }
}

impl ModType {
    /// Decodes a catalog class id; any other value is an error.
    pub fn try_from(value: i64) -> (r: Result<ModType, &'static str>)
        ensures
            r is Ok <==> mod_type_of(value) is Some,
            r matches Ok(t) ==> mod_type_of(value) == Some(t),
    {
        match value {
            6 => Ok(ModType::Mod),
            12 => Ok(ModType::ResourcePack),
            6552 => Ok(ModType::ShaderPack),
            4471 => Ok(ModType::ModPack),
            _ => Err("Invalid value for ModType"),
        }
    }

    /// The catalog class id of this class.
    pub fn class_id(&self) -> (r: i64)
        ensures
            r == class_id_of(*self),
    {
        match self {
            ModType::Mod => 6,
            ModType::ResourcePack => 12,
            ModType::ShaderPack => 6552,
            ModType::ModPack => 4471,
        }
    }
}

impl From<ModType> for i64 {
    fn from(value: ModType) -> (r: i64) {
        value.class_id()
    }
}

impl vstd::std_specs::convert::FromSpecImpl<ModType> for i64 {
    open spec fn obeys_from_spec() -> bool {
        true
    }

    open spec fn from_spec(v: ModType) -> i64 {
        class_id_of(v)
    }
}

/// Queries on a project class.
pub trait ModTypeExt {
    fn is_mod(&self) -> bool;

    fn is_resource_pack(&self) -> bool;

    fn is_shader_pack(&self) -> bool;

    fn is_mod_pack(&self) -> bool;

    /// The subdirectory name files of this class are stored in.
    fn to_path(&self) -> String;
}

impl ModTypeExt for ModType {
    fn is_mod(&self) -> (r: bool)
        ensures
            r == (*self is Mod),
    {
        matches!(self, ModType::Mod)
    }

    fn is_resource_pack(&self) -> (r: bool)
        ensures
            r == (*self is ResourcePack),
    {
        matches!(self, ModType::ResourcePack)
    }

    fn is_shader_pack(&self) -> (r: bool)
        ensures
            r == (*self is ShaderPack),
    {
        matches!(self, ModType::ShaderPack)
    }

    fn is_mod_pack(&self) -> (r: bool)
        ensures
            r == (*self is ModPack),
    {
        matches!(self, ModType::ModPack)
    }

    fn to_path(&self) -> (r: String)
        ensures
            r@ == folder_of(*self),
    {
        match self {
            ModType::Mod => String::from_str("mods"),
            ModType::ResourcePack => String::from_str("resourcepacks"),
            ModType::ShaderPack => String::from_str("shaderpacks"),
            ModType::ModPack => String::from_str("modpacks"),
        }
    }
}

/// Round trip: decoding the class id of a class gives that class back.
pub proof fn class_id_round_trip(t: ModType)
    ensures
        mod_type_of(class_id_of(t)) == Some(t),
{
}

} // verus!
