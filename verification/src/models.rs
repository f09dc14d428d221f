//! The data model: unified mod metadata, launcher profiles, and the typed
//! shapes of the two manifest dialects.

use vstd::prelude::*;

verus! {

/// The mod loader a profile targets.
#[derive(Debug, Clone)]
pub enum ModLoader {
    Fabric,
    Forge,
    NeoForge,
    Vanilla,
}

/// A game profile as the application presents it.
#[derive(Debug, Clone)]
pub struct Profile {
    pub id: String,
    pub name: String,
    pub version: String,
    pub loader_type: ModLoader,
    pub loader_version: String,
    pub icon: Option<String>,
    pub last_played: Option<String>,
}

/// A profile read from the launcher's configuration, with its resolved
/// mods-directory path.
#[derive(Debug, Clone)]
pub struct LauncherProfile {
    pub id: String,
    pub name: String,
    pub mods_dir: String,
}

/// Mathematical model of a launcher profile.
pub struct LauncherProfileV {
    pub id: Seq<char>,
    pub name: Seq<char>,
    pub mods_dir: Seq<char>,
}

impl View for LauncherProfile {
    type V = LauncherProfileV;

    open spec fn view(&self) -> LauncherProfileV {
        LauncherProfileV { id: self.id@, name: self.name@, mods_dir: self.mods_dir@ }
    }
}

/// The unified metadata record produced for one mod archive.
#[derive(Debug, Clone)]
pub struct ModMetadata {
    pub file_name: String,
    pub file_path: String,
    pub name: String,
    pub id: String,
    pub version: String,
    pub description: String,
    pub authors: Vec<String>,
    pub enabled: bool,
}

/// Mathematical model of a metadata record.
pub struct ModMetadataV {
    pub file_name: Seq<char>,
    pub file_path: Seq<char>,
    pub name: Seq<char>,
    pub id: Seq<char>,
    pub version: Seq<char>,
    pub description: Seq<char>,
    pub authors: Seq<Seq<char>>,
    pub enabled: bool,
}

impl View for ModMetadata {
    type V = ModMetadataV;

    open spec fn view(&self) -> ModMetadataV {
        ModMetadataV {
            file_name: self.file_name@,
            file_path: self.file_path@,
            name: self.name@,
            id: self.id@,
            version: self.version@,
            description: self.description@,
            authors: self.authors@.map_values(|a: String| a@),
            enabled: self.enabled,
        }
    }
}

/// One directory entry handed to the scanner: the archive's base name, its
/// full path, and its bytes.
pub struct ModFile {
    pub file_name: String,
    pub file_path: String,
    pub data: Vec<u8>,
}

/// Mathematical model of a scanner input entry.
pub struct ModFileV {
    pub file_name: Seq<char>,
    pub file_path: Seq<char>,
    pub data: Seq<u8>,
}

impl View for ModFile {
    type V = ModFileV;

    open spec fn view(&self) -> ModFileV {
        ModFileV { file_name: self.file_name@, file_path: self.file_path@, data: self.data@ }
    }
}

/// The typed shape of a Fabric-style JSON descriptor.
pub struct FabricModJson {
    pub id: String,
    pub name: Option<String>,
    pub version: String,
    pub description: Option<String>,
    pub authors: Option<Vec<String>>,
}

/// The typed shape of a table-based descriptor: a `mods` array of entries.
pub struct ForgeModsToml {
    pub mods: Vec<ForgeModInfo>,
}

/// One entry of a table-based descriptor's `mods` array.
#[allow(non_snake_case)]
pub struct ForgeModInfo {
    pub modId: String,
    pub displayName: Option<String>,
    pub version: String,
    pub description: Option<String>,
    pub authors: Option<String>,
}

/// The views of a sequence of viewable values, in order.
pub open spec fn views_of<T: View>(s: Seq<T>) -> Seq<T::V> {
    s.map_values(|x: T| x@)
}

} // verus!
