use vstd::prelude::*;

verus! {

/// The variety of image formats snapshots may be exported to.
#[derive(Clone, Copy, Debug, PartialEq, Eq, Structural, Hash)]
pub enum ImageFormat {
    /// .png format
    Png,
    /// .jpeg format
    Jpeg,
}

/// The valid types of output file formats.
#[derive(Clone, Copy, Debug, PartialEq, Eq, Structural, Hash)]
pub enum FileExportFormat {
    /// Autodesk Filmbox (FBX) format.
    Fbx,
    /// Binary glTF 2.0: a single compact binary with the .glb extension.
    Glb,
    /// Embedded glTF 2.0: a single pretty-printed JSON file whose binary
    /// data is carried as base64 data URIs.
    Gltf,
    /// The Wavefront OBJ file format, handled as if it had no attached material.
    Obj,
    /// The PLY polygon file format.
    Ply,
    /// The ISO 10303-21 (STEP) format.
    Step,
    /// The STL (stereolithography) format.
    Stl,
}

/// A file that was exported from the engine.
#[derive(Clone, Debug, PartialEq, Eq)]
pub struct ExportFile {
    /// Binary contents of the file.
    pub contents: Vec<u8>,
    /// Name of the file.
    pub name: String,
}

impl ExportFile {
    /// A copy of the file's bytes.
    pub fn contents(&self) -> (r: Vec<u8>)
        ensures
            r@ == self.contents@,
    {
        self.contents.clone()
    }

    /// A copy of the file's name.
    pub fn name(&self) -> (r: String)
        ensures
            r@ == self.name@,
    {
        self.name.clone()
    }
}

} // verus!
