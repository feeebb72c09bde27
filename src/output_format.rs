use vstd::prelude::*;

use crate::formats::FileExportFormat;
use kittycad_modeling_cmds::units::UnitLength;

verus! {

/// The engine's length unit, `kittycad_modeling_cmds::units::UnitLength`,
/// declared opaque. Nothing is assumed of it: this library never looks inside
/// a unit, it only moves it, unchanged, into the descriptors and actions it
/// builds.
#[verifier::external_type_specification]
#[verifier::external_body]
pub struct ExUnitLength(kittycad_modeling_cmds::units::UnitLength);

/// An axis that a coordinate convention can point forward or up along.
#[derive(Clone, Copy, Debug, PartialEq, Eq, Structural, Hash)]
pub enum Axis {
    Y,
    Z,
}

/// Which way along an axis.
#[derive(Clone, Copy, Debug, PartialEq, Eq, Structural, Hash)]
pub enum Direction {
    Positive,
    Negative,
}

/// An axis together with a direction along it.
#[derive(Clone, Copy, Debug, PartialEq, Eq, Structural, Hash)]
pub struct AxisDirection {
    pub axis: Axis,
    pub direction: Direction,
}

/// Handedness of a coordinate system.
#[derive(Clone, Copy, Debug, PartialEq, Eq, Structural, Hash)]
pub enum Handedness {
    Right,
    Left,
}

/// A coordinate system: where forward and up point, and its handedness.
#[derive(Clone, Copy, Debug, PartialEq, Eq, Structural, Hash)]
pub struct CoordinateSystem {
    pub forward: AxisDirection,
    pub up: AxisDirection,
    pub handedness: Handedness,
}

/// How an exported file stores its data.
#[derive(Clone, Copy, Debug, PartialEq, Eq, Structural, Hash)]
pub enum Storage {
    /// A compact binary encoding.
    Binary,
    /// Pretty-printed text with binary data embedded as base64.
    EmbeddedPretty,
    /// Plain text.
    Text,
    /// ASCII encoding of a format that also has binary encodings.
    Ascii,
    /// The format has no storage choice.
    Unspecified,
}

/// Which scene entities an export applies to.
#[derive(Clone, Copy, Debug, PartialEq, Eq, Structural, Hash)]
pub enum Selection {
    /// The entire default scene.
    DefaultScene,
}

/// One row of the export policy table.
#[derive(Clone, Copy, Debug, PartialEq, Eq, Structural, Hash)]
pub struct FormatPolicy {
    pub storage: Storage,
    /// Whether the exported file records the length unit.
    pub carries_unit: bool,
    /// Whether the export names a selection of the scene.
    pub carries_selection: bool,
}

/// The fully specified parameters of one export.
#[derive(Clone, Copy, Debug, PartialEq, Eq)]
pub struct OutputFormatDescriptor {
    pub format: FileExportFormat,
    pub storage: Storage,
    pub coords: CoordinateSystem,
    pub units: Option<UnitLength>,
    pub selection: Option<Selection>,
}

/// The engine's coordinate convention: forward is -Y, up is +Z, right-handed.
pub open spec fn engine_coords() -> CoordinateSystem {
    CoordinateSystem {
        forward: AxisDirection { axis: Axis::Y, direction: Direction::Negative },
        up: AxisDirection { axis: Axis::Z, direction: Direction::Positive },
        handedness: Handedness::Right,
    }
}

/// The export policy table, one row per format.
pub open spec fn policy_of(format: FileExportFormat) -> FormatPolicy {
    match format {
        FileExportFormat::Fbx => FormatPolicy {
            storage: Storage::Binary,
            carries_unit: false,
            carries_selection: false,
        },
        FileExportFormat::Glb => FormatPolicy {
            storage: Storage::Binary,
            carries_unit: false,
            carries_selection: false,
        },
        FileExportFormat::Gltf => FormatPolicy {
            storage: Storage::EmbeddedPretty,
            carries_unit: false,
            carries_selection: false,
        },
        FileExportFormat::Obj => FormatPolicy {
            storage: Storage::Text,
            carries_unit: true,
            carries_selection: false,
        },
        FileExportFormat::Ply => FormatPolicy {
            storage: Storage::Ascii,
            carries_unit: true,
            carries_selection: true,
        },
        FileExportFormat::Step => FormatPolicy {
            storage: Storage::Unspecified,
            carries_unit: false,
            carries_selection: false,
        },
        FileExportFormat::Stl => FormatPolicy {
            storage: Storage::Ascii,
            carries_unit: true,
            carries_selection: true,
        },
    }
}

/// The descriptor of an export of `format` from a model in `unit`: the
/// format's row of the policy table, in the engine's coordinates.
pub open spec fn descriptor_of(format: FileExportFormat, unit: UnitLength) -> OutputFormatDescriptor {
    let policy = policy_of(format);
    OutputFormatDescriptor {
        format,
        storage: policy.storage,
        coords: engine_coords(),
        units: if policy.carries_unit {
            Some(unit)
        } else {
            None
        },
        selection: if policy.carries_selection {
            Some(Selection::DefaultScene)
        } else {
            None
        },
    }
}

/// The engine's coordinate convention.
pub fn engine_coordinate_system() -> (r: CoordinateSystem)
    ensures
        r == engine_coords(),
{
    CoordinateSystem {
        forward: AxisDirection { axis: Axis::Y, direction: Direction::Negative },
        up: AxisDirection { axis: Axis::Z, direction: Direction::Positive },
        handedness: Handedness::Right,
    }
}

/// Looks up the row of the export policy table for `format`.
pub fn format_policy(format: FileExportFormat) -> (r: FormatPolicy)
    ensures
        r == policy_of(format),
{
    match format {
        FileExportFormat::Fbx => FormatPolicy {
            storage: Storage::Binary,
            carries_unit: false,
            carries_selection: false,
        },
        FileExportFormat::Glb => FormatPolicy {
            storage: Storage::Binary,
            carries_unit: false,
            carries_selection: false,
        },
        FileExportFormat::Gltf => FormatPolicy {
            storage: Storage::EmbeddedPretty,
            carries_unit: false,
            carries_selection: false,
        },
        FileExportFormat::Obj => FormatPolicy {
            storage: Storage::Text,
            carries_unit: true,
            carries_selection: false,
        },
        FileExportFormat::Ply => FormatPolicy {
            storage: Storage::Ascii,
            carries_unit: true,
            carries_selection: true,
        },
        FileExportFormat::Step => FormatPolicy {
            storage: Storage::Unspecified,
            carries_unit: false,
            carries_selection: false,
        },
        FileExportFormat::Stl => FormatPolicy {
            storage: Storage::Ascii,
            carries_unit: true,
            carries_selection: true,
        },
    }
}

/// Resolves the fully specified output parameters for exporting a model
/// whose lengths are in `src_unit` to `format`.
pub fn get_output_format(format: &FileExportFormat, src_unit: UnitLength) -> (r: OutputFormatDescriptor)
    ensures
        r == descriptor_of(*format, src_unit),
{
    let policy = format_policy(*format);
    let units = if policy.carries_unit {
        Some(src_unit)
    } else {
        None
    };
    let selection = if policy.carries_selection {
        Some(Selection::DefaultScene)
    } else {
        None
    };
    OutputFormatDescriptor {
        format: *format,
        storage: policy.storage,
        coords: engine_coordinate_system(),
        units,
        selection,
    }
}

/// Resolution is a function of its inputs: two descriptors resolved from the
/// same format and unit are equal, and every descriptor is in the engine's
/// coordinates (forward -Y, up +Z, right-handed).
pub proof fn lemma_resolution_deterministic(
    format: FileExportFormat,
    unit: UnitLength,
    first: OutputFormatDescriptor,
    second: OutputFormatDescriptor,
)
    requires
        first == descriptor_of(format, unit),
        second == descriptor_of(format, unit),
    ensures
        first == second,
        first.format == format,
        first.coords.forward == (AxisDirection { axis: Axis::Y, direction: Direction::Negative }),
        first.coords.up == (AxisDirection { axis: Axis::Z, direction: Direction::Positive }),
        first.coords.handedness == Handedness::Right,
{
}

/// Whether a format records the length unit in the exported file: OBJ, PLY
/// and STL do; the others do not.
pub open spec fn records_unit(format: FileExportFormat) -> bool {
    format == FileExportFormat::Obj || format == FileExportFormat::Ply || format
        == FileExportFormat::Stl
}

/// A format that records the unit gets the input unit unchanged; any other
/// format gets no unit, whatever the input unit.
pub proof fn lemma_unit_carried_iff_recorded(format: FileExportFormat, unit: UnitLength)
    ensures
        records_unit(format) ==> descriptor_of(format, unit).units == Some(unit),
        !records_unit(format) ==> descriptor_of(format, unit).units is None,
{
}

/// Only PLY and STL name a selection, and that selection is the default scene.
pub proof fn lemma_selection_default_scene(format: FileExportFormat, unit: UnitLength)
    ensures
        (format == FileExportFormat::Ply || format == FileExportFormat::Stl) ==> descriptor_of(
            format,
            unit,
        ).selection == Some(Selection::DefaultScene),
        !(format == FileExportFormat::Ply || format == FileExportFormat::Stl) ==> descriptor_of(
            format,
            unit,
        ).selection is None,
{
}

} // verus!
