use vstd::prelude::*;

verus! {

/// The closed set of extraction modes.  Exactly one is active per invocation.
#[derive(Debug, Clone, Copy, PartialEq, Eq, Structural)]
pub enum ExtractionMode {
    /// Analyze and print the file's metadata record.
    Metadata,
    /// Analyze and print the file-structure record.
    FileStructure,
    /// Print the checksum of the raw pixel data as one hex line.
    RawChecksum,
    /// Dump the raw sensor pixels as a 16-bit bitmap.
    RawPixels,
    /// Dump the embedded preview as an 8-bit 3-channel bitmap.
    PreviewPixels,
    /// Dump the embedded thumbnail as an 8-bit 3-channel bitmap.
    ThumbnailPixels,
    /// Dump the full-size rendered pixels as an 8-bit 3-channel bitmap.
    FullPixels,
    /// Dump the color-managed render as a 16-bit 3-channel bitmap.
    RenderedSrgb,
}

/// The two recognized styles for structured records: machine-friendly
/// pretty-printed JSON, or a human-friendly YAML block document.
#[derive(Debug, Clone, Copy, PartialEq, Eq, Structural)]
pub enum OutputStyle {
    Json,
    Yaml,
}

/// First-match selection over the mutually exclusive mode flags, in the fixed
/// order of the command line surface.
pub open spec fn spec_select_mode(
    meta: bool,
    structure: bool,
    raw_checksum: bool,
    raw_pixel: bool,
    preview_pixel: bool,
    thumbnail_pixel: bool,
    full_pixel: bool,
    srgb: bool,
) -> Option<ExtractionMode> {
    if meta {
        Some(ExtractionMode::Metadata)
    } else if structure {
        Some(ExtractionMode::FileStructure)
    } else if raw_checksum {
        Some(ExtractionMode::RawChecksum)
    } else if raw_pixel {
        Some(ExtractionMode::RawPixels)
    } else if preview_pixel {
        Some(ExtractionMode::PreviewPixels)
    } else if thumbnail_pixel {
        Some(ExtractionMode::ThumbnailPixels)
    } else if full_pixel {
        Some(ExtractionMode::FullPixels)
    } else if srgb {
        Some(ExtractionMode::RenderedSrgb)
    } else {
        None
    }
}

/// How many of the mode flags are set.
pub open spec fn flag_count(
    meta: bool,
    structure: bool,
    raw_checksum: bool,
    raw_pixel: bool,
    preview_pixel: bool,
    thumbnail_pixel: bool,
    full_pixel: bool,
    srgb: bool,
) -> int {
    (if meta { 1int } else { 0 }) + (if structure { 1int } else { 0 })
        + (if raw_checksum { 1int } else { 0 }) + (if raw_pixel { 1int } else { 0 })
        + (if preview_pixel { 1int } else { 0 }) + (if thumbnail_pixel { 1int } else { 0 })
        + (if full_pixel { 1int } else { 0 }) + (if srgb { 1int } else { 0 })
}

/// Turn the mode flags into the single active extraction mode, first match
/// winning; `None` when no flag is set.
pub fn select_mode(
    meta: bool,
    structure: bool,
    raw_checksum: bool,
    raw_pixel: bool,
    preview_pixel: bool,
    thumbnail_pixel: bool,
    full_pixel: bool,
    srgb: bool,
) -> (r: Option<ExtractionMode>)
    ensures
        r == spec_select_mode(
            meta,
            structure,
            raw_checksum,
            raw_pixel,
            preview_pixel,
            thumbnail_pixel,
            full_pixel,
            srgb,
        ),
{
    if meta {
        Some(ExtractionMode::Metadata)
    } else if structure {
        Some(ExtractionMode::FileStructure)
    } else if raw_checksum {
        Some(ExtractionMode::RawChecksum)
    } else if raw_pixel {
        Some(ExtractionMode::RawPixels)
    } else if preview_pixel {
        Some(ExtractionMode::PreviewPixels)
    } else if thumbnail_pixel {
        Some(ExtractionMode::ThumbnailPixels)
    } else if full_pixel {
        Some(ExtractionMode::FullPixels)
    } else if srgb {
        Some(ExtractionMode::RenderedSrgb)
    } else {
        None
    }
}

/// Law: the mode flags are mutually exclusive.  When exactly one flag is set,
/// selection yields precisely the mode belonging to that flag; no other flag
/// influences the outcome.
pub proof fn lemma_mode_selection_exclusive(
    meta: bool,
    structure: bool,
    raw_checksum: bool,
    raw_pixel: bool,
    preview_pixel: bool,
    thumbnail_pixel: bool,
    full_pixel: bool,
    srgb: bool,
)
    requires
        flag_count(
            meta,
            structure,
            raw_checksum,
            raw_pixel,
            preview_pixel,
            thumbnail_pixel,
            full_pixel,
            srgb,
        ) == 1,
    ensures
        ({
            let r = spec_select_mode(
                meta,
                structure,
                raw_checksum,
                raw_pixel,
                preview_pixel,
                thumbnail_pixel,
                full_pixel,
                srgb,
            );
            &&& meta <==> r == Some(ExtractionMode::Metadata)
            &&& structure <==> r == Some(ExtractionMode::FileStructure)
            &&& raw_checksum <==> r == Some(ExtractionMode::RawChecksum)
            &&& raw_pixel <==> r == Some(ExtractionMode::RawPixels)
            &&& preview_pixel <==> r == Some(ExtractionMode::PreviewPixels)
            &&& thumbnail_pixel <==> r == Some(ExtractionMode::ThumbnailPixels)
            &&& full_pixel <==> r == Some(ExtractionMode::FullPixels)
            &&& srgb <==> r == Some(ExtractionMode::RenderedSrgb)
        }),
{
}

} // verus!
