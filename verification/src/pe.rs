use vstd::prelude::*;

use dataview::PodMethods;

use crate::error::{RsrcError, TruncError};
use crate::rsrc::{
    MAX_RESOURCE_DEPTH, ResourceNode, render_tree, resource_total, spec_forest_fits,
    spec_forest_total, spec_render_forest,
};
use crate::sections::{
    Section, SectionModel, find_rsrc_section, section_models, spec_find_named, spec_truncate,
    truncate_sections,
};
use crate::text::lines_model;

verus! {

#[verifier::external_type_specification]
#[verifier::external_body]
pub struct ExPeliteError(pelite::Error);

#[verifier::external_type_specification]
#[verifier::external_body]
pub struct ExDirectory<'a>(pelite::resources::Directory<'a>);

/// Whether the buffer parses as a PE32+ image: a function of the bytes alone.
///
/// pelite's parser also refuses a buffer whose address is not 4-aligned, so
/// each wrapper below first copies the bytes into `u32` storage, which is
/// aligned by construction; with the address fixed, the outcome depends on
/// the bytes alone.
pub uninterp spec fn pe64_parse_ok(image: Seq<u8>) -> bool;

/// The section records a PE32+ image declares: a function of the bytes alone.
pub uninterp spec fn pe64_sections(image: Seq<u8>) -> Seq<SectionModel>;

/// Whether reading the resource tree of a PE32+ image succeeds, under the
/// given traversal budget: a function of the bytes and the budget alone.
pub uninterp spec fn pe64_resources_ok(image: Seq<u8>, max_depth: u32) -> bool;

/// The resource tree a PE32+ image carries, read under the given traversal
/// budget, or `None` when the image declares no resource directory: a
/// function of the bytes and the budget alone.
pub uninterp spec fn pe64_resource_root(image: Seq<u8>, max_depth: u32) -> Option<Seq<ResourceNode>>;

/// The manifest resource's text, when the image carries one whose data
/// parses as UTF-8: a function of the bytes alone.
pub uninterp spec fn pe64_manifest(image: Seq<u8>) -> Option<Seq<char>>;

/// Relies on pelite::pe64::PeFile::from_bytes and Pe::section_headers:
/// whether a buffer parses as a PE32+ image, and which section records its
/// header declares, depend on the bytes alone once the parser's address-
/// alignment gate is satisfied; dataview::PodMethods::as_bytes/as_bytes_mut
/// view the 4-aligned `u32` copy as bytes at the same address. Each record
/// is converted to a plain [`Section`]: SectionHeader::name_bytes gives the
/// declared name and SectionHeader::file_range the file range
/// PointerToRawData .. PointerToRawData + SizeOfRawData (wrapping).
#[verifier::external_body]
fn parse_sections(image: &[u8]) -> (r: Result<Vec<Section>, pelite::Error>)
    ensures
        r is Ok <==> pe64_parse_ok(image@),
        r matches Ok(v) ==> section_models(v@) == pe64_sections(image@),
{
    let mut words = vec![0u32; (image.len() + 3) / 4];
    words[..].as_bytes_mut()[..image.len()].copy_from_slice(image);
    let file = pelite::pe64::PeFile::from_bytes(&words[..].as_bytes()[..image.len()])?;
    let mut out = Vec::new();
    for h in pelite::pe64::Pe::section_headers(file).iter() {
        let range = h.file_range();
        let name = String::from_utf8_lossy(h.name_bytes()).into_owned();
        out.push(Section { name, start: range.start, end: range.end });
    }
    Ok(out)
}

/// Relies on pelite::pe64::PeFile::from_bytes, Pe::data_directory,
/// Pe::resources and Resources::root, on a 4-aligned copy of the bytes as in
/// [`parse_sections`]. An image whose data directory has no resource entry,
/// or whose resource entry holds address zero, declares no resource
/// directory: that is the valid empty state, `Ok(None)` (the same absence
/// pelite itself classifies as its null-address error). A declared directory
/// is converted node by node through [`convert_entries`].
#[verifier::external_body]
fn parse_resource_root(image: &[u8], max_depth: u32) -> (r: Result<
    Option<Vec<ResourceNode>>,
    pelite::Error,
>)
    ensures
        r is Ok <==> pe64_resources_ok(image@, max_depth),
        r matches Ok(v) ==> (match v {
            Some(nodes) => pe64_resource_root(image@, max_depth) == Some(nodes@),
            None => pe64_resource_root(image@, max_depth) is None,
        }),
{
    let mut words = vec![0u32; (image.len() + 3) / 4];
    words[..].as_bytes_mut()[..image.len()].copy_from_slice(image);
    let file = pelite::pe64::PeFile::from_bytes(&words[..].as_bytes()[..image.len()])?;
    let datadir = pelite::pe64::Pe::data_directory(file).get(pelite::image::IMAGE_DIRECTORY_ENTRY_RESOURCE);
    if datadir.map_or(true, |d| d.VirtualAddress == 0) {
        return Ok(None);
    }
    let root = pelite::pe64::Pe::resources(file)?.root()?;
    convert_entries(root, max_depth).map(Some)
}

/// Relies on Directory::entries, DirectoryEntry::name, DirectoryEntry::entry
/// and DataEntry::size, converting each pelite entry to a [`ResourceNode`]
/// variant by variant. `depth_left` bounds the recursion: directory offsets
/// in a corrupt image may form cycles, on which pelite's tree would never
/// end. The cut itself is trusted, not verified; the verified traversal
/// enforces the same limit again on the converted tree.
#[verifier::external_body]
fn convert_entries(
    dir: pelite::resources::Directory<'_>,
    depth_left: u32,
) -> (r: Result<Vec<ResourceNode>, pelite::Error>) {
    let mut out = Vec::new();
    for e in dir.entries() {
        let name = format!("{}", e.name()?);
        match e.entry()? {
            pelite::resources::Entry::Directory(_) if depth_left == 0 => return Err(pelite::Error::Insanity),
            pelite::resources::Entry::Directory(d) => out.push(ResourceNode::Directory { name, children: convert_entries(d, depth_left - 1)? }),
            pelite::resources::Entry::DataEntry(d) => out.push(ResourceNode::Data { name, size: d.size() as u64 }),
        }
    }
    Ok(out)
}

/// Relies on Resources::manifest, on a 4-aligned copy of the bytes as in
/// [`parse_sections`]: the manifest resource's text, when the image carries
/// one whose data parses as UTF-8, depends on the bytes alone.
#[verifier::external_body]
fn parse_manifest(image: &[u8]) -> (r: Option<String>)
    ensures
        (match r {
            Some(s) => pe64_manifest(image@) == Some(s@),
            None => pe64_manifest(image@) is None,
        }),
{
    let mut words = vec![0u32; (image.len() + 3) / 4];
    words[..].as_bytes_mut()[..image.len()].copy_from_slice(image);
    let file = pelite::pe64::PeFile::from_bytes(&words[..].as_bytes()[..image.len()]).ok()?;
    let manifest = pelite::pe64::Pe::resources(file).ok()?.manifest().ok()?;
    Some(manifest.to_string())
}

/// Parses the section table of a PE32+ image into plain section records.
///
/// This is the parsing step of the truncator, exposed on its own so that a
/// caller can inspect or report the records before truncating.
pub fn parse_pe_sections(image: &[u8]) -> (r: Result<Vec<Section>, TruncError>)
    ensures
        r is Ok <==> pe64_parse_ok(image@),
        r matches Ok(v) ==> section_models(v@) == pe64_sections(image@),
        r matches Err(e) ==> e == TruncError::MalformedImage,
{
    match parse_sections(image) {
        Ok(v) => Ok(v),
        Err(_) => Err(TruncError::MalformedImage),
    }
}

/// Computes the true end of a PE32+ image from its section table and returns
/// the prefix of the buffer that belongs to the image, stripping any junk
/// bytes appended past the largest declared section end offset.
///
/// Fails with [`TruncError::MalformedImage`] on a buffer that does not parse,
/// [`TruncError::EmptySectionTable`] on an image with no sections,
/// [`TruncError::NoJunkFound`] when the real size equals the declared end,
/// and [`TruncError::InconsistentSectionTable`] when the file is smaller than
/// its section table declares.
pub fn strip_junk_at_end<'a>(image: &'a [u8]) -> (r: Result<&'a [u8], TruncError>)
    ensures
        !pe64_parse_ok(image@) ==> r == Err::<&[u8], TruncError>(TruncError::MalformedImage),
        pe64_parse_ok(image@) ==> (match r {
            Ok(out) => spec_truncate(image@, pe64_sections(image@)) == Ok::<
                Seq<u8>,
                TruncError,
            >(out@),
            Err(e) => spec_truncate(image@, pe64_sections(image@)) == Err::<Seq<u8>, TruncError>(e),
        }),
{
    match parse_sections(image) {
        Err(_) => Err(TruncError::MalformedImage),
        Ok(sections) => truncate_sections(image, &sections),
    }
}

/// Everything the resource accountant reports about one image.
pub struct RsrcReport {
    /// The embedded manifest resource's text, when the image carries one.
    pub manifest: Option<String>,
    /// The root entries of the resource-directory tree: empty when the image
    /// declares no resource directory (the valid empty state), absent only
    /// when the image or its tree cannot be read.
    pub root: Option<Vec<ResourceNode>>,
    /// The accountant's total of declared data-entry sizes over `root`.
    pub total: Option<Result<u64, RsrcError>>,
    /// The indented rendering of the tree under `root`.
    pub lines: Option<Result<Vec<String>, RsrcError>>,
    /// The file range declared by the section named `.rsrc`, as a cross-check
    /// against the summed total; absent when no such section exists.
    pub rsrc_range: Option<(u32, u32)>,
}

/// The forest a read resource tree yields: the root entries when a directory
/// is declared, and the empty forest when the image declares none.
pub open spec fn spec_read_forest(root: Option<Seq<ResourceNode>>) -> Seq<ResourceNode> {
    match root {
        Some(nodes) => nodes,
        None => Seq::empty(),
    }
}

/// Walks the image's resource-directory tree and accounts for the declared
/// size of every data entry, rendering the tree for inspection and reporting
/// the `.rsrc` section's declared range alongside as a cross-check.
///
/// Resource analysis is diagnostic: an image that declares no resource
/// directory is the valid empty state and totals 0, and an image whose tree
/// cannot be read yields an empty report rather than an error.
pub fn analyze_rsrc(image: &[u8]) -> (r: RsrcReport)
    ensures
        (r.root is Some) == pe64_resources_ok(image@, MAX_RESOURCE_DEPTH),
        r.root matches Some(nodes) ==> {
            &&& nodes@ == spec_read_forest(pe64_resource_root(image@, MAX_RESOURCE_DEPTH))
            &&& r.total matches Some(t) && ((t matches Ok(v) <==> spec_forest_fits(nodes@, 0)
                && spec_forest_total(nodes@) <= u64::MAX) && (t matches Ok(v) ==> v as int
                == spec_forest_total(nodes@)))
            &&& r.lines matches Some(l) && ((l matches Ok(lines) <==> spec_forest_fits(nodes@, 0))
                && (l matches Ok(lines) ==> lines_model(lines@) == spec_render_forest(nodes@, 0)))
        },
        r.root is None ==> r.total is None && r.lines is None,
        (match r.manifest {
            Some(s) => pe64_manifest(image@) == Some(s@),
            None => pe64_manifest(image@) is None,
        }),
        pe64_parse_ok(image@) ==> (match spec_find_named(pe64_sections(image@), ".rsrc"@) {
            Some(m) => r.rsrc_range matches Some(p) && p.0 as int == m.start && p.1 as int
                == m.end,
            None => r.rsrc_range is None,
        }),
        !pe64_parse_ok(image@) ==> r.rsrc_range is None,
{
    let manifest = parse_manifest(image);
    let rsrc_range = match parse_sections(image) {
        Ok(sections) => find_rsrc_section(&sections),
        Err(_) => None,
    };
    match parse_resource_root(image, MAX_RESOURCE_DEPTH) {
        Ok(root) => {
            let nodes = match root {
                Some(nodes) => nodes,
                None => Vec::new(),
            };
            let total = resource_total(&nodes);
            let lines = render_tree(&nodes);
            RsrcReport {
                manifest,
                root: Some(nodes),
                total: Some(total),
                lines: Some(lines),
                rsrc_range,
            }
        },
        Err(_) => RsrcReport { manifest, root: None, total: None, lines: None, rsrc_range },
    }
}

} // verus!
