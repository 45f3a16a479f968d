use unpadit::{TruncError, analyze_rsrc, parse_pe_sections, strip_junk_at_end};

const DOS_HEADER_LEN: usize = 64;
const NT_HEADERS_LEN: usize = 136;
const OPTIONAL_HEADER_LEN: usize = 112;
const SECTION_HEADER_LEN: usize = 40;

fn put_u16(img: &mut [u8], at: usize, v: u16) {
    img[at..at + 2].copy_from_slice(&v.to_le_bytes());
}

fn put_u32(img: &mut [u8], at: usize, v: u32) {
    img[at..at + 4].copy_from_slice(&v.to_le_bytes());
}

/// Builds a minimal PE32+ image of `file_len` bytes whose section table
/// declares one section per `(name, start, end)` triple, each occupying the
/// file range `start..end`.
fn build_pe64(sections: &[(&str, u32, u32)], file_len: usize) -> Vec<u8> {
    let headers_len = DOS_HEADER_LEN + NT_HEADERS_LEN + sections.len() * SECTION_HEADER_LEN;
    assert!(headers_len <= file_len);
    let mut img = vec![0u8; file_len];

    // DOS header: magic and the offset of the NT headers.
    img[0] = b'M';
    img[1] = b'Z';
    put_u32(&mut img, 0x3C, DOS_HEADER_LEN as u32);

    // NT headers: signature, file header, PE32+ optional header.
    let nt = DOS_HEADER_LEN;
    put_u32(&mut img, nt, 0x0000_4550);
    put_u16(&mut img, nt + 4, 0x8664);
    put_u16(&mut img, nt + 6, sections.len() as u16);
    put_u16(&mut img, nt + 20, OPTIONAL_HEADER_LEN as u16);
    let opt = nt + 24;
    put_u16(&mut img, opt, 0x020B);
    put_u32(&mut img, opt + 56, 0x0010_0000); // SizeOfImage
    put_u32(&mut img, opt + 60, headers_len as u32); // SizeOfHeaders
    put_u32(&mut img, opt + 108, 0); // NumberOfRvaAndSizes

    // Section headers.
    for (i, (name, start, end)) in sections.iter().enumerate() {
        let at = nt + NT_HEADERS_LEN + i * SECTION_HEADER_LEN;
        let name_bytes = name.as_bytes();
        assert!(name_bytes.len() <= 8);
        img[at..at + name_bytes.len()].copy_from_slice(name_bytes);
        put_u32(&mut img, at + 8, end - start); // VirtualSize
        put_u32(&mut img, at + 12, *start); // VirtualAddress
        put_u32(&mut img, at + 16, end - start); // SizeOfRawData
        put_u32(&mut img, at + 20, *start); // PointerToRawData
    }
    img
}

fn three_sections() -> Vec<(&'static str, u32, u32)> {
    vec![(".text", 0, 100), (".data", 100, 250), (".rsrc", 250, 400)]
}

#[test]
fn parses_the_declared_section_table() {
    let img = build_pe64(&three_sections(), 500);
    let sections = parse_pe_sections(&img).unwrap();
    assert_eq!(sections.len(), 3);
    assert_eq!(sections[0].name, ".text");
    assert_eq!((sections[0].start, sections[0].end), (0, 100));
    assert_eq!(sections[1].name, ".data");
    assert_eq!((sections[1].start, sections[1].end), (100, 250));
    assert_eq!(sections[2].name, ".rsrc");
    assert_eq!((sections[2].start, sections[2].end), (250, 400));
}

#[test]
fn strips_trailing_junk_from_a_padded_image() {
    let mut img = build_pe64(&three_sections(), 500);
    for b in img[400..].iter_mut() {
        *b = 0xAA;
    }
    let out = strip_junk_at_end(&img).unwrap();
    assert_eq!(out.len(), 401);
    assert_eq!(out, &img[..401]);
}

#[test]
fn image_of_exactly_declared_size_has_no_junk() {
    let img = build_pe64(&three_sections(), 400);
    assert_eq!(strip_junk_at_end(&img), Err(TruncError::NoJunkFound));
}

#[test]
fn image_smaller_than_declared_is_inconsistent() {
    let img = build_pe64(&three_sections(), 390);
    assert_eq!(strip_junk_at_end(&img), Err(TruncError::InconsistentSectionTable));
}

#[test]
fn image_without_sections_is_a_distinct_error() {
    let img = build_pe64(&[], 300);
    assert_eq!(strip_junk_at_end(&img), Err(TruncError::EmptySectionTable));
}

#[test]
fn garbage_is_reported_as_malformed() {
    let garbage = vec![0x00u8; 64];
    assert_eq!(strip_junk_at_end(&garbage), Err(TruncError::MalformedImage));
    assert_eq!(strip_junk_at_end(&[]), Err(TruncError::MalformedImage));
    assert!(parse_pe_sections(&garbage).is_err());
}

#[test]
fn absent_resource_directory_is_the_empty_tree_state() {
    let img = build_pe64(&three_sections(), 500);
    let report = analyze_rsrc(&img);
    assert_eq!(report.rsrc_range, Some((250, 400)));
    // The image declares no resource data directory: a valid, empty state,
    // not an error. The accountant reports a total of 0.
    assert!(report.root.expect("empty tree, not an error").is_empty());
    assert_eq!(report.total, Some(Ok(0)));
    assert_eq!(report.lines, Some(Ok(vec![])));
    assert!(report.manifest.is_none());
}

#[test]
fn analyze_of_garbage_reports_nothing() {
    let garbage = vec![0xFFu8; 32];
    let report = analyze_rsrc(&garbage);
    assert!(report.rsrc_range.is_none());
    assert!(report.root.is_none());
    assert!(report.manifest.is_none());
}

#[test]
fn analyze_without_rsrc_section_reports_no_range() {
    let img = build_pe64(&[(".text", 0, 100)], 300);
    let report = analyze_rsrc(&img);
    assert_eq!(report.rsrc_range, None);
}
