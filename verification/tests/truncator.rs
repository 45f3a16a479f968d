use unpadit::{
    RsrcError, Section, TruncError, find_rsrc_section, get_tab_str_from_level, max_section_end,
    section_report, truncate_sections, u64_to_string,
};

fn sec(name: &str, start: u32, end: u32) -> Section {
    Section { name: name.to_string(), start, end }
}

fn three_sections() -> Vec<Section> {
    vec![sec(".text", 0, 100), sec(".data", 100, 250), sec(".rsrc", 250, 400)]
}

fn image_of_len(n: usize) -> Vec<u8> {
    (0..n).map(|i| (i % 251) as u8).collect()
}

#[test]
fn scenario_a_truncates_to_max_end_plus_one() {
    let image = image_of_len(500);
    let sections = three_sections();
    let out = truncate_sections(&image, &sections).unwrap();
    assert_eq!(out.len(), 401);
    assert_eq!(out, &image[..401]);
}

#[test]
fn scenario_b_no_junk_found() {
    let image = image_of_len(400);
    let sections = three_sections();
    assert_eq!(truncate_sections(&image, &sections), Err(TruncError::NoJunkFound));
}

#[test]
fn scenario_c_inconsistent_section_table() {
    let image = image_of_len(390);
    let sections = three_sections();
    assert_eq!(truncate_sections(&image, &sections), Err(TruncError::InconsistentSectionTable));
}

#[test]
fn empty_section_table_is_an_error() {
    let image = image_of_len(500);
    let sections: Vec<Section> = vec![];
    assert_eq!(truncate_sections(&image, &sections), Err(TruncError::EmptySectionTable));
}

#[test]
fn empty_image_with_sections_is_inconsistent() {
    let image: Vec<u8> = vec![];
    let sections = three_sections();
    assert_eq!(truncate_sections(&image, &sections), Err(TruncError::InconsistentSectionTable));
}

#[test]
fn max_end_is_order_independent() {
    let image = image_of_len(500);
    let permuted = vec![sec(".rsrc", 250, 400), sec(".text", 0, 100), sec(".data", 100, 250)];
    assert_eq!(max_section_end(&three_sections()), 400);
    assert_eq!(max_section_end(&permuted), 400);
    let a = truncate_sections(&image, &three_sections()).unwrap();
    let b = truncate_sections(&image, &permuted).unwrap();
    assert_eq!(a, b);
}

#[test]
fn max_end_of_empty_table_is_zero() {
    assert_eq!(max_section_end(&vec![]), 0);
}

#[test]
fn single_byte_of_junk_is_stripped() {
    let image = image_of_len(401);
    let sections = three_sections();
    let out = truncate_sections(&image, &sections).unwrap();
    assert_eq!(out.len(), 401);
}

#[test]
fn finds_rsrc_section_range() {
    assert_eq!(find_rsrc_section(&three_sections()), Some((250, 400)));
    assert_eq!(find_rsrc_section(&vec![sec(".text", 0, 100)]), None);
    assert_eq!(find_rsrc_section(&vec![]), None);
    let twice = vec![sec(".rsrc", 1, 2), sec(".rsrc", 3, 4)];
    assert_eq!(find_rsrc_section(&twice), Some((1, 2)));
}

#[test]
fn section_report_names_each_end_offset() {
    let lines = section_report(&three_sections());
    assert_eq!(
        lines,
        vec![
            ".text ends at 100".to_string(),
            ".data ends at 250".to_string(),
            ".rsrc ends at 400".to_string(),
        ]
    );
    assert_eq!(section_report(&vec![]), Vec::<String>::new());
}

#[test]
fn tab_string_is_two_spaces_per_level() {
    assert_eq!(get_tab_str_from_level(0), "");
    assert_eq!(get_tab_str_from_level(1), "  ");
    assert_eq!(get_tab_str_from_level(3), "      ");
    assert_eq!(get_tab_str_from_level(-2), "");
}

#[test]
fn error_descriptions_are_fixed() {
    assert_eq!(TruncError::MalformedImage.describe(), "input is not a recognizable PE image");
    assert_eq!(TruncError::EmptySectionTable.describe(), "image declares no sections");
    assert_eq!(TruncError::NoJunkFound.describe(), "no trailing junk data found");
    assert_eq!(
        TruncError::InconsistentSectionTable.describe(),
        "calculated end of file is greater than the real file size"
    );
    assert_eq!(
        RsrcError::DepthLimitExceeded.describe(),
        "resource tree nests deeper than the traversal limit"
    );
    assert_eq!(
        RsrcError::SizeOverflow.describe(),
        "declared resource sizes overflow a 64-bit total"
    );
}

#[test]
fn u64_renders_in_decimal() {
    assert_eq!(u64_to_string(0), "0");
    assert_eq!(u64_to_string(7), "7");
    assert_eq!(u64_to_string(10), "10");
    assert_eq!(u64_to_string(1024), "1024");
    assert_eq!(u64_to_string(u64::MAX), "18446744073709551615");
}
