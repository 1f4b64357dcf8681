use novel_epub::naming::chapter_resource_name;
use novel_epub::naming::novel_file_stem;
use novel_epub::numeral::u64_to_decimal;

#[test]
fn decimal_of_small_numbers() {
    assert_eq!(u64_to_decimal(0), "0");
    assert_eq!(u64_to_decimal(7), "7");
    assert_eq!(u64_to_decimal(10), "10");
    assert_eq!(u64_to_decimal(123), "123");
    assert_eq!(u64_to_decimal(1000), "1000");
}

#[test]
fn decimal_of_largest_number() {
    assert_eq!(u64_to_decimal(u64::MAX), "18446744073709551615");
}

#[test]
fn resource_names_follow_sequence_index() {
    assert_eq!(chapter_resource_name(0), "0.html");
    assert_eq!(chapter_resource_name(1), "1.html");
    assert_eq!(chapter_resource_name(12), "12.html");
}

#[test]
fn output_file_stems_are_numbered() {
    assert_eq!(novel_file_stem(0), "Novel0");
    assert_eq!(novel_file_stem(3), "Novel3");
    assert_eq!(novel_file_stem(42), "Novel42");
}
