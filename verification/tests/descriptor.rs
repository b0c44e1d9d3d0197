use ai_file_organize::descriptor::{
    analyze_file, append_size, describe_file, render_tree, size_metric, DescribeError,
    EntryFacts, FileMeta, Stamp, TreeItem,
};
use ai_file_organize::text::{append_decimal, append_digit, append_spaces, chars_of};

fn item(depth: usize, name: &str) -> TreeItem {
    TreeItem { depth, name: name.to_string() }
}

fn size_text(hundredths: u64) -> String {
    let mut out = String::new();
    append_size(&mut out, hundredths);
    out
}

fn utc(secs: i64) -> Stamp {
    Stamp { secs, offset: 0 }
}

#[test]
fn size_metric_rounds_to_the_nearest_unit_of_1024() {
    assert_eq!(size_metric(204800), 200);
    assert_eq!(size_metric(0), 0);
    assert_eq!(size_metric(511), 0);
    assert_eq!(size_metric(512), 1);
    assert_eq!(size_metric(1024), 1);
    assert_eq!(size_metric(1535), 1);
    assert_eq!(size_metric(1536), 2);
    assert_eq!(size_metric(u64::MAX), 18014398509481984);
}

#[test]
fn size_of_204800_bytes_reads_2() {
    assert_eq!(size_text(size_metric(204800)), "2");
    assert_eq!(
        describe_file("a.mkv", 204800, "2024-01-02 03:04:05", "2024-01-02 03:04:06"),
        "文件名: a.mkv, 文件大小: 2 KB, 文件创建日期: 2024-01-02 03:04:05, 文件修改日期: 2024-01-02 03:04:06"
    );
}

#[test]
fn size_text_has_no_more_decimals_than_needed() {
    assert_eq!(size_text(0), "0");
    assert_eq!(size_text(1), "0.01");
    assert_eq!(size_text(10), "0.1");
    assert_eq!(size_text(99), "0.99");
    assert_eq!(size_text(100), "1");
    assert_eq!(size_text(101), "1.01");
    assert_eq!(size_text(150), "1.5");
    assert_eq!(size_text(1234), "12.34");
    assert_eq!(size_text(120000), "1200");
    assert_eq!(size_text(18014398509481984), "180143985094819.84");
}

#[test]
fn size_text_agrees_with_the_float_rendering() {
    for bytes in [0u64, 1, 511, 512, 1024, 5000, 10240, 123456, 204800, 1048576, 987654321] {
        let expected = format!("{}", (bytes as f64 / 1024.0).round() / 100.0);
        assert_eq!(size_text(size_metric(bytes)), expected);
    }
}

#[test]
fn decimal_numerals() {
    let mut out = String::from("n=");
    append_decimal(&mut out, 0);
    append_digit(&mut out, 7);
    append_decimal(&mut out, 1905);
    append_decimal(&mut out, u64::MAX);
    assert_eq!(out, "n=07190518446744073709551615");
}

#[test]
fn spaces_and_chars() {
    let mut out = String::from("a");
    append_spaces(&mut out, 0);
    append_spaces(&mut out, 3);
    out.push('b');
    assert_eq!(out, "a   b");
    assert_eq!(chars_of("a└b"), vec!['a', '└', 'b']);
    assert_eq!(chars_of(""), Vec::<char>::new());
}

#[test]
fn tree_lists_the_directory_and_its_children() {
    let listing = vec![item(0, "Dune"), item(1, "Dune.mkv"), item(1, "Subs")];
    assert_eq!(render_tree(&listing), "└── Dune\n    └── Dune.mkv\n    └── Subs");
}

#[test]
fn tree_never_lists_grandchildren() {
    let listing = vec![
        item(0, "Dune"),
        item(1, "Subs"),
        item(2, "en.srt"),
        item(3, "deep"),
        item(1, "Dune.mkv"),
        item(2, "x"),
    ];
    assert_eq!(render_tree(&listing), "└── Dune\n    └── Subs\n    └── Dune.mkv");
    let shallow = vec![item(0, "Dune"), item(1, "Subs"), item(1, "Dune.mkv")];
    assert_eq!(render_tree(&listing), render_tree(&shallow));
}

#[test]
fn tree_of_an_empty_directory_and_of_nothing() {
    assert_eq!(render_tree(&vec![item(0, "empty")]), "└── empty");
    assert_eq!(render_tree(&vec![]), "");
    assert_eq!(render_tree(&vec![item(2, "only deep")]), "");
    assert_eq!(render_tree(&vec![item(5, "deep"), item(1, "child")]), "    └── child");
}

#[test]
fn tree_keeps_the_order_of_the_walk() {
    let listing = vec![item(0, "d"), item(1, "b"), item(1, "a"), item(1, "c")];
    assert_eq!(render_tree(&listing), "└── d\n    └── b\n    └── a\n    └── c");
}

#[test]
fn a_directory_is_described_by_its_tree() {
    let facts = EntryFacts::Directory { listing: vec![item(0, "Dune"), item(1, "Dune.mkv")] };
    assert_eq!(analyze_file(&facts), Ok("└── Dune\n    └── Dune.mkv".to_string()));
}

#[test]
fn a_file_is_described_by_name_size_and_timestamps() {
    let facts = EntryFacts::File {
        name: Some("report.pdf".to_string()),
        meta: Some(FileMeta { bytes: 5000, created: utc(0), modified: utc(1700000000) }),
    };
    assert_eq!(
        analyze_file(&facts),
        Ok("文件名: report.pdf, 文件大小: 0.05 KB, 文件创建日期: 1970-01-01 00:00:00, 文件修改日期: 2023-11-14 22:13:20".to_string())
    );
}

#[test]
fn timestamps_are_shown_in_local_time() {
    let east = Stamp { secs: 1700000000, offset: 8 * 3600 };
    let west = Stamp { secs: 0, offset: -5 * 3600 - 1800 };
    let facts = EntryFacts::File {
        name: Some("a".to_string()),
        meta: Some(FileMeta { bytes: 0, created: east, modified: west }),
    };
    assert_eq!(
        analyze_file(&facts),
        Ok("文件名: a, 文件大小: 0 KB, 文件创建日期: 2023-11-15 06:13:20, 文件修改日期: 1969-12-31 18:30:00".to_string())
    );
}

#[test]
fn a_file_without_a_name_is_not_described() {
    let meta = FileMeta { bytes: 1, created: utc(0), modified: utc(0) };
    let facts = EntryFacts::File { name: None, meta: Some(meta) };
    assert_eq!(analyze_file(&facts), Err(DescribeError::NameUnavailable));
    let neither = EntryFacts::File { name: None, meta: None };
    assert_eq!(analyze_file(&neither), Err(DescribeError::NameUnavailable));
}

#[test]
fn a_file_without_metadata_is_not_described() {
    let facts = EntryFacts::File { name: Some("a".to_string()), meta: None };
    assert_eq!(analyze_file(&facts), Err(DescribeError::MetadataUnavailable));
}

#[test]
fn a_timestamp_that_cannot_be_written_counts_as_missing_metadata() {
    let bad_offset = Stamp { secs: 0, offset: 86_400 };
    let facts = EntryFacts::File {
        name: Some("a".to_string()),
        meta: Some(FileMeta { bytes: 1, created: bad_offset, modified: utc(0) }),
    };
    assert_eq!(analyze_file(&facts), Err(DescribeError::MetadataUnavailable));
    let far = EntryFacts::File {
        name: Some("a".to_string()),
        meta: Some(FileMeta { bytes: 1, created: utc(0), modified: utc(i64::MAX) }),
    };
    assert_eq!(analyze_file(&far), Err(DescribeError::MetadataUnavailable));
}
