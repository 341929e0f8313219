use lustre_collector::base_parsers::{read_digits, Parsed};
use lustre_collector::brw_stats_parser::{
    human_to_bytes, read_bucket, read_histogram_header, read_rw_columns,
};
use lustre_collector::stats_parser::read_time_line;
use lustre_collector::types::{BrwStatsBucket, Param};
use lustre_collector::values::param;

fn chars(s: &str) -> Vec<char> {
    s.chars().collect()
}

#[test]
fn test_param() {
    let x = chars("memused=77991501\n");
    let result = param(&x, 0, "memused");
    assert_eq!(result, Parsed::Match(Param("memused".to_string()), 8));
    let rest: String = x[8..].iter().collect();
    assert_eq!(rest, "77991501\n");
}

#[test]
fn param_then_digits_reads_the_whole_line() {
    let x = chars("memused=77991501\n");
    let (p, q) = match param(&x, 0, "memused") {
        Parsed::Match(p, q) => (p, q),
        other => panic!("{:?}", other),
    };
    assert_eq!(p, Param("memused".to_string()));
    assert_eq!(read_digits(&x, q), Parsed::Match(77991501, 16));
}

#[test]
fn param_needs_the_equals_sign() {
    let x = chars("memused_max=5\n");
    assert_eq!(param(&x, 0, "memused"), Parsed::NoMatch);
}

#[test]
fn digits_overflow_is_reported_where_the_number_starts() {
    let x = chars("ab18446744073709551616\n");
    assert_eq!(read_digits(&x, 2), Parsed::Overflow(2));
    let y = chars("18446744073709551615\n");
    assert_eq!(read_digits(&y, 0), Parsed::Match(u64::MAX, 20));
}

#[test]
fn brw_stats_parser_test_human_to_bytes() {
    assert_eq!(human_to_bytes((1, Some('k'))), 1024);
    assert_eq!(human_to_bytes((2, Some('K'))), 2048);
    assert_eq!(human_to_bytes((1, Some('m'))), 1_048_576);
    assert_eq!(human_to_bytes((2, Some('M'))), 2_097_152);
    assert_eq!(human_to_bytes((1, Some('g'))), 1_073_741_824);
    assert_eq!(human_to_bytes((5, Some('G'))), 5_368_709_120);
    assert_eq!(human_to_bytes((5, None)), 5);
}

#[test]
fn human_to_bytes_multiplies_by_the_suffix() {
    for n in [0u64, 1, 3, 1000] {
        assert_eq!(human_to_bytes((n, None)), n);
        assert_eq!(human_to_bytes((n, Some('K'))), n * 1024);
        assert_eq!(human_to_bytes((n, Some('m'))), n * 1048576);
        assert_eq!(human_to_bytes((n, Some('g'))), n * 1073741824);
    }
}

#[test]
fn brw_stats_parser_test_rw_columns() {
    let x = chars("read      |     write\n");
    assert_eq!(read_rw_columns(&x, 0), Parsed::Match((), x.len() - 1));
}

#[test]
fn brw_stats_parser_test_header() {
    let x = chars("pages per bulk r/w     rpcs  % cum % |  rpcs        % cum %\n");
    assert_eq!(
        read_histogram_header(&x, 0),
        Parsed::Match(("pages".to_string(), "rpcs".to_string()), x.len() - 1)
    );
}

#[test]
fn brw_stats_parser_test_bucket() {
    let x = chars("32:\t\t         0   0   0   |    1  11  11\n");
    assert_eq!(
        read_bucket(&x, 0),
        Parsed::Match(BrwStatsBucket { name: 32, read: 0, write: 1 }, x.len() - 1)
    );
}

#[test]
fn bucket_with_byte_suffix() {
    let x = chars("1K:\t\t 0 0 0 | 8 88 100\n");
    assert_eq!(
        read_bucket(&x, 0),
        Parsed::Match(BrwStatsBucket { name: 1024, read: 0, write: 8 }, x.len() - 1)
    );
}

#[test]
fn bucket_key_that_overflows_after_expansion() {
    let x = chars("17179869184G:\t 0 0 0 | 8 88 100\n");
    assert_eq!(read_bucket(&x, 0), Parsed::Overflow(0));
}

#[test]
fn test_snapshot_time() {
    let x = chars("snapshot_time:         1534158712.738772898 (secs.nsecs)\n");
    let result = read_time_line(&x, 0, "snapshot_time");
    assert_eq!(result, Parsed::Match((1534158712, 738772898), x.len()));
    if let Parsed::Match((secs, nsecs), _) = result {
        assert_eq!(format!("{}.{}", secs, nsecs), "1534158712.738772898");
    }
}

#[test]
fn test_snapshot_time_no_colon() {
    let x = chars("snapshot_time             1534769431.137892896 secs.nsecs\n");
    let result = read_time_line(&x, 0, "snapshot_time");
    assert_eq!(result, Parsed::Match((1534769431, 137892896), x.len()));
    if let Parsed::Match((secs, nsecs), _) = result {
        assert_eq!(format!("{}.{}", secs, nsecs), "1534769431.137892896");
    }
}
