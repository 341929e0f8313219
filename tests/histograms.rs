use lustre_collector::base_parsers::Parsed;
use lustre_collector::brw_stats_parser::{brw_stats, read_section};
use lustre_collector::types::{BrwStats, BrwStatsBucket};

fn chars(s: &str) -> Vec<char> {
    s.chars().collect()
}

fn b(name: u64, read: u64, write: u64) -> BrwStatsBucket {
    BrwStatsBucket { name, read, write }
}

fn h(name: &str, unit: &str, buckets: Vec<BrwStatsBucket>) -> BrwStats {
    BrwStats { name: name.to_string(), unit: unit.to_string(), buckets }
}

#[test]
fn brw_stats_parser_test_section() {
    let x = chars(
        "read      |     write
pages per bulk r/w     rpcs  % cum % |  rpcs        % cum %
32:\t\t         0   0   0   |    1  11  11
64:\t\t         0   0   0   |    0   0  11
128:\t\t         0   0   0   |    0   0  11
256:\t\t         0   0   0   |    0   0  11
512:\t\t         0   0   0   |    0   0  11
1K:\t\t         0   0   0   |    8  88 100
",
    );
    let expected = h(
        "pages",
        "rpcs",
        vec![b(32, 0, 1), b(64, 0, 0), b(128, 0, 0), b(256, 0, 0), b(512, 0, 0), b(1024, 0, 8)],
    );
    assert_eq!(read_section(&x, 0), Parsed::Match(expected, x.len()));
}

#[test]
fn brw_stats_parser_test_empty_section() {
    let x = chars(
        "read      |     write
pages per bulk r/w     rpcs  % cum % |  rpcs        % cum %
",
    );
    assert_eq!(read_section(&x, 0), Parsed::Match(h("pages", "rpcs", vec![]), x.len()));
}

#[test]
fn brw_stats_parser_test_empty_brw_stats() {
    let x = chars(
        "
snapshot_time:         1534429278.185762481 (secs.nsecs)

                           read      |     write
pages per bulk r/w     rpcs  % cum % |  rpcs        % cum %

                           read      |     write
discontiguous pages    rpcs  % cum % |  rpcs        % cum %

                           read      |     write
discontiguous blocks   rpcs  % cum % |  rpcs        % cum %

                           read      |     write
disk fragmented I/Os   ios   % cum % |  ios         % cum %

                           read      |     write
disk I/Os in flight    ios   % cum % |  ios         % cum %

                           read      |     write
I/O time (1/1000s)     ios   % cum % |  ios         % cum %

                           read      |     write
disk I/O size          ios   % cum % |  ios         % cum %
",
    );
    let expected = vec![
        h("pages", "rpcs", vec![]),
        h("discont_pages", "rpcs", vec![]),
        h("discont_blocks", "rpcs", vec![]),
        h("dio_frags", "ios", vec![]),
        h("rpc_hist", "ios", vec![]),
        h("io_time", "ios", vec![]),
        h("disk_iosize", "ios", vec![]),
    ];
    assert_eq!(brw_stats(&x, 0), Parsed::Match(expected, x.len()));
}

#[test]
fn brw_stats_parser_test_brw_stats() {
    let x = chars(
        "
snapshot_time:         1534158712.738772898 (secs.nsecs)

                           read      |     write
pages per bulk r/w     rpcs  % cum % |  rpcs        % cum %
32:\t\t         0   0   0   |    1  11  11
64:\t\t         0   0   0   |    0   0  11
128:\t\t         0   0   0   |    0   0  11
256:\t\t         1   2   3   |    0   0  11
512:\t\t         0   0   0   |    0   0  11
1K:\t\t         0   0   0   |    8  88 100

                           read      |     write
discontiguous pages    rpcs  % cum % |  rpcs        % cum %
0:\t\t         0   0   0   |    6  66  66
1:\t\t         0   0   0   |    3  33 100

                           read      |     write
discontiguous blocks   rpcs  % cum % |  rpcs        % cum %
0:\t\t         0   0   0   |    9 100 100

                           read      |     write
disk fragmented I/Os   ios   % cum % |  ios         % cum %
1:\t\t         0   0   0   |    1  11  11
2:\t\t         0   0   0   |    0   0  11
3:\t\t         0   0   0   |    0   0  11
4:\t\t         0   0   0   |    8  88 100

                           read      |     write
disk I/Os in flight    ios   % cum % |  ios         % cum %
1:\t\t         0   0   0   |    3   9   9
2:\t\t         0   0   0   |    3   9  18
3:\t\t         0   0   0   |    3   9  27
4:\t\t         0   0   0   |    3   9  36
5:\t\t         0   0   0   |    3   9  45
6:\t\t         0   0   0   |    3   9  54
7:\t\t         0   0   0   |    3   9  63
8:\t\t         0   0   0   |    3   9  72
9:\t\t         0   0   0   |    2   6  78
10:\t\t         0   0   0   |    2   6  84
11:\t\t         0   0   0   |    2   6  90
12:\t\t         0   0   0   |    2   6  96
13:\t\t         0   0   0   |    1   3 100

                           read      |     write
I/O time (1/1000s)     ios   % cum % |  ios         % cum %
32:\t\t         0   0   0   |    1  11  11
64:\t\t         0   0   0   |    0   0  11
128:\t\t         0   0   0   |    2  22  33
256:\t\t         0   0   0   |    6  66 100

                           read      |     write
disk I/O size          ios   % cum % |  ios         % cum %
128K:\t\t         0   0   0   |    1   3   3
256K:\t\t         0   0   0   |    0   0   3
512K:\t\t         0   0   0   |    0   0   3
1M:\t\t         0   0   0   |   32  96 100
",
    );
    let expected = vec![
        h(
            "pages",
            "rpcs",
            vec![b(32, 0, 1), b(64, 0, 0), b(128, 0, 0), b(256, 1, 0), b(512, 0, 0), b(1024, 0, 8)],
        ),
        h("discont_pages", "rpcs", vec![b(0, 0, 6), b(1, 0, 3)]),
        h("discont_blocks", "rpcs", vec![b(0, 0, 9)]),
        h("dio_frags", "ios", vec![b(1, 0, 1), b(2, 0, 0), b(3, 0, 0), b(4, 0, 8)]),
        h(
            "rpc_hist",
            "ios",
            vec![
                b(1, 0, 3),
                b(2, 0, 3),
                b(3, 0, 3),
                b(4, 0, 3),
                b(5, 0, 3),
                b(6, 0, 3),
                b(7, 0, 3),
                b(8, 0, 3),
                b(9, 0, 2),
                b(10, 0, 2),
                b(11, 0, 2),
                b(12, 0, 2),
                b(13, 0, 1),
            ],
        ),
        h("io_time", "ios", vec![b(32, 0, 1), b(64, 0, 0), b(128, 0, 2), b(256, 0, 6)]),
        h(
            "disk_iosize",
            "ios",
            vec![b(131072, 0, 1), b(262144, 0, 0), b(524288, 0, 0), b(1048576, 0, 32)],
        ),
    ];
    assert_eq!(brw_stats(&x, 0), Parsed::Match(expected, x.len()));
}

#[test]
fn block_maps_histogram_is_known() {
    let x = chars(
        "read      |     write
block maps msec        maps  % cum % |  maps        % cum %
1:\t\t         5   50   50   |    0  0  0
",
    );
    assert_eq!(
        read_section(&x, 0),
        Parsed::Match(h("block_maps_msec", "maps", vec![b(1, 5, 0)]), x.len())
    );
}

#[test]
fn unknown_histogram_title_is_no_section() {
    let x = chars(
        "read      |     write
bytes per bulk r/w     rpcs  % cum % |  rpcs        % cum %
",
    );
    assert_eq!(read_section(&x, 0), Parsed::NoMatch);
}
