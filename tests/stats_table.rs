use lustre_collector::base_parsers::Parsed;
use lustre_collector::stats_parser::{read_name_count_units, read_stat_line, stats};
use lustre_collector::types::Stat;

fn chars(s: &str) -> Vec<char> {
    s.chars().collect()
}

fn reqs(name: &str, samples: u64) -> Stat {
    Stat {
        name: name.to_string(),
        units: "reqs".to_string(),
        samples,
        min: None,
        max: None,
        sum: None,
        sumsquare: None,
    }
}

#[test]
fn test_name_count_units() {
    let x = chars("create                    726 samples [reqs]\n");
    assert_eq!(
        read_name_count_units(&x, 0),
        Parsed::Match(("create".to_string(), 726, "reqs".to_string()), x.len() - 1)
    );
}

#[test]
fn test_stat_no_sumsquare() {
    let x = chars("cache_miss                21108 samples [pages] 1 1 21108\n");
    assert_eq!(
        read_stat_line(&x, 0),
        Parsed::Match(
            Stat {
                name: "cache_miss".to_string(),
                samples: 21108,
                units: "pages".to_string(),
                min: Some(1),
                max: Some(1),
                sum: Some(21108),
                sumsquare: None,
            },
            x.len()
        )
    );
}

#[test]
fn test_stat() {
    let x = chars("obd_ping                  1108 samples [usec] 15 72 47014 2156132\n");
    assert_eq!(
        read_stat_line(&x, 0),
        Parsed::Match(
            Stat {
                name: "obd_ping".to_string(),
                units: "usec".to_string(),
                samples: 1108,
                min: Some(15),
                max: Some(72),
                sum: Some(47014),
                sumsquare: Some(2_156_132),
            },
            x.len()
        )
    );
}

#[test]
fn stat_without_moments_has_none_of_them() {
    let x = chars("statfs 5634 samples [reqs]\n");
    assert_eq!(read_stat_line(&x, 0), Parsed::Match(reqs("statfs", 5634), x.len()));
}

#[test]
fn stat_line_that_names_a_subsystem_is_no_stat() {
    let x = chars("obdfilter 5 samples [reqs]\n");
    assert_eq!(read_stat_line(&x, 0), Parsed::NoMatch);
}

#[test]
fn test_stats() {
    let x = chars(
        "
snapshot_time             1534770326.579119384 secs.nsecs
write_bytes               9 samples [bytes] 98303 4194304 33554431
create                    4 samples [reqs]
statfs                    5634 samples [reqs]
get_info                  2 samples [reqs]
connect                   4 samples [reqs]
reconnect                 1 samples [reqs]
disconnect                3 samples [reqs]
statfs                    18 samples [reqs]
preprw                    9 samples [reqs]
commitrw                  9 samples [reqs]
ping                      1075 samples [reqs]
",
    );
    let expected = vec![
        Stat {
            name: "write_bytes".to_string(),
            units: "bytes".to_string(),
            samples: 9,
            min: Some(98303),
            max: Some(4194304),
            sum: Some(33554431),
            sumsquare: None,
        },
        reqs("create", 4),
        reqs("statfs", 5634),
        reqs("get_info", 2),
        reqs("connect", 4),
        reqs("reconnect", 1),
        reqs("disconnect", 3),
        reqs("statfs", 18),
        reqs("preprw", 9),
        reqs("commitrw", 9),
        reqs("ping", 1075),
    ];
    assert_eq!(stats(&x, 0), Parsed::Match(expected, x.len()));
}

#[test]
fn test_mdstats() {
    let x = chars(
        "
snapshot_time             1566007540.707634939 secs.nsecs
statfs                    16360 samples [reqs]
",
    );
    assert_eq!(stats(&x, 0), Parsed::Match(vec![reqs("statfs", 16360)], x.len()));
}

#[test]
fn stats_table_with_start_and_elapsed_time() {
    let x = chars(
        "
snapshot_time:            1566007540.707634939 secs.nsecs
start_time:               1566000000.000000001 secs.nsecs
elapsed_time:             7540.707634938 secs.nsecs
statfs                    16360 samples [reqs]
",
    );
    assert_eq!(stats(&x, 0), Parsed::Match(vec![reqs("statfs", 16360)], x.len()));
}

#[test]
fn stats_table_needs_a_row() {
    let x = chars(
        "
snapshot_time             1566007540.707634939 secs.nsecs
",
    );
    assert_eq!(stats(&x, 0), Parsed::NoMatch);
}

#[test]
fn reparsing_a_rendered_table_gives_the_same_rows() {
    let rows = vec![
        Stat {
            name: "req_waittime".to_string(),
            units: "usec".to_string(),
            samples: 18419628,
            min: Some(2),
            max: Some(40983),
            sum: Some(305482965),
            sumsquare: Some(25043535105),
        },
        Stat {
            name: "cache_miss".to_string(),
            units: "pages".to_string(),
            samples: 21108,
            min: Some(1),
            max: Some(1),
            sum: Some(21108),
            sumsquare: None,
        },
        reqs("statfs", 0),
    ];
    let mut text = String::from("\nsnapshot_time 1.2 secs.nsecs\n");
    for r in &rows {
        text.push_str(&format!("{} {} samples [{}]", r.name, r.samples, r.units));
        if let (Some(a), Some(b), Some(c)) = (r.min, r.max, r.sum) {
            text.push_str(&format!(" {} {} {}", a, b, c));
        }
        if let Some(d) = r.sumsquare {
            text.push_str(&format!(" {}", d));
        }
        text.push('\n');
    }
    let x = chars(&text);
    assert_eq!(stats(&x, 0), Parsed::Match(rows, x.len()));
}
