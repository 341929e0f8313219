use lustre_collector::base_parsers::Parsed;
use lustre_collector::ldlm_parser::{self, ldlm_params, ldlm_stat};
use lustre_collector::types::{
    HostStat, HostStats, Param, Record, Stat, Target, TargetStat, TargetStats, TargetVariant,
};
use lustre_collector::values::read_prefixed_target;
use lustre_collector::{mds_parser, oss_parser, ost_parser, parser, top_level_parser};

fn chars(s: &str) -> Vec<char> {
    s.chars().collect()
}

fn reqs(name: &str, samples: u64) -> Stat {
    Stat {
        name: name.to_string(),
        units: "reqs".to_string(),
        samples,
        min: None,
        max: None,
        sum: None,
        sumsquare: None,
    }
}

fn count(kind: TargetVariant, target: &str, param: &str, value: u64) -> TargetStat<u64> {
    TargetStat {
        kind,
        param: Param(param.to_string()),
        target: Target(target.to_string()),
        value,
    }
}

fn all_records(
    s: &[char],
    parse: fn(&[char], usize) -> Parsed<Record>,
) -> (Vec<Record>, usize) {
    let mut out = vec![];
    let mut p = 0;
    while let Parsed::Match(r, q) = parse(s, p) {
        out.push(r);
        p = q;
    }
    (out, p)
}

#[test]
fn top_level_parser_test_params() {
    assert_eq!(
        top_level_parser::top_level_params(),
        vec![
            "memused".to_string(),
            "memused_max".to_string(),
            "lnet_memused".to_string(),
            "health_check".to_string(),
        ]
    )
}

#[test]
fn top_level_parser_test_row() {
    let x = chars("memused_max=77991501\n");
    assert_eq!(
        top_level_parser::parse(&x, 0),
        Parsed::Match(
            Record::Host(HostStats::MemusedMax(HostStat {
                param: Param("memused_max".to_string()),
                value: 77_991_501
            })),
            x.len()
        )
    )
}

#[test]
fn health_check_keeps_its_words() {
    let x = chars("health_check=healthy\n");
    assert_eq!(
        top_level_parser::parse(&x, 0),
        Parsed::Match(
            Record::Host(HostStats::HealthCheck(HostStat {
                param: Param("health_check".to_string()),
                value: "healthy".to_string()
            })),
            x.len()
        )
    );
    let y = chars("health_check=NOT HEALTHY\n");
    assert_eq!(
        top_level_parser::parse(&y, 0),
        Parsed::Match(
            Record::Host(HostStats::HealthCheck(HostStat {
                param: Param("health_check".to_string()),
                value: "NOT HEALTHY".to_string()
            })),
            y.len()
        )
    );
}

#[test]
fn test_ldlm_params() {
    assert_eq!(
        ldlm_params(),
        vec![
            "ldlm.namespaces.{mdt-,filter-}*.contended_locks".to_string(),
            "ldlm.namespaces.{mdt-,filter-}*.contention_seconds".to_string(),
            "ldlm.namespaces.{mdt-,filter-}*.ctime_age_limit".to_string(),
            "ldlm.namespaces.{mdt-,filter-}*.early_lock_cancel".to_string(),
            "ldlm.namespaces.{mdt-,filter-}*.lock_count".to_string(),
            "ldlm.namespaces.{mdt-,filter-}*.lock_timeouts".to_string(),
            "ldlm.namespaces.{mdt-,filter-}*.lock_unused_count".to_string(),
            "ldlm.namespaces.{mdt-,filter-}*.lru_max_age".to_string(),
            "ldlm.namespaces.{mdt-,filter-}*.lru_size".to_string(),
            "ldlm.namespaces.{mdt-,filter-}*.max_nolock_bytes".to_string(),
            "ldlm.namespaces.{mdt-,filter-}*.max_parallel_ast".to_string(),
            "ldlm.namespaces.{mdt-,filter-}*.resource_count".to_string(),
        ]
    )
}

#[test]
fn test_lock_namespaces() {
    let x = chars("contended_locks=32\n");
    assert_eq!(
        ldlm_stat(&x, 0),
        Parsed::Match((Param("contended_locks".to_string()), 32), x.len())
    );
}

#[test]
fn ldlm_namespace_target_drops_the_uuid() {
    let x = chars("ldlm.namespaces.filter-fs-OST0000_UUID.lock_count=5\n");
    assert_eq!(
        ldlm_parser::parse(&x, 0),
        Parsed::Match(
            Record::Target(TargetStats::LockCount(count(
                TargetVariant::OST,
                "fs-OST0000",
                "lock_count",
                5
            ))),
            x.len()
        )
    );
    let y = chars("ldlm.namespaces.mdt-fs-MDT0000.lock_count=5\n");
    assert_eq!(ldlm_parser::parse(&y, 0), Parsed::NoMatch);
}

#[test]
fn obdfilter_test_target_name() {
    let x = chars("obdfilter.fs-OST0000.num_exports=");
    let result = read_prefixed_target(&x, 0, "obdfilter");
    assert_eq!(result, Parsed::Match(Target("fs-OST0000".to_string()), 21));
    let rest: String = x[21..].iter().collect();
    assert_eq!(rest, "num_exports=");
}

#[test]
fn obdfilter_parser_test_target_name() {
    let x = chars("obdfilter.fs-OST0000.num_exports=");
    let result = read_prefixed_target(&x, 0, "obdfilter");
    assert_eq!(result, Parsed::Match(Target("fs-OST0000".to_string()), 21));
    let rest: String = x[21..].iter().collect();
    assert_eq!(rest, "num_exports=");
}

#[test]
fn oss_parser_test_params() {
    let x = chars(
        "obdfilter.fs-OST0000.stats=
snapshot_time             1535148988.363769785 secs.nsecs
write_bytes               9 samples [bytes] 98303 4194304 33554431
create                    4 samples [reqs]
statfs                    42297 samples [reqs]
get_info                  2 samples [reqs]
connect                   6 samples [reqs]
reconnect                 1 samples [reqs]
disconnect                4 samples [reqs]
statfs                    46806 samples [reqs]
preprw                    9 samples [reqs]
commitrw                  9 samples [reqs]
ping                      8229 samples [reqs]
obdfilter.fs-OST0000.num_exports=2
obdfilter.fs-OST0000.tot_dirty=0
obdfilter.fs-OST0000.tot_granted=8666816
obdfilter.fs-OST0000.tot_pending=0
",
    );
    let (records, end) = all_records(&x, oss_parser::parse);
    assert_eq!(end, x.len());
    let stats = vec![
        Stat {
            name: "write_bytes".to_string(),
            units: "bytes".to_string(),
            samples: 9,
            min: Some(98303),
            max: Some(4194304),
            sum: Some(33554431),
            sumsquare: None,
        },
        reqs("create", 4),
        reqs("statfs", 42297),
        reqs("get_info", 2),
        reqs("connect", 6),
        reqs("reconnect", 1),
        reqs("disconnect", 4),
        reqs("statfs", 46806),
        reqs("preprw", 9),
        reqs("commitrw", 9),
        reqs("ping", 8229),
    ];
    let ost = TargetVariant::OST;
    assert_eq!(
        records,
        vec![
            Record::Target(TargetStats::Stats(TargetStat {
                kind: TargetVariant::OST,
                param: Param("stats".to_string()),
                target: Target("fs-OST0000".to_string()),
                value: stats,
            })),
            Record::Target(TargetStats::NumExports(count(ost, "fs-OST0000", "num_exports", 2))),
            Record::Target(TargetStats::TotDirty(count(ost, "fs-OST0000", "tot_dirty", 0))),
            Record::Target(TargetStats::TotGranted(count(
                ost,
                "fs-OST0000",
                "tot_granted",
                8666816
            ))),
            Record::Target(TargetStats::TotPending(count(ost, "fs-OST0000", "tot_pending", 0))),
        ]
    );
}

#[test]
fn ost_parser_test_params() {
    let x = chars(
        "ost.OSS.ost.stats=
snapshot_time             1688128253.497763049 secs.nsecs
req_waittime              18419628 samples [usec] 2 40983 305482965 25043535105
req_qdepth                18419628 samples [reqs] 0 34 99937 130635
obd_ping                  3529 samples [usec] 3 12431 60722 155336592
ost.OSS.ost_io.stats=
snapshot_time             1688128269.170769339 secs.nsecs
ost_write                 951033049 samples [usec] 59 1247713 2749050524782 100048363896296658
ost_punch                 1515 samples [usec] 16 4883 63967 29511205
",
    );
    let (records, end) = all_records(&x, ost_parser::parse);
    assert_eq!(end, x.len());
    let row = |name: &str, units: &str, n: u64, a: u64, b: u64, c: u64, d: u64| Stat {
        name: name.to_string(),
        units: units.to_string(),
        samples: n,
        min: Some(a),
        max: Some(b),
        sum: Some(c),
        sumsquare: Some(d),
    };
    assert_eq!(
        records,
        vec![
            Record::Target(TargetStats::Stats(TargetStat {
                kind: TargetVariant::OST,
                param: Param("ost".to_string()),
                target: Target("OSS".to_string()),
                value: vec![
                    row("req_waittime", "usec", 18419628, 2, 40983, 305482965, 25043535105),
                    row("req_qdepth", "reqs", 18419628, 0, 34, 99937, 130635),
                    row("obd_ping", "usec", 3529, 3, 12431, 60722, 155336592),
                ],
            })),
            Record::Target(TargetStats::Stats(TargetStat {
                kind: TargetVariant::OST,
                param: Param("ost_io".to_string()),
                target: Target("OSS".to_string()),
                value: vec![
                    row(
                        "ost_write",
                        "usec",
                        951033049,
                        59,
                        1247713,
                        2749050524782,
                        100048363896296658
                    ),
                    row("ost_punch", "usec", 1515, 16, 4883, 63967, 29511205),
                ],
            })),
        ]
    );
}

#[test]
fn mds_parser_test_params() {
    let x = chars(
        "mdt.fs-MDT0000.md_stats=
snapshot_time             1566017453.009677077 secs.nsecs
statfs                    20318 samples [reqs]
mdt.fs-MDT0001.md_stats=
snapshot_time             1566017453.009825550 secs.nsecs
statfs                    20805 samples [reqs]
mdt.fs-MDT0002.md_stats=
snapshot_time             1566017453.009857366 secs.nsecs
statfs                    20805 samples [reqs]
mdt.fs-MDT0000.num_exports=16
mdt.fs-MDT0001.num_exports=13
mdt.fs-MDT0002.num_exports=13
",
    );
    let (records, end) = all_records(&x, mds_parser::parse);
    assert_eq!(end, x.len());
    let md = |t: &str, n: u64| {
        Record::Target(TargetStats::Stats(TargetStat {
            kind: TargetVariant::MDT,
            param: Param("md_stats".to_string()),
            target: Target(t.to_string()),
            value: vec![reqs("statfs", n)],
        }))
    };
    let exports = |t: &str, n: u64| {
        Record::Target(TargetStats::NumExports(count(TargetVariant::MDT, t, "num_exports", n)))
    };
    assert_eq!(
        records,
        vec![
            md("fs-MDT0000", 20318),
            md("fs-MDT0001", 20805),
            md("fs-MDT0002", 20805),
            exports("fs-MDT0000", 16),
            exports("fs-MDT0001", 13),
            exports("fs-MDT0002", 13),
        ]
    );
}

#[test]
fn mdt_kilobytes_are_reported_in_bytes() {
    let x = chars("mdt.fs-MDT0000.kbytesfree=3\n");
    assert_eq!(
        mds_parser::parse(&x, 0),
        Parsed::Match(
            Record::Target(TargetStats::BytesFree(count(
                TargetVariant::MDT,
                "fs-MDT0000",
                "kbytesfree",
                3072
            ))),
            x.len()
        )
    );
}

#[test]
fn parser_test_params() {
    let xs = parser::params();
    assert_eq!(xs.len(), 42);
    assert_eq!(xs[0], "memused");
    assert_eq!(xs[4], "mgs.*.mgs.stats");
    assert_eq!(xs[8], "mgs.*.num_exports");
    assert_eq!(xs[9], "obdfilter.*OST*.job_stats");
    assert_eq!(xs[21], "obdfilter.*OST*.tot_pending");
    assert_eq!(xs[22], "ldlm.namespaces.{mdt-,filter-}*.contended_locks");
    assert_eq!(xs[34], "ost.OSS.ost.stats");
    assert_eq!(xs[38], "ost.OSS.ost_seq.stats");
    assert_eq!(xs[39], "mdt.*.job_stats");
    assert_eq!(xs[41], "mdt.*MDT*.num_exports");
}

#[test]
fn target_names_may_hold_unicode_letters() {
    let x = chars("obdfilter.fs-ÖST0000.num_exports=2\n");
    assert_eq!(
        oss_parser::parse(&x, 0),
        Parsed::Match(
            Record::Target(TargetStats::NumExports(count(
                TargetVariant::OST,
                "fs-ÖST0000",
                "num_exports",
                2
            ))),
            x.len()
        )
    );
}

#[test]
fn unicode_whitespace_separates_stat_fields() {
    let x = chars("mdt.fs-MDT0000.md_stats=\nsnapshot_time\u{a0}1.2 secs.nsecs\nstatfs\u{a0}5 samples\u{2003}[reqs]\n");
    assert_eq!(
        mds_parser::parse(&x, 0),
        Parsed::Match(
            Record::Target(TargetStats::Stats(TargetStat {
                kind: TargetVariant::MDT,
                param: Param("md_stats".to_string()),
                target: Target("fs-MDT0000".to_string()),
                value: vec![reqs("statfs", 5)],
            })),
            x.len()
        )
    );
}
