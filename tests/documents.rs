use lustre_collector::lnet_exports::{
    HealthStats, LNetStatistics, LocalNiS, Net, Stats, Tunables,
};
use lustre_collector::lnetctl_parser::{build_lnet_stats, lnet_stats_records};
use lustre_collector::types::{
    FsName, HostStat, HostStats, LNetStat, LNetStats, Param, Record, RecoveryStatus, Target,
    TargetStat, TargetStats, TargetVariant,
};
use lustre_collector::utils::{CommandMock, CommandMode};
use lustre_collector::{
    parse_lctl_output, parse_mgs_fs_output, parse_recovery_status_output, LustreCollectorError,
};

fn fs_names(target: &str, names: &[&str]) -> Record {
    Record::Target(TargetStats::FsNames(TargetStat {
        kind: TargetVariant::MGT,
        param: Param("fsnames".into()),
        target: Target(target.into()),
        value: names.iter().map(|n| FsName(n.to_string())).collect(),
    }))
}

#[test]
fn test_single_mounted_fs() {
    let x = b"mgs.MGS.live.fs\nmgs.MGS.live.params\n";
    assert_eq!(parse_mgs_fs_output(x), Ok(vec![fs_names("MGS", &["fs"])]));
}

#[test]
fn test_multi_mounted_fs() {
    let x = b"mgs.MGS.live.fs\nmgs.MGS.live.fs2\nmgs.MGS.live.params\n";
    assert_eq!(parse_mgs_fs_output(x), Ok(vec![fs_names("MGS", &["fs", "fs2"])]));
}

#[test]
fn test_multi_target_multi_mounted_fs() {
    let x = b"mgs.MGS.live.fs
mgs.MGS2.live.mgs2fs1
mgs.MGS.live.fs2
mgs.MGS.live.params
mgs.MGS2.live.mgs2fs2
";
    let mut records = parse_mgs_fs_output(x).unwrap();
    records.sort_by(|a, b| {
        let first = |r: &Record| match r {
            Record::Target(TargetStats::FsNames(x)) => x.value[0].0.to_string(),
            _ => panic!("Error getting target record."),
        };
        first(a).partial_cmp(&first(b)).unwrap()
    });
    assert_eq!(
        records,
        vec![fs_names("MGS", &["fs", "fs2"]), fs_names("MGS2", &["mgs2fs1", "mgs2fs2"])]
    );
}

#[test]
fn fs_listing_keeps_the_order_targets_first_appear_in() {
    let x = b"mgs.B.live.b1\nmgs.A.live.a1\nmgs.B.live.b2\n";
    assert_eq!(
        parse_mgs_fs_output(x),
        Ok(vec![fs_names("B", &["b1", "b2"]), fs_names("A", &["a1"])])
    );
}

#[test]
fn fs_listing_errors() {
    assert_eq!(parse_mgs_fs_output(b""), Err(LustreCollectorError::ContentLeft { position: 0 }));
    assert_eq!(
        parse_mgs_fs_output(b"mgs.MGS.live.fs\nbogus\n"),
        Err(LustreCollectorError::ContentLeft { position: 16 })
    );
    assert_eq!(parse_mgs_fs_output(b"mgs.MGS.live.params\n"), Ok(vec![]));
    assert_eq!(parse_mgs_fs_output(&[0xff, 0xfe]), Err(LustreCollectorError::Utf8Error));
}

#[test]
fn lctl_output_with_records_of_each_subsystem() {
    let x = b"memused=77991501
mgs.MGS.mgs.threads_max=32
mgs.MGS.num_exports=4
mdt.fs-MDT0000.num_exports=16
obdfilter.fs-OST0000.fstype=ldiskfs
obdfilter.fs-OST0000.kbytesavail=2
ldlm.namespaces.filter-fs-OST0000_UUID.lru_size=800
";
    let records = parse_lctl_output(x).unwrap();
    let c = |kind, t: &str, p: &str, v| TargetStat {
        kind,
        param: Param(p.into()),
        target: Target(t.into()),
        value: v,
    };
    assert_eq!(
        records,
        vec![
            Record::Host(HostStats::Memused(HostStat {
                param: Param("memused".into()),
                value: 77991501
            })),
            Record::Target(TargetStats::ThreadsMax(c(TargetVariant::MGT, "MGS", "threads_max", 32))),
            Record::Target(TargetStats::NumExports(c(TargetVariant::MGT, "MGS", "num_exports", 4))),
            Record::Target(TargetStats::NumExports(c(
                TargetVariant::MDT,
                "fs-MDT0000",
                "num_exports",
                16
            ))),
            Record::Target(TargetStats::FsType(TargetStat {
                kind: TargetVariant::OST,
                param: Param("fstype".into()),
                target: Target("fs-OST0000".into()),
                value: "ldiskfs".to_string(),
            })),
            Record::Target(TargetStats::BytesAvail(c(
                TargetVariant::OST,
                "fs-OST0000",
                "kbytesavail",
                2048
            ))),
            Record::Target(TargetStats::LruSize(c(TargetVariant::OST, "fs-OST0000", "lru_size", 800))),
        ]
    );
}

#[test]
fn lctl_output_errors() {
    assert_eq!(parse_lctl_output(b""), Ok(vec![]));
    assert_eq!(
        parse_lctl_output(b"memused=1\nfoo=2\n"),
        Err(LustreCollectorError::ContentLeft { position: 10 })
    );
    assert_eq!(
        parse_lctl_output(b"memused=99999999999999999999\n"),
        Err(LustreCollectorError::NumberOverflow { position: 8 })
    );
    assert_eq!(
        parse_lctl_output(b"obdfilter.fs-OST0000.kbytesfree=18014398509481984\n"),
        Err(LustreCollectorError::NumberOverflow { position: 32 })
    );
    assert_eq!(parse_lctl_output(&[b'm', 0xc3]), Err(LustreCollectorError::Utf8Error));
}

#[test]
fn empty_job_accounting_is_no_jobs() {
    let x = b"obdfilter.fs-OST0000.job_stats=job_stats:\nobdfilter.fs-OST0000.num_exports=2\n";
    let records = parse_lctl_output(x).unwrap();
    assert_eq!(
        records[0],
        Record::Target(TargetStats::JobStatsOst(TargetStat {
            kind: TargetVariant::OST,
            param: Param("job_stats".into()),
            target: Target("fs-OST0000".into()),
            value: None,
        }))
    );
    assert_eq!(records.len(), 2);
}

#[test]
fn job_accounting_document_is_cut_out() {
    let doc = "job_stats:
- job_id:          cp.0
  snapshot_time:   1537070542
  read_bytes:      { samples:         256, unit: bytes, min: 4194304, max: 4194304, sum:      1073741824 }
  getattr:         { samples:           0, unit:  reqs }";
    let text = format!(
        "mdt.fs-MDT0000.job_stats=\n{}\nmdt.fs-MDT0000.num_exports=3\n",
        doc
    );
    let records = parse_lctl_output(text.as_bytes()).unwrap();
    assert_eq!(
        records,
        vec![
            Record::Target(TargetStats::JobStatsMdt(TargetStat {
                kind: TargetVariant::MDT,
                param: Param("job_stats".into()),
                target: Target("fs-MDT0000".into()),
                value: Some(doc.to_string()),
            })),
            Record::Target(TargetStats::NumExports(TargetStat {
                kind: TargetVariant::MDT,
                param: Param("num_exports".into()),
                target: Target("fs-MDT0000".into()),
                value: 3,
            })),
        ]
    );
}

fn recovery(kind: TargetVariant, t: &str, v: RecoveryStatus) -> Record {
    Record::Target(TargetStats::RecoveryStatus(TargetStat {
        kind,
        param: Param("recovery_status".into()),
        target: Target(t.into()),
        value: v,
    }))
}

fn clients(kind: TargetVariant, t: &str, v: u64) -> TargetStat<u64> {
    TargetStat {
        kind,
        param: Param("recovery_status".into()),
        target: Target(t.into()),
        value: v,
    }
}

#[test]
fn recovery_status_parser_test_empty_input() {
    assert_eq!(parse_recovery_status_output(b""), Ok(vec![]));
    assert_eq!(parse_recovery_status_output(b"  \n "), Ok(vec![]));
}

#[test]
fn recovery_blocks() {
    let x = b"
obdfilter.fs-OST0000.recovery_status=
status: COMPLETE
recovery_start: 1620919528
recovery_duration: 2
completed_clients: 1/2
replayed_requests: 0
evicted_clients: 1
mdt.fs-MDT0000.recovery_status=
status: WAITING_FOR_CLIENTS
connected_clients: 3/4
obdfilter.fs-OST0001.recovery_status=
status: SOMETHING_NEW
";
    let ost = TargetVariant::OST;
    let mdt = TargetVariant::MDT;
    assert_eq!(
        parse_recovery_status_output(x),
        Ok(vec![
            recovery(ost, "fs-OST0000", RecoveryStatus::Complete),
            Record::Target(TargetStats::RecoveryCompletedClients(clients(ost, "fs-OST0000", 1))),
            Record::Target(TargetStats::RecoveryEvictedClients(clients(ost, "fs-OST0000", 1))),
            recovery(mdt, "fs-MDT0000", RecoveryStatus::WaitingForClients),
            Record::Target(TargetStats::RecoveryConnectedClients(clients(mdt, "fs-MDT0000", 3))),
            recovery(ost, "fs-OST0001", RecoveryStatus::Unknown),
        ])
    );
}

#[test]
fn recovery_block_without_counts_emits_only_the_status() {
    let x = b"mdt.fs-MDT0000.recovery_status=\nstatus: INACTIVE\n";
    assert_eq!(
        parse_recovery_status_output(x),
        Ok(vec![recovery(TargetVariant::MDT, "fs-MDT0000", RecoveryStatus::Inactive)])
    );
}

#[test]
fn recovery_output_that_is_no_block() {
    assert_eq!(
        parse_recovery_status_output(b"hello"),
        Err(LustreCollectorError::ContentLeft { position: 0 })
    );
}

fn zero_stats() -> Stats {
    Stats { put: 0, get: 0, reply: 0, ack: 0, hello: 0 }
}

fn ni(nid: &str, send: i64, recv: i64, drop: i64) -> LocalNiS {
    LocalNiS {
        nid: nid.to_string(),
        status: "up".to_string(),
        statistics: LNetStatistics { send_count: send, recv_count: recv, drop_count: drop },
        sent_stats: zero_stats(),
        received_stats: zero_stats(),
        dropped_stats: zero_stats(),
        health_stats: HealthStats {
            health_value: 1000,
            interrupts: 0,
            dropped: 0,
            aborted: 0,
            no_route: 0,
            timeouts: 0,
            error: 0,
        },
        tunables: Tunables { peer_timeout: 180, peer_credits: 8, peer_buffer_credits: 0, credits: 256 },
        dev_cpt: 0,
        tcp_bonding: 0,
        cpt: "[0]".to_string(),
        interfaces: None,
    }
}

fn lnet(f: fn(LNetStat<i64>) -> LNetStats, nid: &str, p: &str, v: i64) -> Record {
    Record::LNetStat(f(LNetStat { nid: nid.to_string(), param: Param(p.into()), value: v }))
}

#[test]
fn lnet_records_of_each_interface() {
    let net = Net {
        net_type: "tcp".to_string(),
        local_nis: vec![ni("10.0.0.1@tcp", 5, 6, 7), ni("10.0.0.2@tcp", 8, 9, 10)],
    };
    assert_eq!(
        build_lnet_stats(&net),
        vec![
            lnet(LNetStats::SendCount, "10.0.0.1@tcp", "send_count", 5),
            lnet(LNetStats::RecvCount, "10.0.0.1@tcp", "recv_count", 6),
            lnet(LNetStats::DropCount, "10.0.0.1@tcp", "drop_count", 7),
            lnet(LNetStats::SendCount, "10.0.0.2@tcp", "send_count", 8),
            lnet(LNetStats::RecvCount, "10.0.0.2@tcp", "recv_count", 9),
            lnet(LNetStats::DropCount, "10.0.0.2@tcp", "drop_count", 10),
        ]
    );
}

#[test]
fn lnet_document_without_networks_has_no_records() {
    assert_eq!(lnet_stats_records(&None), vec![]);
    assert_eq!(lnet_stats_records(&Some(vec![])), vec![]);
}

#[test]
fn command_mock_settings() {
    let m = CommandMock::new("lctl_output").with_mode(CommandMode::Play).with_path("/tmp/x");
    assert_eq!(m.name, "lctl_output");
    assert_eq!(m.mode, CommandMode::Play);
    assert_eq!(m.path, Some("/tmp/x".to_string()));
    assert_eq!(CommandMock::new("a").mode, CommandMode::Live);
}

#[test]
fn target_variant_names() {
    assert_eq!(TargetVariant::OST.name(), "OST");
    assert_eq!(TargetVariant::MGT.name(), "MGT");
    assert_eq!(TargetVariant::MDT.name(), "MDT");
}
