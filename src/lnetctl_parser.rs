//! Records of the network transport: send, receive and drop counts of each local
//! network interface.
use crate::lnet_exports::{LocalNiS, Net};
use crate::types::{records_view, LNetField, LNetStat, LNetStats, Param, Record, RecordView};
use vstd::prelude::*;

verus! {

pub open spec fn lnet_record_view(field: LNetField, nid: Seq<char>, param: Seq<char>, value: i64) -> RecordView {
    RecordView::LNet { field, nid, param, value }
}

/// The three records of one local interface.
pub open spec fn ni_records(ni: LocalNiS) -> Seq<RecordView> {
    seq![
        lnet_record_view(LNetField::SendCount, ni.nid@, "send_count"@, ni.statistics.send_count),
        lnet_record_view(LNetField::RecvCount, ni.nid@, "recv_count"@, ni.statistics.recv_count),
        lnet_record_view(LNetField::DropCount, ni.nid@, "drop_count"@, ni.statistics.drop_count),
    ]
}

/// The records of the interfaces, in their order.
pub open spec fn nis_records(nis: Seq<LocalNiS>) -> Seq<RecordView>
    decreases nis.len(),
{
    if nis.len() == 0 {
        Seq::empty()
    } else {
        nis_records(nis.drop_last()) + ni_records(nis.last())
    }
}

/// The records of the networks, in their order.
pub open spec fn nets_records(nets: Seq<Net>) -> Seq<RecordView>
    decreases nets.len(),
{
    if nets.len() == 0 {
        Seq::empty()
    } else {
        nets_records(nets.drop_last()) + nis_records(nets.last().local_nis@)
    }
}

fn push_ni_records(out: &mut Vec<Record>, ni: &LocalNiS)
    ensures
        records_view(final(out)@) == records_view(old(out)@) + ni_records(*ni),
{
    let ghost before = out@;
    let a = Record::LNetStat(
        LNetStats::SendCount(
            LNetStat {
                nid: ni.nid.clone(),
                param: Param(String::from_str("send_count")),
                value: ni.statistics.send_count,
            },
        ),
    );
    let b = Record::LNetStat(
        LNetStats::RecvCount(
            LNetStat {
                nid: ni.nid.clone(),
                param: Param(String::from_str("recv_count")),
                value: ni.statistics.recv_count,
            },
        ),
    );
    let c = Record::LNetStat(
        LNetStats::DropCount(
            LNetStat {
                nid: ni.nid.clone(),
                param: Param(String::from_str("drop_count")),
                value: ni.statistics.drop_count,
            },
        ),
    );
    out.push(a);
    out.push(b);
    out.push(c);
    assert(records_view(out@) =~= records_view(before) + ni_records(*ni));
}

/// The send, receive and drop counts of each local interface of a network.
pub fn build_lnet_stats(x: &Net) -> (r: Vec<Record>)
    ensures
        records_view(r@) == nis_records(x.local_nis@),
{
    let mut out: Vec<Record> = Vec::new();
    let mut i: usize = 0;
    while i < x.local_nis.len()
        invariant
            i <= x.local_nis@.len(),
            records_view(out@) == nis_records(x.local_nis@.take(i as int)),
        decreases x.local_nis.len() - i,
    {
        proof {
            assert(x.local_nis@.take(i as int + 1).drop_last() =~= x.local_nis@.take(i as int));
        }
        push_ni_records(&mut out, &x.local_nis[i]);
        i = i + 1;
    }
    assert(x.local_nis@.take(x.local_nis@.len() as int) =~= x.local_nis@);
    out
}

/// The records of a network transport document: none where it has no network section.
pub fn lnet_stats_records(nets: &Option<Vec<Net>>) -> (r: Vec<Record>)
    ensures
        records_view(r@) == match nets {
            Some(v) => nets_records(v@),
            None => Seq::empty(),
        },
{
    let mut out: Vec<Record> = Vec::new();
    match nets {
        Some(v) => {
            let mut i: usize = 0;
            while i < v.len()
                invariant
                    i <= v@.len(),
                    records_view(out@) == nets_records(v@.take(i as int)),
                decreases v.len() - i,
            {
                proof {
                    assert(v@.take(i as int + 1).drop_last() =~= v@.take(i as int));
                }
                let mut more = build_lnet_stats(&v[i]);
                let ghost (a, b) = (out@, more@);
                out.append(&mut more);
                assert(records_view(out@) =~= records_view(a) + records_view(b));
                i = i + 1;
            }
            assert(v@.take(v@.len() as int) =~= v@);
        },
        None => {},
    }
    out
}

} // verus!
