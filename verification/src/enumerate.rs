//! One-shot enumeration: read every currently attached device into a
//! [`DeviceRecord`] and apply an optional identifier filter.

use vstd::prelude::*;

use crate::device::read_device;
use crate::device::read_device_spec;
use crate::device::DeviceError;
use crate::device::DeviceRecord;
use crate::device::DeviceRecordView;
use crate::device::RawDevice;
use crate::device::RawDeviceView;

verus! {

/// The outcome of asking the platform driver for its device list: either a
/// snapshot of what each attached device reports, or the listing call itself
/// failed.
pub enum BusProbe {
    Ready(Vec<RawDevice>),
    Failed,
}

/// Mathematical image of a [`BusProbe`].
pub ghost enum BusProbeView {
    Ready(Seq<RawDeviceView>),
    Failed,
}

/// The view of a raw-device list, for stating contracts.
pub open spec fn raws_view(s: Seq<RawDevice>) -> Seq<RawDeviceView> {
    s.map_values(|raw: RawDevice| raw@)
}

impl View for BusProbe {
    type V = BusProbeView;

    open spec fn view(&self) -> BusProbeView {
        match self {
            BusProbe::Ready(raws) => BusProbeView::Ready(raws_view(raws@)),
            BusProbe::Failed => BusProbeView::Failed,
        }
    }
}

/// An identifier filter over an enumeration snapshot. Both fields are
/// independently optional; an absent field imposes no constraint, and the two
/// constraints combine conjunctively.
#[derive(Clone, Copy, Debug, PartialEq, Eq)]
pub struct FilterCriteria {
    pub product_id: Option<u16>,
    pub vendor_id: Option<u16>,
}

impl FilterCriteria {
    /// Builds the filter from the caller-facing signed 32-bit identifiers,
    /// each narrowed to the unsigned 16-bit value used for comparison.
    pub fn from_raw(pid: Option<i32>, vid: Option<i32>) -> (f: FilterCriteria)
        ensures
            f.product_id == (match pid {
                Some(p) => Some(p as u16),
                None => None::<u16>,
            }),
            f.vendor_id == (match vid {
                Some(v) => Some(v as u16),
                None => None::<u16>,
            }),
    {
        FilterCriteria {
            product_id: match pid {
                Some(p) => Some(#[verifier::truncate] (p as u16)),
                None => None,
            },
            vendor_id: match vid {
                Some(v) => Some(#[verifier::truncate] (v as u16)),
                None => None,
            },
        }
    }
}

/// Whether a record passes a filter: each present field must match the
/// record's corresponding identifier.
pub open spec fn matches_filter(d: DeviceRecordView, f: FilterCriteria) -> bool {
    &&& match f.product_id {
        Some(p) => d.product_id == p,
        None => true,
    }
    &&& match f.vendor_id {
        Some(v) => d.vendor_id == v,
        None => true,
    }
}

/// The subsequence of `s` that passes the filter, in the original order.
pub open spec fn filtered(s: Seq<DeviceRecordView>, f: FilterCriteria) -> Seq<DeviceRecordView>
    decreases s.len(),
{
    if s.len() == 0 {
        Seq::empty()
    } else {
        let pre = filtered(s.drop_last(), f);
        if matches_filter(s.last(), f) {
            pre.push(s.last())
        } else {
            pre
        }
    }
}

/// What enumerating a snapshot yields: every device read in the driver's
/// order, or the first per-device read failure. A single unreadable device
/// aborts the whole enumeration.
pub open spec fn enumerate_spec(raws: Seq<RawDeviceView>) -> Result<
    Seq<DeviceRecordView>,
    DeviceError,
>
    decreases raws.len(),
{
    if raws.len() == 0 {
        Ok(Seq::empty())
    } else {
        match enumerate_spec(raws.drop_last()) {
            Ok(pre) => match read_device_spec(raws.last()) {
                Ok(d) => Ok(pre.push(d)),
                Err(e) => Err(e),
            },
            Err(e) => Err(e),
        }
    }
}

/// What listing the bus yields: `EnumerationFailed` when the driver's listing
/// call itself failed, otherwise the enumeration of the snapshot.
pub open spec fn list_devices_spec(probe: BusProbeView) -> Result<
    Seq<DeviceRecordView>,
    DeviceError,
> {
    match probe {
        BusProbeView::Ready(raws) => enumerate_spec(raws),
        BusProbeView::Failed => Err(DeviceError::EnumerationFailed),
    }
}

/// The view of a record list, for stating contracts.
pub open spec fn records_view(s: Seq<DeviceRecord>) -> Seq<DeviceRecordView> {
    s.map_values(|d: DeviceRecord| d@)
}

/// The view of an enumeration result, for stating contracts.
pub open spec fn list_result_view(r: Result<Vec<DeviceRecord>, DeviceError>) -> Result<
    Seq<DeviceRecordView>,
    DeviceError,
> {
    match r {
        Ok(list) => Ok(records_view(list@)),
        Err(e) => Err(e),
    }
}

/// A read failure at index `i`, with every earlier device readable, settles
/// the whole enumeration: it yields exactly that error.
proof fn lemma_enumerate_error_propagates(raws: Seq<RawDeviceView>, i: int)
    requires
        0 <= i < raws.len(),
        enumerate_spec(raws.take(i)) is Ok,
        read_device_spec(raws[i]) is Err,
    ensures
        enumerate_spec(raws) == Err::<Seq<DeviceRecordView>, DeviceError>(
            read_device_spec(raws[i])->Err_0,
        ),
    decreases raws.len(),
{
    if i == raws.len() - 1 {
        assert(raws.take(i) =~= raws.drop_last());
    } else {
        assert(raws.drop_last().take(i) =~= raws.take(i));
        lemma_enumerate_error_propagates(raws.drop_last(), i);
    }
}

/// Lists every device of the snapshot in the driver's order. Fails with
/// `EnumerationFailed` when the driver's listing call itself failed, and with
/// the first per-device read error otherwise; a single unreadable device
/// aborts the whole enumeration.
pub fn get_device_list(probe: &BusProbe) -> (r: Result<Vec<DeviceRecord>, DeviceError>)
    ensures
        list_result_view(r) == list_devices_spec(probe@),
{
    let raws = match probe {
        BusProbe::Ready(raws) => raws,
        BusProbe::Failed => {
            return Err(DeviceError::EnumerationFailed);
        },
    };
    let ghost raws_v = raws_view(raws@);
    proof {
        assert(probe@ == BusProbeView::Ready(raws_v));
    }
    let mut list: Vec<DeviceRecord> = Vec::new();
    proof {
        assert(raws_v.take(0) =~= Seq::<RawDeviceView>::empty());
        assert(records_view(list@) =~= Seq::<DeviceRecordView>::empty());
    }
    let mut i: usize = 0;
    while i < raws.len()
        invariant
            i <= raws.len(),
            probe@ == BusProbeView::Ready(raws_v),
            raws_v == raws_view(raws@),
            raws_v.len() == raws@.len(),
            enumerate_spec(raws_v.take(i as int)) == Ok::<_, DeviceError>(records_view(list@)),
        decreases raws.len() - i,
    {
        proof {
            assert(raws_v[i as int] == raws@[i as int]@);
            assert(raws_v.take(i + 1).drop_last() =~= raws_v.take(i as int));
            assert(raws_v.take(i + 1).last() == raws_v[i as int]);
        }
        match read_device(&raws[i]) {
            Ok(d) => {
                let ghost pre = records_view(list@);
                list.push(d);
                proof {
                    assert(records_view(list@) =~= pre.push(d@));
                }
            },
            Err(e) => {
                proof {
                    assert(read_device_spec(raws_v[i as int]) == Err::<DeviceRecordView,
                        DeviceError,
                    >(e));
                    lemma_enumerate_error_propagates(raws_v, i as int);
                    assert(enumerate_spec(raws_v) == Err::<Seq<DeviceRecordView>, DeviceError>(e));
                    assert(probe@ == BusProbeView::Ready(raws_v));
                }
                return Err(e);
            },
        }
        i = i + 1;
    }
    proof {
        assert(raws_v.take(raws_v.len() as int) =~= raws_v);
    }
    Ok(list)
}

/// Retains, in order, exactly the records that pass the filter.
pub fn apply_filter(list: &Vec<DeviceRecord>, f: &FilterCriteria) -> (r: Vec<DeviceRecord>)
    ensures
        records_view(r@) == filtered(records_view(list@), *f),
{
    let ghost list_v = records_view(list@);
    let mut out: Vec<DeviceRecord> = Vec::new();
    proof {
        assert(list_v.take(0) =~= Seq::<DeviceRecordView>::empty());
        assert(records_view(out@) =~= Seq::<DeviceRecordView>::empty());
    }
    let mut i: usize = 0;
    while i < list.len()
        invariant
            i <= list.len(),
            list_v == records_view(list@),
            list_v.len() == list@.len(),
            records_view(out@) == filtered(list_v.take(i as int), *f),
        decreases list.len() - i,
    {
        let d = &list[i];
        let keep = (match f.product_id {
            Some(p) => d.product_id == p,
            None => true,
        }) && (match f.vendor_id {
            Some(v) => d.vendor_id == v,
            None => true,
        });
        proof {
            assert(list_v[i as int] == list@[i as int]@);
            assert(list_v.take(i + 1).drop_last() =~= list_v.take(i as int));
            assert(list_v.take(i + 1).last() == list_v[i as int]);
        }
        if keep {
            let ghost pre = records_view(out@);
            out.push(d.clone());
            proof {
                assert(records_view(out@) =~= pre.push(d@));
            }
        }
        i = i + 1;
    }
    proof {
        assert(list_v.take(list_v.len() as int) =~= list_v);
    }
    out
}

/// When enumeration is owed success, and what it then holds: it succeeds
/// exactly when every reported device is readable, and then yields one
/// record per device, each the reader's result, in the driver's order.
pub proof fn lemma_enumerate_success(raws: Seq<RawDeviceView>)
    ensures
        enumerate_spec(raws) is Ok <==> (forall|i: int|
            0 <= i < raws.len() ==> #[trigger] read_device_spec(raws[i]) is Ok),
        enumerate_spec(raws) is Ok ==> enumerate_spec(raws)->Ok_0.len() == raws.len(),
        enumerate_spec(raws) is Ok ==> forall|i: int|
            0 <= i < raws.len() ==> #[trigger] enumerate_spec(raws)->Ok_0[i]
                == read_device_spec(raws[i])->Ok_0,
    decreases raws.len(),
{
    if raws.len() == 0 {
    } else {
        lemma_enumerate_success(raws.drop_last());
        assert forall|i: int| 0 <= i < raws.drop_last().len() implies raws.drop_last()[i]
            == raws[i] by {}
        if enumerate_spec(raws) is Ok {
            assert forall|i: int| 0 <= i < raws.len() implies #[trigger] read_device_spec(
                raws[i],
            ) is Ok by {
                if i < raws.len() - 1 {
                    assert(read_device_spec(raws.drop_last()[i]) is Ok);
                }
            }
        }
        if forall|i: int| 0 <= i < raws.len() ==> #[trigger] read_device_spec(raws[i]) is Ok {
            assert(read_device_spec(raws.last()) is Ok);
        }
    }
}

/// A filter over the product identifier alone.
pub open spec fn pid_filter(p: u16) -> FilterCriteria {
    FilterCriteria { product_id: Some(p), vendor_id: None }
}

/// A filter over the vendor identifier alone.
pub open spec fn vid_filter(v: u16) -> FilterCriteria {
    FilterCriteria { product_id: None, vendor_id: Some(v) }
}

/// A filter over both identifiers.
pub open spec fn both_filter(p: u16, v: u16) -> FilterCriteria {
    FilterCriteria { product_id: Some(p), vendor_id: Some(v) }
}

/// A filtered sequence holds exactly the records of the original that pass
/// the filter.
pub proof fn lemma_filtered_contains(s: Seq<DeviceRecordView>, f: FilterCriteria, d: DeviceRecordView)
    ensures
        filtered(s, f).contains(d) <==> s.contains(d) && matches_filter(d, f),
    decreases s.len(),
{
    if s.len() == 0 {
    } else {
        lemma_filtered_contains(s.drop_last(), f, d);
        let pre = filtered(s.drop_last(), f);
        if filtered(s, f).contains(d) {
            let i = choose|i: int| 0 <= i < filtered(s, f).len() && filtered(s, f)[i] == d;
            if matches_filter(s.last(), f) && i == filtered(s, f).len() - 1 {
                assert(s.contains(d)) by {
                    assert(s[s.len() - 1] == d);
                }
            } else {
                assert(pre[i] == d);
                assert(pre.contains(d));
                assert(s.drop_last().contains(d));
                let j = choose|j: int|
                    0 <= j < s.drop_last().len() && s.drop_last()[j] == d;
                assert(s[j] == d);
            }
        }
        if s.contains(d) && matches_filter(d, f) {
            let i = choose|i: int| 0 <= i < s.len() && s[i] == d;
            if i == s.len() - 1 {
                assert(filtered(s, f)[filtered(s, f).len() - 1] == d);
            } else {
                assert(s.drop_last()[i] == d);
                assert(s.drop_last().contains(d));
                let j = choose|j: int| 0 <= j < pre.len() && pre[j] == d;
                assert(filtered(s, f)[j] == d);
            }
        }
    }
}

/// Filtering is conjunctive and commutative: filtering by both identifiers
/// at once is filtering by one and then the other, in either order, and a
/// record survives the conjunctive filter exactly when it survives each
/// single-identifier filter.
pub proof fn lemma_filter_conjunctive_commutative(s: Seq<DeviceRecordView>, p: u16, v: u16)
    ensures
        filtered(filtered(s, pid_filter(p)), vid_filter(v)) == filtered(s, both_filter(p, v)),
        filtered(filtered(s, vid_filter(v)), pid_filter(p)) == filtered(s, both_filter(p, v)),
        forall|d: DeviceRecordView|
            #[trigger] filtered(s, both_filter(p, v)).contains(d) <==> filtered(
                s,
                pid_filter(p),
            ).contains(d) && filtered(s, vid_filter(v)).contains(d),
{
    lemma_filtered_compose(s, pid_filter(p), vid_filter(v), both_filter(p, v));
    lemma_filtered_compose(s, vid_filter(v), pid_filter(p), both_filter(p, v));
    assert forall|d: DeviceRecordView|
        #[trigger] filtered(s, both_filter(p, v)).contains(d) <==> filtered(
            s,
            pid_filter(p),
        ).contains(d) && filtered(s, vid_filter(v)).contains(d) by {
        lemma_filtered_contains(s, both_filter(p, v), d);
        lemma_filtered_contains(s, pid_filter(p), d);
        lemma_filtered_contains(s, vid_filter(v), d);
    }
}

/// Filtering by `a` and then by `b` is one pass with their conjunction `ab`.
proof fn lemma_filtered_compose(
    s: Seq<DeviceRecordView>,
    a: FilterCriteria,
    b: FilterCriteria,
    ab: FilterCriteria,
)
    requires
        forall|d: DeviceRecordView|
            #[trigger] matches_filter(d, ab) <==> matches_filter(d, a) && matches_filter(d, b),
    ensures
        filtered(filtered(s, a), b) == filtered(s, ab),
    decreases s.len(),
{
    if s.len() == 0 {
    } else {
        lemma_filtered_compose(s.drop_last(), a, b, ab);
        let fa = filtered(s.drop_last(), a);
        if matches_filter(s.last(), a) {
            assert(fa.push(s.last()).drop_last() =~= fa);
            assert(fa.push(s.last()).last() == s.last());
        }
    }
}

/// The order of the two identifier filters does not affect a query: asking
/// with both at once equals asking with one and post-filtering by the other,
/// either way around.
pub proof fn lemma_find_filter_order_irrelevant(probe: BusProbeView, p: u16, v: u16)
    ensures
        find_devices_spec(probe, Some(both_filter(p, v))) == (match find_devices_spec(
            probe,
            Some(pid_filter(p)),
        ) {
            Ok(recs) => Ok(filtered(recs, vid_filter(v))),
            Err(e) => Err(e),
        }),
        find_devices_spec(probe, Some(both_filter(p, v))) == (match find_devices_spec(
            probe,
            Some(vid_filter(v)),
        ) {
            Ok(recs) => Ok(filtered(recs, pid_filter(p))),
            Err(e) => Err(e),
        }),
{
    match list_devices_spec(probe) {
        Ok(recs) => {
            lemma_filter_conjunctive_commutative(recs, p, v);
        },
        Err(_) => {},
    }
}

/// What a one-shot query yields: the enumeration snapshot, filtered when a
/// filter was given.
pub open spec fn find_devices_spec(probe: BusProbeView, filter: Option<FilterCriteria>) -> Result<
    Seq<DeviceRecordView>,
    DeviceError,
> {
    match list_devices_spec(probe) {
        Ok(recs) => Ok(
            match filter {
                Some(f) => filtered(recs, f),
                None => recs,
            },
        ),
        Err(e) => Err(e),
    }
}

/// A one-shot query: a fresh enumeration pass over the snapshot, with the
/// optional identifier filter applied as a post-pass.
pub fn find_devices(probe: &BusProbe, filter: &Option<FilterCriteria>) -> (r: Result<
    Vec<DeviceRecord>,
    DeviceError,
>)
    ensures
        list_result_view(r) == find_devices_spec(probe@, *filter),
{
    let list = match get_device_list(probe) {
        Ok(list) => list,
        Err(e) => {
            return Err(e);
        },
    };
    match filter {
        Some(f) => Ok(apply_filter(&list, f)),
        None => Ok(list),
    }
}

} // verus!
