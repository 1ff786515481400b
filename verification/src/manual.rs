//! A manual investigation: an extractor instance with volumes made from the
//! investigation's snapshots, attached as `/dev/xvdf`, `/dev/xvdg`, ...
use vstd::prelude::*;
use crate::error::ClaireError;
use crate::instance::{Instance, Volume};
use crate::text::{owned, push_char, same_text, views};

verus! {

/// The id of the extractor instance.
pub fn extractor_instance_id(extractor: &Instance) -> (r: Result<String, ClaireError>)
    ensures
        match extractor.instance_id {
            Some(id) => r == Ok::<String, ClaireError>(id),
            None => r matches Err(ClaireError::ExtractorMissingId),
        },
{
    match &extractor.instance_id {
        Some(id) => Ok(id.clone()),
        None => Err(ClaireError::ExtractorMissingId),
    }
}

/// The ids of the volumes that have one, in order.
pub open spec fn present_ids(vols: Seq<Volume>) -> Seq<Seq<char>>
    decreases vols.len(),
{
    if vols.len() == 0 {
        Seq::empty()
    } else {
        let rest = present_ids(vols.drop_last());
        match vols.last().volume_id {
            Some(id) => rest.push(id@),
            None => rest,
        }
    }
}

/// The ids of the created volumes; a volume without an id is left out.
pub fn created_volume_ids(vols: &Vec<Volume>) -> (r: Vec<String>)
    ensures
        views(r@) == present_ids(vols@),
{
    let mut r: Vec<String> = Vec::new();
    let mut i: usize = 0;
    while i < vols.len()
        invariant
            i <= vols.len(),
            views(r@) == present_ids(vols@.take(i as int)),
        decreases vols.len() - i,
    {
        let ghost before = r@;
        assert(vols@.take(i + 1).drop_last() =~= vols@.take(i as int));
        match &vols[i].volume_id {
            Some(id) => {
                r.push(id.clone());
                assert(views(r@) =~= views(before).push(vols@[i as int].volume_id->0@));
            },
            None => {},
        }
        i = i + 1;
    }
    assert(vols@.take(vols.len() as int) =~= vols@);
    r
}

/// The instance is running; an instance without a state, or with a state
/// without a name, gives an error.
pub fn instance_running(instance: &Instance) -> (r: Result<bool, ClaireError>)
    ensures
        match instance.state {
            None => r matches Err(ClaireError::InstanceMissingState),
            Some(st) => match st.name {
                None => r matches Err(ClaireError::InstanceStateMissingName),
                Some(n) => r == Ok::<bool, ClaireError>(n@ == "running"@),
            },
        },
{
    match &instance.state {
        None => Err(ClaireError::InstanceMissingState),
        Some(st) => match &st.name {
            None => Err(ClaireError::InstanceStateMissingName),
            Some(n) => Ok(same_text(n.as_str(), "running")),
        },
    }
}

/// Every volume whose state is known is available (volumes without a state
/// are not counted).
pub open spec fn all_available(vols: Seq<Volume>) -> bool {
    forall|i: int| 0 <= i < vols.len() ==> ((#[trigger] vols[i]).state matches Some(s) ==> s@ == "available"@)
}

/// The volumes are ready to be attached.
pub fn volumes_available(vols: &Vec<Volume>) -> (r: bool)
    ensures
        r == all_available(vols@),
        r <==> forall|i: int| 0 <= i < vols@.len() ==> ((#[trigger] vols@[i]).state matches Some(s) ==> s@ == "available"@),
{
    let mut ready = true;
    let mut i: usize = 0;
    while i < vols.len()
        invariant
            i <= vols.len(),
            ready == all_available(vols@.take(i as int)),
        decreases vols.len() - i,
    {
        let ok = match &vols[i].state {
            Some(s) => same_text(s.as_str(), "available"),
            None => true,
        };
        proof {
            let t = vols@.take(i + 1);
            assert(t[i as int] == vols@[i as int]);
            assert forall|k: int| 0 <= k < i implies #[trigger] t[k] == vols@.take(i as int)[k] by {}
        }
        ready = ready && ok;
        i = i + 1;
    }
    assert(vols@.take(vols.len() as int) =~= vols@);
    ready
}

/// A single volume is ready exactly when its state is unknown or `available`.
pub proof fn lemma_one_volume_available(v: Volume)
    ensures
        all_available(seq![v]) <==> (v.state matches Some(s) ==> s@ == "available"@),
        all_available(Seq::<Volume>::empty()),
{
    let one = seq![v];
    if !(v.state matches Some(s) ==> s@ == "available"@) {
        assert(one[0] == v);
    }
}

/// Volumes listed in two parts are ready exactly when both parts are: every
/// volume counts, wherever it stands in the list.
pub proof fn lemma_available_parts(a: Seq<Volume>, b: Seq<Volume>)
    ensures
        all_available(a + b) <==> all_available(a) && all_available(b),
{
    let ab = a + b;
    if all_available(ab) {
        assert forall|i: int| 0 <= i < a.len() implies (#[trigger] a[i]).state matches Some(s) ==> s@
            == "available"@ by {
            assert(ab[i] == a[i]);
        }
        assert forall|i: int| 0 <= i < b.len() implies (#[trigger] b[i]).state matches Some(s) ==> s@
            == "available"@ by {
            assert(ab[a.len() + i] == b[i]);
        }
    }
    if all_available(a) && all_available(b) {
        assert forall|i: int| 0 <= i < ab.len() implies (#[trigger] ab[i]).state matches Some(s) ==> s@
            == "available"@ by {
            if i < a.len() {
                assert(ab[i] == a[i]);
            } else {
                assert(ab[i] == b[i - a.len()]);
            }
        }
    }
}

/// The device at which the volume at position `i` is attached: `/dev/xvd`
/// followed by the letter `f` + `i`.
pub open spec fn device_name(i: int) -> Seq<char> {
    "/dev/xvd"@.push(((102 + i) as u8) as char)
}

/// At most this many volumes can be attached (the device letter is a byte).
pub open spec fn max_devices() -> int {
    154
}

/// The devices at which the volumes are attached, paired with the volumes,
/// in order.
pub fn device_assignments(volumes: &Vec<String>) -> (r: Vec<(String, String)>)
    requires
        volumes@.len() <= max_devices(),
    ensures
        r@.len() == volumes@.len(),
        forall|i: int|
            0 <= i < r@.len() ==> (#[trigger] r@[i]).0@ == device_name(i) && r@[i].1 == volumes@[i],
{
    let mut r: Vec<(String, String)> = Vec::new();
    let mut i: usize = 0;
    while i < volumes.len()
        invariant
            i <= volumes.len(),
            volumes@.len() <= max_devices(),
            r@.len() == i,
            forall|k: int|
                0 <= k < i ==> (#[trigger] r@[k]).0@ == device_name(k) && r@[k].1 == volumes@[k],
        decreases volumes.len() - i,
    {
        let letter: u8 = 102u8 + (i as u8);
        let mut device = owned("/dev/xvd");
        push_char(&mut device, letter as char);
        r.push((device, volumes[i].clone()));
        i = i + 1;
    }
    r
}

/// Distinct volumes are attached at distinct devices.
pub proof fn lemma_devices_distinct(i: int, j: int)
    requires
        0 <= i < max_devices(),
        0 <= j < max_devices(),
        i != j,
    ensures
        device_name(i) != device_name(j),
{
    let a = ((102 + i) as u8) as char;
    let b = ((102 + j) as u8) as char;
    reveal_strlit("/dev/xvd");
    assert(device_name(i)[8] == a);
    assert(device_name(j)[8] == b);
    assert((a as u32) == 102 + i);
    assert((b as u32) == 102 + j);
}

/// The public IP address of an instance.
pub fn public_ip(instance_id: &str, instance: &Instance) -> (r: Result<String, ClaireError>)
    ensures
        match instance.public_ip_address {
            Some(ip) => r == Ok::<String, ClaireError>(ip),
            None => r matches Err(ClaireError::NoPublicIp(i)) && i@ == instance_id@,
        },
{
    match &instance.public_ip_address {
        Some(ip) => Ok(ip.clone()),
        None => Err(ClaireError::NoPublicIp(owned(instance_id))),
    }
}

/// The wait for the extractor instance and its volumes: each is polled
/// until it is ready, and stays ready once it is.
#[derive(Debug, Clone, Copy)]
pub struct Readiness {
    pub instance_ready: bool,
    pub volumes_ready: bool,
}

impl Readiness {
    /// Nothing is ready yet.
    pub fn new() -> (r: Readiness)
        ensures
            !r.instance_ready,
            !r.volumes_ready,
    {
        Readiness { instance_ready: false, volumes_ready: false }
    }

    /// Both the instance and the volumes are ready: the wait is over.
    pub fn done(&self) -> (r: bool)
        ensures
            r == (self.instance_ready && self.volumes_ready),
    {
        self.instance_ready && self.volumes_ready
    }

    /// The instance is still to be polled.
    pub fn check_instance(&self) -> (r: bool)
        ensures
            r == !self.instance_ready,
    {
        !self.instance_ready
    }

    /// The volumes are still to be polled.
    pub fn check_volumes(&self) -> (r: bool)
        ensures
            r == !self.volumes_ready,
    {
        !self.volumes_ready
    }

    /// Records a poll of the instance; the result says whether it just became ready.
    pub fn record_instance(&mut self, ready: bool) -> (became: bool)
        ensures
            final(self).instance_ready == (old(self).instance_ready || ready),
            final(self).volumes_ready == old(self).volumes_ready,
            became == (!old(self).instance_ready && ready),
    {
        let became = !self.instance_ready && ready;
        self.instance_ready = self.instance_ready || ready;
        became
    }

    /// Records a poll of the volumes; the result says whether they just became ready.
    pub fn record_volumes(&mut self, ready: bool) -> (became: bool)
        ensures
            final(self).volumes_ready == (old(self).volumes_ready || ready),
            final(self).instance_ready == old(self).instance_ready,
            became == (!old(self).volumes_ready && ready),
    {
        let became = !self.volumes_ready && ready;
        self.volumes_ready = self.volumes_ready || ready;
        became
    }
}

} // verus!
