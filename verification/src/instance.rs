//! EC2 instances, volumes and instance-profile associations as the EC2 API
//! describes them, and what is read from those descriptions.
use vstd::prelude::*;
use crate::error::ClaireError;
use crate::tag::{keep, Resource};
use crate::text::{json_quoted, json_string, join, joined, owned, same_text, views};

verus! {

/// A key/value tag.
#[derive(Debug, Clone)]
pub struct Tag {
    pub key: Option<String>,
    pub value: Option<String>,
}

/// Where an instance runs.
#[derive(Debug, Clone)]
pub struct Placement {
    pub availability_zone: Option<String>,
}

/// The state of an instance.
#[derive(Debug, Clone)]
pub struct InstanceState {
    pub name: Option<String>,
}

/// The instance profile attached to an instance.
#[derive(Debug, Clone)]
pub struct IamInstanceProfile {
    pub arn: Option<String>,
}

/// A security group that an instance belongs to.
#[derive(Debug, Clone)]
pub struct GroupIdentifier {
    pub group_id: Option<String>,
}

/// What is read of an EC2 instance.
#[derive(Debug, Clone)]
pub struct Instance {
    pub instance_id: Option<String>,
    pub vpc_id: Option<String>,
    pub placement: Option<Placement>,
    pub state: Option<InstanceState>,
    pub public_ip_address: Option<String>,
    pub tags: Option<Vec<Tag>>,
    pub iam_instance_profile: Option<IamInstanceProfile>,
    pub security_groups: Option<Vec<GroupIdentifier>>,
}

/// A reservation: the instances launched together.
#[derive(Debug, Clone)]
pub struct Reservation {
    pub instances: Option<Vec<Instance>>,
}

/// An EBS volume.
#[derive(Debug, Clone)]
pub struct Volume {
    pub volume_id: Option<String>,
    pub state: Option<String>,
}

/// The association of an instance profile with an instance.
#[derive(Debug, Clone)]
pub struct IamInstanceProfileAssociation {
    pub association_id: Option<String>,
}

/// The first instance of the first reservation, if there is one.
pub open spec fn first_instance_of(reservations: Option<Vec<Reservation>>) -> Option<Instance> {
    match reservations {
        Some(rs) => if rs@.len() > 0 {
            match rs@[0].instances {
                Some(is) => if is@.len() > 0 {
                    Some(is@[0])
                } else {
                    None
                },
                None => None,
            }
        } else {
            None
        },
        None => None,
    }
}

/// The first instance of the first reservation of a `DescribeInstances` answer.
pub fn first_instance(reservations: Option<Vec<Reservation>>) -> (r: Option<Instance>)
    ensures
        r == first_instance_of(reservations),
{
    match reservations {
        Some(mut rs) => {
            if rs.len() == 0 {
                return None;
            }
            let first = rs.remove(0);
            match first.instances {
                Some(mut is) => {
                    if is.len() == 0 {
                        None
                    } else {
                        Some(is.remove(0))
                    }
                },
                None => None,
            }
        },
        None => None,
    }
}

/// The instance described for `instance_id`; none gives `InstanceNotFound`.
pub fn get_instance(instance_id: &str, reservations: Option<Vec<Reservation>>) -> (r: Result<
    Instance,
    ClaireError,
>)
    ensures
        match first_instance_of(reservations) {
            Some(i) => r == Ok::<Instance, ClaireError>(i),
            None => r matches Err(ClaireError::InstanceNotFound(id)) && id@ == instance_id@,
        },
{
    match first_instance(reservations) {
        Some(i) => Ok(i),
        None => Err(ClaireError::InstanceNotFound(owned(instance_id))),
    }
}

/// The tag has the given key.
pub open spec fn tag_has_key(t: Tag, key: Seq<char>) -> bool {
    t.key matches Some(k) && k@ == key
}

/// Index of the first tag with the given key (or the number of tags).
pub open spec fn first_tag(tags: Seq<Tag>, key: Seq<char>, from: int) -> int
    decreases tags.len() - from,
{
    if from >= tags.len() || from < 0 {
        tags.len() as int
    } else if tag_has_key(tags[from], key) {
        from
    } else {
        first_tag(tags, key, from + 1)
    }
}

/// Index of the first tag with the given key.
pub fn find_tag(tags: &Vec<Tag>, key: &str) -> (r: usize)
    ensures
        r == first_tag(tags@, key@, 0),
        r <= tags@.len(),
{
    let mut i: usize = 0;
    while i < tags.len()
        invariant
            i <= tags.len(),
            first_tag(tags@, key@, 0) == first_tag(tags@, key@, i as int),
        decreases tags.len() - i,
    {
        let hit = match &tags[i].key {
            Some(k) => same_text(k.as_str(), key),
            None => false,
        };
        if hit {
            return i;
        }
        i = i + 1;
    }
    i
}

/// The investigation id carried by an instance's tags: the value of its
/// first `InvestigationId` tag.
pub fn investigation_id_from_tags(instance_id: &str, tags: Option<Vec<Tag>>) -> (r: Result<
    String,
    ClaireError,
>)
    ensures
        match tags {
            None => r matches Err(ClaireError::InstanceNotTagged(i)) && i@ == instance_id@,
            Some(ts) => {
                let k = first_tag(ts@, "InvestigationId"@, 0);
                if k < ts@.len() {
                    match ts@[k].value {
                        Some(v) => r == Ok::<String, ClaireError>(v),
                        None => r matches Err(ClaireError::InvestigationIdNotSet),
                    }
                } else {
                    r matches Err(ClaireError::NoInvestigationForInstance(i)) && i@ == instance_id@
                }
            },
        },
{
    match tags {
        None => Err(ClaireError::InstanceNotTagged(owned(instance_id))),
        Some(ts) => {
            let k = find_tag(&ts, "InvestigationId");
            if k < ts.len() {
                match &ts[k].value {
                    Some(v) => Ok(v.clone()),
                    None => Err(ClaireError::InvestigationIdNotSet),
                }
            } else {
                Err(ClaireError::NoInvestigationForInstance(owned(instance_id)))
            }
        },
    }
}

/// The investigation id of the first instance in a `DescribeInstances` answer.
pub fn investigation_id_of(instance_id: &str, reservations: Option<Vec<Reservation>>) -> (r: Result<
    String,
    ClaireError,
>)
    ensures
        first_instance_of(reservations) is None ==> (r matches Err(ClaireError::InstanceNotTagged(i))
            && i@ == instance_id@),
        first_instance_of(reservations) matches Some(inst) ==> (inst.tags is None ==> (r matches Err(
            ClaireError::InstanceNotTagged(i),
        ) && i@ == instance_id@)),
        first_instance_of(reservations) matches Some(inst) ==> (inst.tags matches Some(ts) ==> {
            let k = first_tag(ts@, "InvestigationId"@, 0);
            if k < ts@.len() {
                match ts@[k].value {
                    Some(v) => r == Ok::<String, ClaireError>(v),
                    None => r matches Err(ClaireError::InvestigationIdNotSet),
                }
            } else {
                r matches Err(ClaireError::NoInvestigationForInstance(i)) && i@ == instance_id@
            }
        }),
{
    let tags = match first_instance(reservations) {
        Some(i) => i.tags,
        None => None,
    };
    investigation_id_from_tags(instance_id, tags)
}

/// A volume to create: where, and from which snapshot.
#[derive(Debug, Clone)]
pub struct VolumeRequest {
    pub availability_zone: String,
    pub snapshot_id: String,
}

/// The availability zone of an instance.
pub open spec fn zone_of(instance: Instance) -> Option<String> {
    match instance.placement {
        Some(p) => p.availability_zone,
        None => None,
    }
}

/// The volumes to create for an instance from snapshots: one per snapshot,
/// in order, in the instance's availability zone. Without snapshots nothing
/// is asked of the instance; with some, an instance without a zone gives
/// `MissingAvailabilityZone`.
pub fn volume_requests(instance: &Instance, snapshots: &Vec<Resource>) -> (r: Result<
    Vec<VolumeRequest>,
    ClaireError,
>)
    ensures
        snapshots@.len() == 0 ==> (r matches Ok(v) && v@.len() == 0),
        snapshots@.len() > 0 && zone_of(*instance) is None ==> (r matches Err(
            ClaireError::MissingAvailabilityZone,
        )),
        snapshots@.len() > 0 ==> (zone_of(*instance) matches Some(z) ==> (r matches Ok(v) && v@.len()
            == snapshots@.len() && forall|i: int|
            0 <= i < v@.len() ==> (#[trigger] v@[i]).availability_zone@ == z@
                && v@[i].snapshot_id@ == snapshots@[i].id@)),
{
    let mut v: Vec<VolumeRequest> = Vec::new();
    if snapshots.len() == 0 {
        return Ok(v);
    }
    let zone = match &instance.placement {
        Some(p) => match &p.availability_zone {
            Some(z) => z,
            None => {
                return Err(ClaireError::MissingAvailabilityZone);
            },
        },
        None => {
            return Err(ClaireError::MissingAvailabilityZone);
        },
    };
    let mut i: usize = 0;
    while i < snapshots.len()
        invariant
            i <= snapshots.len(),
            v@.len() == i,
            forall|k: int|
                0 <= k < i ==> (#[trigger] v@[k]).availability_zone@ == zone@ && v@[k].snapshot_id@
                    == snapshots@[k].id@,
        decreases snapshots.len() - i,
    {
        v.push(VolumeRequest { availability_zone: zone.clone(), snapshot_id: snapshots[i].id.clone() });
        i = i + 1;
    }
    Ok(v)
}

/// The volumes described for the given ids; an answer without a list gives
/// `NoVolumes` with the ids joined by `, `.
pub fn described_volumes(volume_ids: &Vec<String>, volumes: Option<Vec<Volume>>) -> (r: Result<
    Vec<Volume>,
    ClaireError,
>)
    ensures
        match volumes {
            Some(v) => r == Ok::<Vec<Volume>, ClaireError>(v),
            None => r matches Err(ClaireError::NoVolumes(ids)) && ids@ == joined(views(volume_ids@), ", "@),
        },
{
    match volumes {
        Some(v) => Ok(v),
        None => Err(ClaireError::NoVolumes(join(volume_ids, ", "))),
    }
}

/// The first profile association described for an instance.
pub fn first_association(
    instance_id: &str,
    associations: Option<Vec<IamInstanceProfileAssociation>>,
) -> (r: Result<IamInstanceProfileAssociation, ClaireError>)
    ensures
        match associations {
            None => r matches Err(ClaireError::NoProfileAssociations(i)) && i@ == instance_id@,
            Some(a) => if a@.len() > 0 {
                r == Ok::<IamInstanceProfileAssociation, ClaireError>(a@[0])
            } else {
                r matches Err(ClaireError::NoFirstProfileAssociation)
            },
        },
{
    match associations {
        None => Err(ClaireError::NoProfileAssociations(owned(instance_id))),
        Some(mut a) => {
            if a.len() > 0 {
                Ok(a.remove(0))
            } else {
                Err(ClaireError::NoFirstProfileAssociation)
            }
        },
    }
}

/// The payload sent to the lambda that creates an evidence extractor, as
/// compact JSON with its keys in sorted order (the text `serde_json` writes
/// for it when built without its `preserve_order` feature).
pub open spec fn extractor_payload_text(investigation_id: Seq<char>, key_name: Seq<char>) -> Seq<char> {
    "{\"investigation_id\":"@ + json_quoted(investigation_id) + ",\"key_name\":"@ + json_quoted(
        key_name,
    ) + "}"@
}

/// The payload sent to the lambda that creates an evidence extractor.
pub fn extractor_payload(investigation_id: &str, key_name: &str) -> (r: String)
    ensures
        r@ == extractor_payload_text(investigation_id@, key_name@),
{
    let mut r = owned("{\"investigation_id\":");
    let id = json_string(investigation_id);
    r.append(id.as_str());
    r.append(",\"key_name\":");
    let key = json_string(key_name);
    r.append(key.as_str());
    r.append("}");
    r
}

/// What the create-extractor lambda answered: the JSON text of its
/// `errorMessage` member, its `extractor_id` member (`Some(None)` when that
/// member is not a string), and the JSON text of the whole answer.
#[derive(Debug, Clone)]
pub struct LambdaReply {
    pub error_message: Option<String>,
    pub extractor_id: Option<Option<String>>,
    pub body: String,
}

/// The id of the extractor instance that the lambda created.
pub fn extractor_id_from_reply(reply: Option<LambdaReply>) -> (r: Result<String, ClaireError>)
    ensures
        match reply {
            None => r matches Err(ClaireError::NoExtractorResponse),
            Some(rep) => match rep.error_message {
                Some(m) => r == Err::<String, ClaireError>(ClaireError::CreateInstanceFailed(m)),
                None => match rep.extractor_id {
                    Some(Some(id)) => r == Ok::<String, ClaireError>(id),
                    Some(None) => r matches Err(ClaireError::ExtractorIdNotText),
                    None => r == Err::<String, ClaireError>(
                        ClaireError::UnexpectedExtractorResponse(rep.body),
                    ),
                },
            },
        },
{
    match reply {
        None => Err(ClaireError::NoExtractorResponse),
        Some(rep) => match rep.error_message {
            Some(m) => Err(ClaireError::CreateInstanceFailed(m)),
            None => match rep.extractor_id {
                Some(Some(id)) => Ok(id),
                Some(None) => Err(ClaireError::ExtractorIdNotText),
                None => Err(ClaireError::UnexpectedExtractorResponse(rep.body)),
            },
        },
    }
}

/// What `serde_json::from_slice` reads of the create-extractor reply:
/// nothing when the bytes are not JSON; otherwise the JSON text of its
/// `errorMessage` member, its `extractor_id` member as text (`Some(None)`
/// when that member is not a string), and the JSON text of the whole reply.
pub uninterp spec fn read_reply(payload: Seq<u8>) -> Option<
    (Option<Seq<char>>, Option<Option<Seq<char>>>, Seq<char>),
>;

/// The view of an optional text.
pub open spec fn opt_text(t: Option<String>) -> Option<Seq<char>> {
    match t {
        Some(s) => Some(s@),
        None => None,
    }
}

/// The view of an optional member that may not be text.
pub open spec fn opt_member_text(t: Option<Option<String>>) -> Option<Option<Seq<char>>> {
    match t {
        Some(m) => Some(opt_text(m)),
        None => None,
    }
}

/// Calls `serde_json::from_slice` on the reply payload and reads the
/// members that decide the outcome (`Value::get`, `Value::as_str`,
/// `Value::to_string`). The contract names what is read `read_reply`;
/// which bytes are JSON is left to `serde_json`.
#[verifier::external_body]
pub fn parse_reply(payload: &[u8]) -> (r: Option<LambdaReply>)
    ensures
        match (r, read_reply(payload@)) {
            (None, None) => true,
            (Some(rep), Some(t)) => opt_text(rep.error_message) == t.0 && opt_member_text(rep.extractor_id)
                == t.1 && rep.body@ == t.2,
            _ => false,
        },
{
    match serde_json::from_slice::<serde_json::Value>(payload) {
        Ok(v) => Some(LambdaReply {
            error_message: v.get("errorMessage").map(|e| e.to_string()),
            extractor_id: v.get("extractor_id").map(|id| id.as_str().map(|s| s.to_string())),
            body: v.to_string(),
        }),
        Err(_) => None,
    }
}

/// The id of the extractor instance, from the payload that the
/// create-extractor lambda returned: no payload gives `NoExtractorResponse`,
/// a payload that is not JSON `ReplyNotJson`; then a reported error gives
/// `CreateInstanceFailed` with its JSON text, a string `extractor_id` is the
/// id, another `extractor_id` gives `ExtractorIdNotText`, and a reply with
/// neither gives `UnexpectedExtractorResponse` with the reply's JSON text.
pub fn extractor_id_from_payload(payload: Option<Vec<u8>>) -> (r: Result<String, ClaireError>)
    ensures
        match payload {
            None => r matches Err(ClaireError::NoExtractorResponse),
            Some(p) => match read_reply(p@) {
                None => r matches Err(ClaireError::ReplyNotJson),
                Some(t) => match t.0 {
                    Some(m) => r matches Err(ClaireError::CreateInstanceFailed(x)) && x@ == m,
                    None => match t.1 {
                        Some(Some(id)) => r matches Ok(x) && x@ == id,
                        Some(None) => r matches Err(ClaireError::ExtractorIdNotText),
                        None => r matches Err(ClaireError::UnexpectedExtractorResponse(b)) && b@ == t.2,
                    },
                },
            },
        },
{
    match payload {
        None => Err(ClaireError::NoExtractorResponse),
        Some(p) => match parse_reply(p.as_slice()) {
            None => Err(ClaireError::ReplyNotJson),
            Some(rep) => extractor_id_from_reply(Some(rep)),
        },
    }
}

} // verus!
