//! Containing an instance and revoking what it may have leaked: the locked
//! down security group, the removed instance profile, and the IAM policies
//! that deny the instance's tokens.
use vstd::prelude::*;
use crate::error::ClaireError;
use crate::instance::{find_tag, first_tag, tag_has_key, GroupIdentifier, IamInstanceProfileAssociation, Instance, Tag};
use crate::text::{
    concat_str, find_char, find_from, join, joined, json_quoted, json_string, lemma_find_from_bounds, owned,
    slice, views,
};

verus! {

/// A security group as `DescribeSecurityGroups` shows it.
#[derive(Debug, Clone)]
pub struct SecurityGroup {
    pub group_id: Option<String>,
    pub group_name: Option<String>,
}

/// The one security group that matched `name`: no answer list gives
/// `NoSecurityGroups`, several groups give `MultipleSecurityGroups`, an
/// empty list gives `FirstSecurityGroupNotSet`.
pub fn single_security_group(name: &str, groups: Option<Vec<SecurityGroup>>) -> (r: Result<
    SecurityGroup,
    ClaireError,
>)
    ensures
        match groups {
            None => r matches Err(ClaireError::NoSecurityGroups(n)) && n@ == name@,
            Some(g) => if g@.len() > 1 {
                r matches Err(ClaireError::MultipleSecurityGroups(n, all)) && n@ == name@ && all == g
            } else if g@.len() == 1 {
                r == Ok::<SecurityGroup, ClaireError>(g@[0])
            } else {
                r matches Err(ClaireError::FirstSecurityGroupNotSet)
            },
        },
{
    match groups {
        None => Err(ClaireError::NoSecurityGroups(owned(name))),
        Some(mut g) => {
            if g.len() > 1 {
                Err(ClaireError::MultipleSecurityGroups(owned(name), g))
            } else if g.len() == 1 {
                Ok(g.remove(0))
            } else {
                Err(ClaireError::FirstSecurityGroupNotSet)
            }
        },
    }
}

/// The id of the `claire_locked_down` security group.
pub fn locked_group_id(group: &SecurityGroup) -> (r: Result<String, ClaireError>)
    ensures
        match group.group_id {
            Some(id) => r == Ok::<String, ClaireError>(id),
            None => r matches Err(ClaireError::LockedGroupMissingId),
        },
{
    match &group.group_id {
        Some(id) => Ok(id.clone()),
        None => Err(ClaireError::LockedGroupMissingId),
    }
}

/// The instance to isolate and its VPC; the id is checked first.
pub fn isolation_target(instance: &Instance) -> (r: Result<(String, String), ClaireError>)
    ensures
        match (instance.instance_id, instance.vpc_id) {
            (None, _) => r matches Err(ClaireError::InstanceMissingId),
            (Some(_), None) => r matches Err(ClaireError::InstanceMissingVpcId),
            (Some(i), Some(v)) => r == Ok::<(String, String), ClaireError>((i, v)),
        },
{
    let id = match &instance.instance_id {
        Some(i) => i.clone(),
        None => {
            return Err(ClaireError::InstanceMissingId);
        },
    };
    let vpc = match &instance.vpc_id {
        Some(v) => v.clone(),
        None => {
            return Err(ClaireError::InstanceMissingVpcId);
        },
    };
    Ok((id, vpc))
}

/// The ids of the groups that have one, in order.
pub open spec fn present_group_ids(groups: Seq<GroupIdentifier>) -> Seq<Seq<char>>
    decreases groups.len(),
{
    if groups.len() == 0 {
        Seq::empty()
    } else {
        let rest = present_group_ids(groups.drop_last());
        match groups.last().group_id {
            Some(id) => rest.push(id@),
            None => rest,
        }
    }
}

/// The ids of a single group: its id when it has one, none otherwise; no
/// groups have no ids.
pub proof fn lemma_present_group_ids_one(g: GroupIdentifier)
    ensures
        present_group_ids(seq![g]) == (match g.group_id {
            Some(id) => seq![id@],
            None => Seq::<Seq<char>>::empty(),
        }),
        present_group_ids(Seq::<GroupIdentifier>::empty()) == Seq::<Seq<char>>::empty(),
{
    let one = seq![g];
    assert(one.drop_last() =~= Seq::<GroupIdentifier>::empty());
    assert(one.last() == g);
    assert(present_group_ids(one.drop_last()) == Seq::<Seq<char>>::empty());
    match g.group_id {
        Some(id) => {
            assert(Seq::<Seq<char>>::empty().push(id@) =~= seq![id@]);
        },
        None => {},
    }
}

/// The ids of groups listed in two parts are the ids of the first part
/// followed by those of the second: every group with an id contributes it,
/// in the instance's order, and none is skipped.
pub proof fn lemma_present_group_ids_parts(a: Seq<GroupIdentifier>, b: Seq<GroupIdentifier>)
    ensures
        present_group_ids(a + b) == present_group_ids(a) + present_group_ids(b),
    decreases b.len(),
{
    if b.len() == 0 {
        assert(a + b =~= a);
        assert(present_group_ids(a) + present_group_ids(b) =~= present_group_ids(a));
    } else {
        assert((a + b).drop_last() =~= a + b.drop_last());
        assert((a + b).last() == b.last());
        lemma_present_group_ids_parts(a, b.drop_last());
        match b.last().group_id {
            Some(id) => {
                assert(present_group_ids(a) + present_group_ids(b.drop_last()).push(id@) =~= (
                present_group_ids(a) + present_group_ids(b.drop_last())).push(id@));
            },
            None => {},
        }
    }
}

/// The value of the `claire_removed_groups` tag that records the groups an
/// isolated instance had: their ids joined by `,` (groups without an id are
/// left out); nothing is recorded when the instance lists no groups.
pub fn removed_groups_tag(instance: &Instance) -> (r: Option<String>)
    ensures
        match instance.security_groups {
            None => r is None,
            Some(g) => r matches Some(t) && t@ == joined(present_group_ids(g@), ","@),
        },
{
    match &instance.security_groups {
        None => None,
        Some(groups) => {
            let mut ids: Vec<String> = Vec::new();
            let mut i: usize = 0;
            while i < groups.len()
                invariant
                    i <= groups.len(),
                    views(ids@) == present_group_ids(groups@.take(i as int)),
                decreases groups.len() - i,
            {
                let ghost before = ids@;
                assert(groups@.take(i + 1).drop_last() =~= groups@.take(i as int));
                match &groups[i].group_id {
                    Some(id) => {
                        ids.push(id.clone());
                        assert(views(ids@) =~= views(before).push(groups@[i as int].group_id->0@));
                    },
                    None => {},
                }
                i = i + 1;
            }
            assert(groups@.take(groups.len() as int) =~= groups@);
            Some(join(&ids, ","))
        },
    }
}

/// The name of a profile in its ARN: everything after the first `/`.
pub open spec fn profile_name(arn: Seq<char>) -> Seq<char> {
    arn.subrange(find_from(arn, '/', 0) + 1, arn.len() as int)
}

/// The name read from an ARN is exactly what follows its first `/`: the
/// ARN is a part without `/`, then `/`, then the name.
pub proof fn lemma_profile_name_follows_first_slash(arn: Seq<char>)
    requires
        find_from(arn, '/', 0) < arn.len(),
    ensures
        arn == arn.subrange(0, find_from(arn, '/', 0)) + seq!['/'] + profile_name(arn),
        !arn.subrange(0, find_from(arn, '/', 0)).contains('/'),
{
    lemma_find_from_bounds(arn, '/', 0);
    let k = find_from(arn, '/', 0);
    assert(arn =~= arn.subrange(0, k) + seq!['/'] + profile_name(arn));
    assert forall|i: int| 0 <= i < k implies arn.subrange(0, k)[i] != '/' by {
        assert(arn.subrange(0, k)[i] == arn[i]);
    }
}

/// The instance profile to remove from an instance, by name; nothing when
/// the instance has no profile.
pub fn profile_to_remove(instance: &Instance) -> (r: Result<Option<String>, ClaireError>)
    ensures
        match instance.iam_instance_profile {
            None => r == Ok::<Option<String>, ClaireError>(None),
            Some(p) => match p.arn {
                None => r matches Err(ClaireError::ProfileMissingArn),
                Some(arn) => if find_from(arn@, '/', 0) < arn@.len() {
                    r matches Ok(Some(n)) && n@ == profile_name(arn@)
                } else {
                    r matches Err(ClaireError::ProfileArnMissingSlash)
                },
            },
        },
{
    let profile = match &instance.iam_instance_profile {
        None => {
            return Ok(None);
        },
        Some(p) => p,
    };
    let arn = match &profile.arn {
        None => {
            return Err(ClaireError::ProfileMissingArn);
        },
        Some(a) => a,
    };
    proof {
        lemma_find_from_bounds(arn@, '/', 0);
    }
    let n = arn.unicode_len();
    let slash = find_char(arn.as_str(), '/', 0);
    if slash == n {
        return Err(ClaireError::ProfileArnMissingSlash);
    }
    Ok(Some(slice(arn.as_str(), slash + 1, n)))
}

/// The id of a profile association.
pub fn association_id(assoc: &IamInstanceProfileAssociation) -> (r: Result<String, ClaireError>)
    ensures
        match assoc.association_id {
            Some(id) => r == Ok::<String, ClaireError>(id),
            None => r matches Err(ClaireError::ProfileAssociationMissingId),
        },
{
    match &assoc.association_id {
        Some(id) => Ok(id.clone()),
        None => Err(ClaireError::ProfileAssociationMissingId),
    }
}

/// The key of the tag that records a removed instance profile.
pub open spec fn removed_profile_key() -> Seq<char> {
    "claire_removed_profile"@
}

/// The profile that was removed from an instance, from its
/// `claire_removed_profile` tag (the first one).
pub fn removed_profile(tags: Option<Vec<Tag>>) -> (r: Result<String, ClaireError>)
    ensures
        match tags {
            None => r matches Err(ClaireError::NoTagsForRemovedProfile),
            Some(ts) => {
                let k = first_tag(ts@, removed_profile_key(), 0);
                if k < ts@.len() {
                    match ts@[k].value {
                        Some(v) => r == Ok::<String, ClaireError>(v),
                        None => r matches Err(ClaireError::RemovedProfileTagEmpty),
                    }
                } else {
                    r matches Err(ClaireError::RemovedProfileTagMissing)
                }
            },
        },
{
    match tags {
        None => Err(ClaireError::NoTagsForRemovedProfile),
        Some(ts) => {
            let k = find_tag(&ts, "claire_removed_profile");
            if k < ts.len() {
                match &ts[k].value {
                    Some(v) => Ok(v.clone()),
                    None => Err(ClaireError::RemovedProfileTagEmpty),
                }
            } else {
                Err(ClaireError::RemovedProfileTagMissing)
            }
        },
    }
}

/// The tag that records on an instance which profile was removed from it.
pub fn removed_profile_tag(profile: &str) -> (t: Tag)
    ensures
        tag_has_key(t, removed_profile_key()),
        t.value matches Some(v) && v@ == profile@,
{
    let t = Tag { key: Some(owned("claire_removed_profile")), value: Some(owned(profile)) };
    proof {
        reveal_strlit("claire_removed_profile");
    }
    t
}

/// A profile name recorded with `removed_profile_tag` is the one that
/// `removed_profile` reads back: in whatever order the instance's tags are
/// listed and whatever other tags it carries, once the recorded tag is among
/// them and every tag under the same key holds the same name (tagging a
/// resource again under a key replaces the value it had).
pub proof fn lemma_recorded_profile_read_back(tags: Seq<Tag>, i: int, recorded: Tag, name: Seq<char>)
    requires
        0 <= i < tags.len(),
        tags[i] == recorded,
        tag_has_key(recorded, removed_profile_key()),
        recorded.value matches Some(v) && v@ == name,
        forall|j: int| 0 <= j < tags.len() && #[trigger] tag_has_key(tags[j], removed_profile_key())
            ==> tags[j] == recorded,
    ensures
        first_tag(tags, removed_profile_key(), 0) < tags.len(),
        tags[first_tag(tags, removed_profile_key(), 0)].value matches Some(v) && v@ == name,
{
    lemma_first_tag_found(tags, removed_profile_key(), 0, i);
}

/// The search for a key from `from` stops at a tag with that key, at or
/// before any index `i` that holds one.
proof fn lemma_first_tag_found(tags: Seq<Tag>, key: Seq<char>, from: int, i: int)
    requires
        0 <= from <= i < tags.len(),
        tag_has_key(tags[i], key),
    ensures
        from <= first_tag(tags, key, from) <= i,
        tag_has_key(tags[first_tag(tags, key, from)], key),
    decreases i - from,
{
    if !tag_has_key(tags[from], key) {
        lemma_first_tag_found(tags, key, from + 1, i);
    }
}

/// The roles whose tokens are invalidated, which must not be none.
pub fn require_roles(roles: Vec<String>) -> (r: Result<Vec<String>, ClaireError>)
    ensures
        roles@.len() > 0 ==> r == Ok::<Vec<String>, ClaireError>(roles),
        roles@.len() == 0 ==> r matches Err(ClaireError::NoRolesToInvalidate),
{
    if roles.len() == 0 {
        Err(ClaireError::NoRolesToInvalidate)
    } else {
        Ok(roles)
    }
}

/// An IAM policy that denies everything when its condition holds, written as
/// compact JSON with each object's keys in sorted order: the text that
/// `serde_json` gives for the same document when it is built without its
/// `preserve_order` feature (as this crate builds it).
pub open spec fn deny_policy(condition: Seq<char>) -> Seq<char> {
    "{\"Statement\":[{\"Action\":[\"*\"],\"Condition\":"@ + condition
        + ",\"Effect\":\"Deny\",\"Resource\":[\"*\"]}],\"Version\":\"2012-10-17\"}"@
}

/// The policy that denies the credentials of one instance (by the user id
/// that ends with the instance id).
pub open spec fn deny_instance_policy_text(instance_id: Seq<char>) -> Seq<char> {
    deny_policy("{\"StringLike\":{\"aws:userid\":"@ + json_quoted("*"@ + instance_id) + "}}"@)
}

/// The policy that denies every token issued before `now`.
pub open spec fn invalidate_tokens_policy_text(now: Seq<char>) -> Seq<char> {
    deny_policy("{\"DateLessThan\":{\"aws:TokenIssueTime\":"@ + json_quoted(now) + "}}"@)
}

/// Builds a deny policy around a condition.
fn deny_policy_document(condition: &str) -> (r: String)
    ensures
        r@ == deny_policy(condition@),
{
    let mut r = owned("{\"Statement\":[{\"Action\":[\"*\"],\"Condition\":");
    r.append(condition);
    r.append(",\"Effect\":\"Deny\",\"Resource\":[\"*\"]}],\"Version\":\"2012-10-17\"}");
    r
}

/// The name and document of the policy that denies an instance's credentials.
pub fn deny_instance_policy(instance_id: &str) -> (r: (String, String))
    ensures
        r.0@ == "ClareDenyInstance_"@ + instance_id@,
        r.1@ == deny_instance_policy_text(instance_id@),
{
    let name = concat_str("ClareDenyInstance_", instance_id);
    let user = concat_str("*", instance_id);
    let mut condition = owned("{\"StringLike\":{\"aws:userid\":");
    let quoted = json_string(user.as_str());
    condition.append(quoted.as_str());
    condition.append("}}");
    (name, deny_policy_document(condition.as_str()))
}

/// The name of the policy that invalidates tokens.
pub open spec fn invalidate_tokens_policy_name() -> Seq<char> {
    "ClaireInvalidateTokens"@
}

/// The name and document of the policy that denies every token issued
/// before `now` (an ISO 8601 time).
pub fn invalidate_tokens_policy(now: &str) -> (r: (String, String))
    ensures
        r.0@ == invalidate_tokens_policy_name(),
        r.1@ == invalidate_tokens_policy_text(now@),
{
    let mut condition = owned("{\"DateLessThan\":{\"aws:TokenIssueTime\":");
    let quoted = json_string(now);
    condition.append(quoted.as_str());
    condition.append("}}");
    (owned("ClaireInvalidateTokens"), deny_policy_document(condition.as_str()))
}

/// The character is an ASCII digit.
pub open spec fn is_digit(c: char) -> bool {
    '0' <= c <= '9'
}

/// Every character of `s` is an ASCII digit.
pub open spec fn all_digits(s: Seq<char>) -> bool {
    forall|i: int| 0 <= i < s.len() ==> is_digit(#[trigger] s[i])
}

/// How `chrono` writes a year with `%Y`: four digits for the years 0 to
/// 9999, otherwise a sign and at least four digits.
pub open spec fn year_text(y: Seq<char>) -> bool {
    ||| y.len() == 4 && all_digits(y)
    ||| y.len() >= 5 && (y[0] == '+' || y[0] == '-') && all_digits(y.drop_first())
}

/// The fixed-width part after the year of a time written with `%FT%T.%fZ`:
/// `-MM-DDTHH:MM:SS.NNNNNNNNNZ`, each field zero-padded (`%f` writes the
/// nanoseconds as nine digits).
pub open spec fn clock_text(t: Seq<char>) -> bool {
    &&& t.len() == 26
    &&& t[0] == '-' && all_digits(t.subrange(1, 3))
    &&& t[3] == '-' && all_digits(t.subrange(4, 6))
    &&& t[6] == 'T' && all_digits(t.subrange(7, 9))
    &&& t[9] == ':' && all_digits(t.subrange(10, 12))
    &&& t[12] == ':' && all_digits(t.subrange(13, 15))
    &&& t[15] == '.' && all_digits(t.subrange(16, 25))
    &&& t[25] == 'Z'
}

/// A time as `chrono` writes it with the format `%FT%T.%fZ`.
pub open spec fn utc_time_text(s: Seq<char>) -> bool {
    s.len() >= 30 && year_text(s.subrange(0, s.len() - 26)) && clock_text(
        s.subrange(s.len() - 26, s.len() as int),
    )
}

/// Calls `chrono::Utc::now()` and formats the time with `%FT%T.%fZ` (the
/// only format admitted: `chrono` panics when a format it cannot read is
/// written out). Which time comes back is not stated, only its shape, as
/// `chrono`'s strftime table (`%F` = `%Y-%m-%d`, `%T` = `%H:%M:%S`, `%f` =
/// zero-padded nanoseconds) gives it.
#[verifier::external_body]
fn utc_now_formatted(fmt: &str) -> (r: String)
    requires
        fmt@ == "%FT%T.%fZ"@,
    ensures
        utc_time_text(r@),
{
    chrono::Utc::now().format(fmt).to_string()
}

/// The policy that invalidates every token issued before this moment (the
/// current UTC time, formatted as `%FT%T.%fZ`).
pub fn invalidate_tokens_policy_now() -> (r: (String, String))
    ensures
        r.0@ == invalidate_tokens_policy_name(),
        exists|now: Seq<char>| utc_time_text(now) && r.1@ == invalidate_tokens_policy_text(now),
{
    let now = utc_now_formatted("%FT%T.%fZ");
    invalidate_tokens_policy(now.as_str())
}

} // verus!
