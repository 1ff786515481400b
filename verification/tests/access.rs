use claire::access::{
    association_id, deny_instance_policy, invalidate_tokens_policy, invalidate_tokens_policy_now, isolation_target,
    locked_group_id, profile_to_remove, removed_groups_tag, removed_profile, removed_profile_tag, require_roles, single_security_group,
    SecurityGroup,
};
use claire::confirm::{confirmation, is_confirmation};
use claire::error::ClaireError;
use claire::instance::{GroupIdentifier, IamInstanceProfile, IamInstanceProfileAssociation, Instance, Tag};

fn bare() -> Instance {
    Instance {
        instance_id: None,
        vpc_id: None,
        placement: None,
        state: None,
        public_ip_address: None,
        tags: None,
        iam_instance_profile: None,
        security_groups: None,
    }
}

fn sg(id: Option<&str>) -> SecurityGroup {
    SecurityGroup { group_id: id.map(|s| s.to_string()), group_name: Some("locked".to_string()) }
}

#[test]
fn one_security_group_is_chosen() {
    match single_security_group("locked", None) {
        Err(ClaireError::NoSecurityGroups(n)) => assert_eq!(n, "locked"),
        other => panic!("unexpected {:?}", other),
    }
    match single_security_group("locked", Some(vec![sg(Some("a")), sg(Some("b"))])) {
        Err(ClaireError::MultipleSecurityGroups(n, gs)) => {
            assert_eq!(n, "locked");
            assert_eq!(gs.len(), 2);
            assert_eq!(gs[1].group_id.as_deref(), Some("b"));
        }
        other => panic!("unexpected {:?}", other),
    }
    assert!(matches!(single_security_group("locked", Some(vec![])), Err(ClaireError::FirstSecurityGroupNotSet)));
    let g = single_security_group("locked", Some(vec![sg(Some("sg-1"))])).unwrap();
    assert_eq!(locked_group_id(&g).unwrap(), "sg-1");
    assert!(matches!(locked_group_id(&sg(None)), Err(ClaireError::LockedGroupMissingId)));
}

#[test]
fn isolation_needs_instance_and_vpc() {
    let mut i = bare();
    i.vpc_id = Some("vpc-1".to_string());
    assert!(matches!(isolation_target(&i), Err(ClaireError::InstanceMissingId)));
    i.vpc_id = None;
    i.instance_id = Some("i-1".to_string());
    assert!(matches!(isolation_target(&i), Err(ClaireError::InstanceMissingVpcId)));
    i.vpc_id = Some("vpc-1".to_string());
    assert_eq!(isolation_target(&i).unwrap(), ("i-1".to_string(), "vpc-1".to_string()));
}

#[test]
fn removed_groups_are_recorded() {
    let mut i = bare();
    assert_eq!(removed_groups_tag(&i), None);
    i.security_groups = Some(vec![]);
    assert_eq!(removed_groups_tag(&i), Some(String::new()));
    i.security_groups = Some(vec![
        GroupIdentifier { group_id: Some("sg-1".to_string()) },
        GroupIdentifier { group_id: None },
        GroupIdentifier { group_id: Some("sg-3".to_string()) },
    ]);
    assert_eq!(removed_groups_tag(&i), Some("sg-1,sg-3".to_string()));
}

#[test]
fn profile_name_from_arn() {
    let mut i = bare();
    assert_eq!(profile_to_remove(&i).unwrap(), None);
    i.iam_instance_profile = Some(IamInstanceProfile { arn: None });
    assert!(matches!(profile_to_remove(&i), Err(ClaireError::ProfileMissingArn)));
    i.iam_instance_profile = Some(IamInstanceProfile { arn: Some("arn:aws:iam::1".to_string()) });
    assert!(matches!(profile_to_remove(&i), Err(ClaireError::ProfileArnMissingSlash)));
    i.iam_instance_profile = Some(IamInstanceProfile { arn: Some("arn:aws:iam::123:instance-profile/web/prod".to_string()) });
    assert_eq!(profile_to_remove(&i).unwrap(), Some("web/prod".to_string()));
    let a = IamInstanceProfileAssociation { association_id: Some("iip-1".to_string()) };
    assert_eq!(association_id(&a).unwrap(), "iip-1");
    let a = IamInstanceProfileAssociation { association_id: None };
    assert!(matches!(association_id(&a), Err(ClaireError::ProfileAssociationMissingId)));
}

#[test]
fn removed_profile_from_tags() {
    let t = |k: &str, v: Option<&str>| Tag { key: Some(k.to_string()), value: v.map(|s| s.to_string()) };
    assert!(matches!(removed_profile(None), Err(ClaireError::NoTagsForRemovedProfile)));
    assert!(matches!(removed_profile(Some(vec![t("Name", Some("x"))])), Err(ClaireError::RemovedProfileTagMissing)));
    assert!(matches!(removed_profile(Some(vec![t("claire_removed_profile", None)])), Err(ClaireError::RemovedProfileTagEmpty)));
    assert_eq!(removed_profile(Some(vec![t("Name", None), t("claire_removed_profile", Some("web"))])).unwrap(), "web");
}

#[test]
fn roles_are_required() {
    assert!(matches!(require_roles(vec![]), Err(ClaireError::NoRolesToInvalidate)));
    assert_eq!(require_roles(vec!["r".to_string()]).unwrap(), vec!["r"]);
}

#[test]
fn policy_documents() {
    let (name, doc) = deny_instance_policy("i-1");
    assert_eq!(name, "ClareDenyInstance_i-1");
    assert_eq!(
        doc,
        r#"{"Statement":[{"Action":["*"],"Condition":{"StringLike":{"aws:userid":"*i-1"}},"Effect":"Deny","Resource":["*"]}],"Version":"2012-10-17"}"#
    );
    let (name, doc) = invalidate_tokens_policy("2020-01-02T03:04:05.000000000Z");
    assert_eq!(name, "ClaireInvalidateTokens");
    assert_eq!(
        doc,
        r#"{"Statement":[{"Action":["*"],"Condition":{"DateLessThan":{"aws:TokenIssueTime":"2020-01-02T03:04:05.000000000Z"}},"Effect":"Deny","Resource":["*"]}],"Version":"2012-10-17"}"#
    );
}

#[test]
fn policy_of_the_current_time() {
    let (name, doc) = invalidate_tokens_policy_now();
    assert_eq!(name, "ClaireInvalidateTokens");
    let v: serde_json::Value = serde_json::from_str(&doc).unwrap();
    let t = v["Statement"][0]["Condition"]["DateLessThan"]["aws:TokenIssueTime"].as_str().unwrap().to_string();
    let b = t.as_bytes();
    assert_eq!(b.len(), 30, "{}", t);
    for (i, c) in b.iter().enumerate() {
        match i {
            4 | 7 => assert_eq!(*c, b'-'),
            10 => assert_eq!(*c, b'T'),
            13 | 16 => assert_eq!(*c, b':'),
            19 => assert_eq!(*c, b'.'),
            29 => assert_eq!(*c, b'Z'),
            _ => assert!(c.is_ascii_digit(), "{}", t),
        }
    }
}

#[test]
fn confirmation_accepts_yes_only() {
    assert!(is_confirmation("yes\n"));
    assert!(is_confirmation("  yes \t\n"));
    assert!(!is_confirmation("y"));
    assert!(!is_confirmation("yes please"));
    assert!(!is_confirmation("YES"));
    assert!(confirmation("yes\n").is_ok());
    assert!(matches!(confirmation("no\n"), Err(ClaireError::Aborted)));
}

#[test]
fn recorded_profile_is_read_back() {
    let record = removed_profile_tag("web-profile");
    assert_eq!(record.key.as_deref(), Some("claire_removed_profile"));
    assert_eq!(record.value.as_deref(), Some("web-profile"));
    let other = Tag { key: Some("Name".to_string()), value: Some("web".to_string()) };
    assert_eq!(removed_profile(Some(vec![other.clone(), record.clone()])).unwrap(), "web-profile");
    assert_eq!(removed_profile(Some(vec![record, other])).unwrap(), "web-profile");
}
