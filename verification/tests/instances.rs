use claire::error::ClaireError;
use claire::instance::{
    described_volumes, extractor_id_from_payload, extractor_id_from_reply, extractor_payload, first_association, first_instance, get_instance,
    investigation_id_from_tags, investigation_id_of, volume_requests, IamInstanceProfileAssociation, Instance,
    LambdaReply, Placement, Reservation, Tag, Volume,
};
use claire::tag::Resource;

fn bare(id: &str) -> Instance {
    Instance {
        instance_id: Some(id.to_string()),
        vpc_id: None,
        placement: None,
        state: None,
        public_ip_address: None,
        tags: None,
        iam_instance_profile: None,
        security_groups: None,
    }
}

fn tag(k: Option<&str>, v: Option<&str>) -> Tag {
    Tag { key: k.map(|s| s.to_string()), value: v.map(|s| s.to_string()) }
}

#[test]
fn first_instance_of_first_reservation() {
    assert!(first_instance(None).is_none());
    assert!(first_instance(Some(vec![])).is_none());
    assert!(first_instance(Some(vec![Reservation { instances: None }])).is_none());
    assert!(first_instance(Some(vec![Reservation { instances: Some(vec![]) }, Reservation { instances: Some(vec![bare("i-2")]) }])).is_none());
    let rs = Some(vec![Reservation { instances: Some(vec![bare("i-1"), bare("i-3")]) }]);
    assert_eq!(first_instance(rs).unwrap().instance_id.unwrap(), "i-1");
    match get_instance("i-9", None) {
        Err(ClaireError::InstanceNotFound(i)) => assert_eq!(i, "i-9"),
        other => panic!("unexpected {:?}", other),
    }
}

#[test]
fn investigation_id_from_instance_tags() {
    let tags = vec![tag(None, Some("x")), tag(Some("Name"), Some("web")), tag(Some("InvestigationId"), Some("inv-1")), tag(Some("InvestigationId"), Some("inv-2"))];
    assert_eq!(investigation_id_from_tags("i-1", Some(tags)).unwrap(), "inv-1");
    assert!(matches!(investigation_id_from_tags("i-1", Some(vec![tag(Some("InvestigationId"), None)])), Err(ClaireError::InvestigationIdNotSet)));
    match investigation_id_from_tags("i-1", Some(vec![tag(Some("Name"), Some("web"))])) {
        Err(ClaireError::NoInvestigationForInstance(i)) => assert_eq!(i, "i-1"),
        other => panic!("unexpected {:?}", other),
    }
    match investigation_id_from_tags("i-1", None) {
        Err(ClaireError::InstanceNotTagged(i)) => assert_eq!(i, "i-1"),
        other => panic!("unexpected {:?}", other),
    }
    let mut inst = bare("i-5");
    inst.tags = Some(vec![tag(Some("InvestigationId"), Some("inv-5"))]);
    let rs = Some(vec![Reservation { instances: Some(vec![inst]) }]);
    assert_eq!(investigation_id_of("i-5", rs).unwrap(), "inv-5");
    assert!(matches!(investigation_id_of("i-5", None), Err(ClaireError::InstanceNotTagged(_))));
}

#[test]
fn volumes_from_snapshots() {
    let snaps = vec![
        Resource { category: "snapshot".to_string(), id: "snap-1".to_string() },
        Resource { category: "snapshot".to_string(), id: "snap-2".to_string() },
    ];
    let mut inst = bare("i-1");
    assert!(matches!(volume_requests(&inst, &snaps), Err(ClaireError::MissingAvailabilityZone)));
    assert!(volume_requests(&inst, &vec![]).unwrap().is_empty());
    inst.placement = Some(Placement { availability_zone: None });
    assert!(matches!(volume_requests(&inst, &snaps), Err(ClaireError::MissingAvailabilityZone)));
    inst.placement = Some(Placement { availability_zone: Some("eu-west-1a".to_string()) });
    let reqs = volume_requests(&inst, &snaps).unwrap();
    assert_eq!(reqs.len(), 2);
    assert_eq!(reqs[1].availability_zone, "eu-west-1a");
    assert_eq!(reqs[1].snapshot_id, "snap-2");
}

#[test]
fn described_volumes_or_error() {
    let ids = vec!["vol-1".to_string(), "vol-2".to_string()];
    match described_volumes(&ids, None) {
        Err(ClaireError::NoVolumes(s)) => assert_eq!(s, "vol-1, vol-2"),
        other => panic!("unexpected {:?}", other),
    }
    let v = described_volumes(&ids, Some(vec![Volume { volume_id: Some("vol-1".to_string()), state: None }])).unwrap();
    assert_eq!(v.len(), 1);
}

#[test]
fn first_profile_association() {
    match first_association("i-1", None) {
        Err(ClaireError::NoProfileAssociations(i)) => assert_eq!(i, "i-1"),
        other => panic!("unexpected {:?}", other),
    }
    assert!(matches!(first_association("i-1", Some(vec![])), Err(ClaireError::NoFirstProfileAssociation)));
    let a = first_association(
        "i-1",
        Some(vec![
            IamInstanceProfileAssociation { association_id: Some("a-1".to_string()) },
            IamInstanceProfileAssociation { association_id: Some("a-2".to_string()) },
        ]),
    )
    .unwrap();
    assert_eq!(a.association_id.unwrap(), "a-1");
}

#[test]
fn extractor_payload_is_json() {
    assert_eq!(extractor_payload("inv-1", "my key"), r#"{"investigation_id":"inv-1","key_name":"my key"}"#);
    assert_eq!(extractor_payload("a\"b", "c\\d"), r#"{"investigation_id":"a\"b","key_name":"c\\d"}"#);
}

#[test]
fn extractor_id_from_lambda_reply() {
    assert!(matches!(extractor_id_from_reply(None), Err(ClaireError::NoExtractorResponse)));
    let reply = |e: Option<&str>, id: Option<Option<&str>>| LambdaReply {
        error_message: e.map(|s| s.to_string()),
        extractor_id: id.map(|o| o.map(|s| s.to_string())),
        body: "{}".to_string(),
    };
    assert_eq!(extractor_id_from_reply(Some(reply(None, Some(Some("i-7"))))).unwrap(), "i-7");
    match extractor_id_from_reply(Some(reply(Some("\"boom\""), Some(Some("i-7"))))) {
        Err(ClaireError::CreateInstanceFailed(m)) => assert_eq!(m, "\"boom\""),
        other => panic!("unexpected {:?}", other),
    }
    assert!(matches!(extractor_id_from_reply(Some(reply(None, Some(None)))), Err(ClaireError::ExtractorIdNotText)));
    match extractor_id_from_reply(Some(reply(None, None))) {
        Err(ClaireError::UnexpectedExtractorResponse(b)) => assert_eq!(b, "{}"),
        other => panic!("unexpected {:?}", other),
    }
}

#[test]
fn extractor_id_from_lambda_payload() {
    let p = |s: &str| Some(s.as_bytes().to_vec());
    assert!(matches!(extractor_id_from_payload(None), Err(ClaireError::NoExtractorResponse)));
    assert_eq!(extractor_id_from_payload(p(r#"{"extractor_id":"i-1"}"#)).unwrap(), "i-1");
    match extractor_id_from_payload(p(r#"{"errorMessage":"boom","extractor_id":"i-1"}"#)) {
        Err(ClaireError::CreateInstanceFailed(m)) => assert_eq!(m, "\"boom\""),
        other => panic!("unexpected {:?}", other),
    }
    assert!(matches!(extractor_id_from_payload(p(r#"{"extractor_id":5}"#)), Err(ClaireError::ExtractorIdNotText)));
    match extractor_id_from_payload(p(r#"{ "other" : 1 }"#)) {
        Err(ClaireError::UnexpectedExtractorResponse(b)) => assert_eq!(b, r#"{"other":1}"#),
        other => panic!("unexpected {:?}", other),
    }
    assert!(matches!(extractor_id_from_payload(p("not json")), Err(ClaireError::ReplyNotJson)));
}
