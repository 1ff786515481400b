use claire::purge::{clear_targets, untag_keys, untag_request, PurgePlan};
use claire::tag::{resource_ids, resources_from_tags, select, tag_filter_name, Resource, TagDescription};

fn res(category: &str, id: &str) -> Resource {
    Resource { category: category.to_string(), id: id.to_string() }
}

fn ids(rs: &[Resource]) -> Vec<String> {
    rs.iter().map(|r| r.id.clone()).collect()
}

#[test]
fn snapshot_is_deletable() {
    let s = res("snapshot", "snap-1");
    assert!(s.is_snapshot());
    assert!(s.is_deletable());
    let i = res("instance", "i-1");
    assert!(!i.is_snapshot());
    assert!(!i.is_deletable());
    assert!(!res("Snapshot", "x").is_snapshot());
}

#[test]
fn resource_from_tag_description_defaults() {
    let r = Resource::from_tag_description(&TagDescription { resource_type: None, resource_id: None });
    assert_eq!(r.category, "resource type not found");
    assert_eq!(r.id, "resource id not found");
    let r = Resource::from_tag_description(&TagDescription {
        resource_type: Some("volume".to_string()),
        resource_id: Some("vol-1".to_string()),
    });
    assert_eq!(r.category, "volume");
    assert_eq!(r.id, "vol-1");
}

#[test]
fn resources_from_tag_answer() {
    assert!(resources_from_tags(&None).is_empty());
    let tags = vec![
        TagDescription { resource_type: Some("instance".to_string()), resource_id: Some("i-1".to_string()) },
        TagDescription { resource_type: Some("snapshot".to_string()), resource_id: None },
    ];
    let rs = resources_from_tags(&Some(tags));
    assert_eq!(rs.len(), 2);
    assert_eq!(rs[1].category, "snapshot");
    assert_eq!(rs[1].id, "resource id not found");
}

#[test]
fn resource_line_is_right_aligned() {
    assert_eq!(res("snapshot", "snap-1").to_line(), "  snapshot - snap-1");
    assert_eq!(res("network-interface", "eni-1").to_line(), "network-interface - eni-1");
    assert_eq!(res("", "x").to_line(), "           - x");
}

#[test]
fn tag_filter_names_the_key() {
    assert_eq!(tag_filter_name("InvestigationId"), "tag:InvestigationId");
}

#[test]
fn clear_spares_snapshots() {
    let rs = vec![res("instance", "i-1"), res("snapshot", "snap-1"), res("volume", "vol-1")];
    let targets = clear_targets(&rs);
    assert_eq!(ids(&targets), vec!["i-1", "vol-1"]);
    assert_eq!(untag_request(&targets), Some(vec!["i-1".to_string(), "vol-1".to_string()]));
    assert_eq!(untag_request(&clear_targets(&vec![res("snapshot", "s")])), None);
    assert_eq!(untag_keys(), vec!["CLAIRE", "InvestigationId"]);
}

#[test]
fn select_keeps_order() {
    let rs = vec![res("snapshot", "a"), res("instance", "b"), res("snapshot", "c")];
    assert_eq!(ids(&select(&rs, true)), vec!["a", "c"]);
    assert_eq!(resource_ids(&rs), vec!["a", "b", "c"]);
}

#[test]
fn purge_orders_untagged_first_stably() {
    let rs = vec![
        res("snapshot", "s1"),
        res("instance", "i1"),
        res("snapshot", "s2"),
        res("volume", "v1"),
    ];
    let plan = PurgePlan::new(&rs, &vec!["inv/a.txt".to_string()]);
    assert_eq!(ids(&plan.resources), vec!["i1", "v1", "s1", "s2"]);
    assert!(!plan.is_empty());
    assert_eq!(
        plan.untag_request(),
        Some(vec!["i1".to_string(), "v1".to_string(), "s1".to_string(), "s2".to_string()])
    );
    assert_eq!(plan.snapshots_to_delete(), Some(vec!["s1".to_string(), "s2".to_string()]));
    assert_eq!(plan.objects_to_delete(), Some(vec!["inv/a.txt".to_string()]));
    assert_eq!(
        plan.listing(),
        vec![
            "     Untag   instance - i1",
            "     Untag     volume - v1",
            "    Delete   snapshot - s1",
            "    Delete   snapshot - s2",
            "Delete inv/a.txt",
        ]
    );
}

#[test]
fn empty_purge_does_nothing() {
    let plan = PurgePlan::new(&vec![], &vec![]);
    assert!(plan.is_empty());
    assert_eq!(plan.untag_request(), None);
    assert_eq!(plan.snapshots_to_delete(), None);
    assert_eq!(plan.objects_to_delete(), None);
    assert!(plan.listing().is_empty());
    let plan = PurgePlan::new(&vec![res("instance", "i")], &vec![]);
    assert!(!plan.is_empty());
    assert_eq!(plan.snapshots_to_delete(), None);
}
