use claire::error::ClaireError;
use claire::investigation::{download_arguments, investigations_from_prefixes, read_listing, select_investigation, Investigation, Timestamp};

fn ts(year: i32, month: u32, day: u32, hour: u32, minute: u32, second: u32) -> Timestamp {
    Timestamp { year, month, day, hour, minute, second, nanosecond: 0 }
}

#[test]
fn investigation_from_id() {
    let inv = Investigation::new("2020-01-02.03:04:05_i-0abc").unwrap();
    assert_eq!(inv.bucket, "2020-01-02.03:04:05_i-0abc");
    assert_eq!(inv.instance_id, "i-0abc");
    assert_eq!(inv.dt, ts(2020, 1, 2, 3, 4, 5));
}

#[test]
fn investigation_instance_part_stops_at_next_separator() {
    let inv = Investigation::new("2021-12-31.23:59:58_i-1_extra_parts").unwrap();
    assert_eq!(inv.instance_id, "i-1");
    assert_eq!(inv.bucket, "2021-12-31.23:59:58_i-1_extra_parts");
    let inv = Investigation::new("2021-12-31.23:59:58_").unwrap();
    assert_eq!(inv.instance_id, "");
}

#[test]
fn investigation_bad_date() {
    match Investigation::new("yesterday_i-1") {
        Err(ClaireError::BadInvestigationDate(d)) => assert_eq!(d, "yesterday"),
        other => panic!("unexpected {:?}", other),
    }
    match Investigation::new("2020-01-02 03:04:05_i-1") {
        Err(ClaireError::BadInvestigationDate(d)) => assert_eq!(d, "2020-01-02 03:04:05"),
        other => panic!("unexpected {:?}", other),
    }
}

#[test]
fn investigations_from_listed_folders() {
    let prefixes = vec![
        Some("2020-01-02.03:04:05_i-1/".to_string()),
        Some("2020-02-03.04:05:06_i-2/".to_string()),
    ];
    let invs = investigations_from_prefixes(&prefixes).unwrap();
    assert_eq!(invs.len(), 2);
    assert_eq!(invs[0].bucket, "2020-01-02.03:04:05_i-1");
    assert_eq!(invs[1].instance_id, "i-2");
    assert_eq!(invs[1].dt, ts(2020, 2, 3, 4, 5, 6));
    assert!(investigations_from_prefixes(&vec![]).unwrap().is_empty());
}

#[test]
fn missing_prefix_is_reported_first() {
    let prefixes = vec![Some("bad_i-1/".to_string()), None];
    assert!(matches!(investigations_from_prefixes(&prefixes), Err(ClaireError::PrefixMissing)));
}

#[test]
fn first_bad_folder_is_reported() {
    let prefixes = vec![
        Some("2020-01-02.03:04:05_i-1/".to_string()),
        Some("soon_i-2/".to_string()),
        Some("later_i-3/".to_string()),
    ];
    match investigations_from_prefixes(&prefixes) {
        Err(ClaireError::BadInvestigationDate(d)) => assert_eq!(d, "soon"),
        other => panic!("unexpected {:?}", other),
    }
}

#[test]
fn selecting_one_investigation() {
    let a = Investigation::new("2020-01-02.03:04:05_i-1").unwrap();
    let b = Investigation::new("2020-01-03.03:04:05_i-2").unwrap();
    let one = select_investigation("2020-01-02", &vec![a.clone()]).unwrap();
    assert_eq!(one.bucket, a.bucket);
    match select_investigation("2020", &vec![a.clone(), b.clone()]) {
        Err(ClaireError::MultipleInvestigations(p, ids)) => {
            assert_eq!(p, "2020");
            assert_eq!(ids, "2020-01-02.03:04:05_i-1\n2020-01-03.03:04:05_i-2");
        }
        other => panic!("unexpected {:?}", other),
    }
    match select_investigation("1999", &vec![]) {
        Err(ClaireError::InvestigationNotFound(p)) => assert_eq!(p, "1999"),
        other => panic!("unexpected {:?}", other),
    }
}

#[test]
fn listing_that_cannot_be_read() {
    let named = |v: &[&str]| v.iter().map(|s| Some(s.to_string())).collect::<Vec<Option<String>>>();
    assert!(read_listing(&named(&["nodate/"])).is_none());
    assert!(read_listing(&named(&[""])).is_none());
    assert!(read_listing(&named(&["2020-01-02.03:04:05_i-1/", "plain/"])).is_none());
    assert!(read_listing(&named(&["2020-01-02.03:04:05_i-1é"])).is_none());
    match read_listing(&named(&["soon_i-1/", "plain/"])) {
        Some(Err(ClaireError::BadInvestigationDate(d))) => assert_eq!(d, "soon"),
        other => panic!("unexpected {:?}", other),
    }
    assert!(matches!(read_listing(&vec![Some("plain/".to_string()), None]), Some(Err(ClaireError::PrefixMissing))));
    let ok = read_listing(&named(&["2020-01-02.03:04:05_i-1/"])).unwrap().unwrap();
    assert_eq!(ok[0].instance_id, "i-1");
}

#[test]
fn id_determines_investigation() {
    let a = Investigation::new("2022-03-04.05:06:07_i-9").unwrap();
    let b = Investigation::new("2022-03-04.05:06:07_i-9").unwrap();
    assert_eq!(a.bucket, b.bucket);
    assert_eq!(a.instance_id, b.instance_id);
    assert_eq!(a.dt, b.dt);
}

#[test]
fn download_syncs_the_investigation_folder() {
    let folder = "20200101.120000_i-1_x";
    assert_eq!(
        download_arguments("evidence", folder, "/tmp/out", false),
        vec!["s3", "sync", "s3://evidence/20200101.120000_i-1_x", "/tmp/out/20200101.120000_i-1_x/"]
    );
    assert_eq!(
        download_arguments("evidence", folder, ".", true),
        vec![
            "s3",
            "sync",
            "s3://evidence/20200101.120000_i-1_x",
            "./20200101.120000_i-1_x/",
            "--exclude",
            "*/memory.lime.compressed"
        ]
    );
}
