//! Aggregation views: the grouped tracked-mods view, deduplication of
//! files, finding endorsements, and the preview-file tree.

use nexusmods::api::tracked_mods_response;
use nexusmods::request::{
    Endorsement, Endorsements, EndorseStatus, ModFile, ModFiles, CategoryName, Changelog,
    PreviewFileChildren, PreviewFileRoot, RateLimiting, Limited, Validate,
};

#[test]
fn tracked_mods_group_by_domain_in_first_seen_order() {
    let body = "[\
        {\"mod_id\": 5, \"domain_name\": \"skyrim\"},\
        {\"mod_id\": 9, \"domain_name\": \"skyrim\"},\
        {\"mod_id\": 1, \"domain_name\": \"fallout4\"}\
    ]";
    let grouped = tracked_mods_response(200, body).unwrap().into_mods();
    let skyrim = grouped.get_game("skyrim").unwrap();
    assert_eq!(skyrim.iter().map(|m| m.id()).collect::<Vec<u64>>(), vec![5, 9]);
    let fallout = grouped.get_game("fallout4").unwrap();
    assert_eq!(fallout.iter().map(|m| m.id()).collect::<Vec<u64>>(), vec![1]);
    assert!(grouped.get_game("morrowind").is_none());
    assert_eq!(grouped.games(), vec![String::from("skyrim"), String::from("fallout4")]);
}

#[test]
fn tracked_mods_group_of_empty_list_is_empty() {
    let grouped = tracked_mods_response(200, "[]").unwrap().into_mods();
    assert!(grouped.games().is_empty());
    assert!(grouped.get_game("skyrim").is_none());
}

fn sample_file(file_id: u64, name: &str, category_id: u64) -> ModFile {
    ModFile {
        id: vec![file_id],
        uid: file_id,
        file_id,
        name: String::from(name),
        version: String::from("1.0"),
        category_id,
        category_name: CategoryName::Main,
        is_primary: true,
        size: 1,
        file_name: format!("{name}.7z"),
        uploaded_timestamp: 0,
        uploaded_time: 0,
        mod_version: String::from("1.0"),
        external_virus_scan_url: None,
        description: None,
        size_kb: 1,
        size_in_bytes: 1024,
        changelog_html: None,
        content_preview_link: String::from("https://preview.example.com"),
    }
}

#[test]
fn dedup_keeps_the_first_seen_representative_in_order() {
    let a = sample_file(1, "a", 10);
    let b = sample_file(2, "b", 20);
    let c = sample_file(3, "c", 10);
    let bundle = ModFiles { files: vec![a, b, c], file_updates: vec![] };
    let out = bundle.dedup(|x: &ModFile, y: &ModFile| x.category_id() == y.category_id());
    assert_eq!(out.len(), 2);
    assert_eq!(out[0].name(), "a");
    assert_eq!(out[1].name(), "b");
}

#[test]
fn dedup_with_a_never_matching_predicate_keeps_everything() {
    let bundle = ModFiles {
        files: vec![sample_file(1, "a", 1), sample_file(2, "b", 2)],
        file_updates: vec![],
    };
    let out = bundle.dedup(|_x: &ModFile, _y: &ModFile| false);
    assert_eq!(out.len(), 2);
    let all = bundle.dedup(|_x: &ModFile, _y: &ModFile| true);
    assert_eq!(all.len(), 1);
    assert_eq!(all[0].name(), "a");
}

fn sample_endorsement(id_source: &str, status: EndorseStatus) -> Endorsement {
    let body = format!(
        "[{{\"mod_id\": 3, \"domain_name\": \"{id_source}\",\
           \"date\": \"2021-01-01T12:00:00+00:00\", \"version\": null,\
           \"status\": \"{}\"}}]",
        match status {
            EndorseStatus::Endorsed => "Endorsed",
            EndorseStatus::NotEndorsed => "Other",
        }
    );
    let mut list = nexusmods::api::endorsements_response(200, &body).unwrap();
    list.mods.remove(0)
}

#[test]
fn find_returns_the_first_accepted_endorsement() {
    let list = Endorsements {
        mods: vec![
            sample_endorsement("skyrim", EndorseStatus::NotEndorsed),
            sample_endorsement("fallout4", EndorseStatus::Endorsed),
            sample_endorsement("morrowind", EndorseStatus::Endorsed),
        ],
    };
    let hit = list.find(|e: &Endorsement| e.is_endorsed()).unwrap();
    assert_eq!(hit.domain_name(), "fallout4");
    assert!(list.find(|e: &Endorsement| e.version() == Some("9.9")).is_none());
}

#[test]
fn preview_files_flatten_depth_first() {
    let tree = PreviewFileRoot {
        children: vec![
            PreviewFileChildren::Directory {
                path: String::from("root"),
                name: String::from("root"),
                children: vec![
                    PreviewFileChildren::File {
                        path: String::from("root/a.esp"),
                        name: String::from("a.esp"),
                        size: String::from("1 kB"),
                    },
                    PreviewFileChildren::Directory {
                        path: String::from("root/sub"),
                        name: String::from("sub"),
                        children: vec![PreviewFileChildren::File {
                            path: String::from("root/sub/b.esp"),
                            name: String::from("b.esp"),
                            size: String::from("2 kB"),
                        }],
                    },
                ],
            },
            PreviewFileChildren::File {
                path: String::from("readme.txt"),
                name: String::from("readme.txt"),
                size: String::from("1 kB"),
            },
        ],
    };
    let files = tree.files();
    let paths: Vec<String> = files
        .iter()
        .map(|f| match f {
            PreviewFileChildren::File { path, .. } => path.clone(),
            PreviewFileChildren::Directory { path, .. } => path.clone(),
        })
        .collect();
    assert_eq!(
        paths,
        vec![
            String::from("root/a.esp"),
            String::from("root/sub/b.esp"),
            String::from("readme.txt")
        ]
    );
    let first = PreviewFileChildren::File {
        path: String::from("root/a.esp"),
        name: String::from("a.esp"),
        size: String::from("1 kB"),
    };
    assert_eq!(first.into_pathbuf(), "root/a.esp");
}

#[test]
fn changelog_lookup_by_version() {
    let log = Changelog {
        logs: vec![
            (String::from("1.0"), vec![String::from("first release")]),
            (String::from("1.1"), vec![String::from("fix a"), String::from("fix b")]),
        ],
    };
    assert_eq!(log.get("1.1").unwrap().len(), 2);
    assert!(log.get("2.0").is_none());
    assert_eq!(log.logs().len(), 2);
}

#[test]
fn rate_limiting_accessors_select_the_window() {
    let snap = RateLimiting::new(100, 96, 1000, 2500, 2400, 2000);
    assert_eq!(snap.limit(Limited::Hourly), 100);
    assert_eq!(snap.limit(Limited::Daily), 2500);
    assert_eq!(snap.remaining(Limited::Hourly), 96);
    assert_eq!(snap.remaining(Limited::Daily), 2400);
    assert_eq!(snap.reset(Limited::Hourly), 1000);
    assert_eq!(snap.reset(Limited::Daily), 2000);
}

#[test]
fn premium_and_supporter_need_both_flags() {
    let user = Validate {
        user_id: 1,
        key: String::from("k"),
        name: String::from("n"),
        is_premium_q: true,
        is_supporter_q: false,
        email: String::from("e"),
        profile_url: String::from("u"),
        is_premium: false,
        is_supporter: true,
    };
    assert!(!user.is_premium());
    assert!(!user.is_supporter());
    let both = Validate { is_premium: true, is_supporter_q: true, ..user };
    assert!(both.is_premium());
    assert!(both.is_supporter());
}
