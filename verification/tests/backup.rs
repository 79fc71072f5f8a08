use server_manager::backup::{
    archive_file_name, backup_id, default_name, listed_backup, plan_backup, sort_newest_first,
    split_stem, time_or_now, Backup, BackupPlan,
};
use server_manager::lex::{same_text, text_before};

fn backup(id: &str, created_at: &str) -> Backup {
    Backup { id: id.to_string(), name: String::new(), created_at: created_at.to_string(), size: 0 }
}

#[test]
fn backup_id_joins_second_and_name() {
    assert_eq!(backup_id(1700000000, "before_update"), "1700000000_before_update");
    assert_eq!(backup_id(-5, ""), "-5_");
}

#[test]
fn default_name_and_archive_file_name() {
    assert_eq!(default_name("20240102_030405"), "backup_20240102_030405");
    assert_eq!(archive_file_name("1700000000_world"), "1700000000_world.zip");
}

#[test]
fn plan_backup_with_given_name() {
    assert_eq!(
        plan_backup(Some("world".to_string()), 1700000000, "20231114_221320"),
        BackupPlan {
            id: "1700000000_world".to_string(),
            name: "world".to_string(),
            file_name: "1700000000_world.zip".to_string(),
        }
    );
}

#[test]
fn plan_backup_without_name_uses_the_stamp() {
    assert_eq!(
        plan_backup(None, 1700000000, "20231114_221320"),
        BackupPlan {
            id: "1700000000_backup_20231114_221320".to_string(),
            name: "backup_20231114_221320".to_string(),
            file_name: "1700000000_backup_20231114_221320.zip".to_string(),
        }
    );
}

#[test]
fn split_stem_at_the_first_separator() {
    assert_eq!(split_stem("1700000000_my_world"), ("1700000000".to_string(), "my_world".to_string()));
    assert_eq!(split_stem("world"), ("world".to_string(), String::new()));
    assert_eq!(split_stem("_x"), (String::new(), "x".to_string()));
    assert_eq!(split_stem("x_"), ("x".to_string(), String::new()));
    assert_eq!(split_stem(""), (String::new(), String::new()));
    assert_eq!(split_stem("__"), (String::new(), "_".to_string()));
}

#[test]
fn split_stem_agrees_with_split_and_join() {
    let stems = ["1700000000_my_world", "plain", "_", "a__b", "17_ü_ö", ""];
    for stem in stems {
        let parts: Vec<&str> = stem.split('_').collect();
        let (head, name) = split_stem(stem);
        assert_eq!(head, parts[0]);
        assert_eq!(name, parts[1..].join("_"));
    }
}

#[test]
fn listed_backup_reads_second_and_name_from_the_stem() {
    let listed = listed_backup("1431648000_my_world".to_string(), 2048, "2024-01-01T00:00:00+00:00");
    assert_eq!(
        listed,
        Backup {
            id: "1431648000_my_world".to_string(),
            name: "my_world".to_string(),
            created_at: "2015-05-15T00:00:00+00:00".to_string(),
            size: 2048,
        }
    );
}

#[test]
fn listed_backup_lists_what_was_planned() {
    let plan = plan_backup(Some("pre_patch".to_string()), 86400, "19700102_000000");
    let listed = listed_backup(plan.id.clone(), 1, "now");
    assert_eq!(listed.id, plan.id);
    assert_eq!(listed.name, plan.name);
    assert_eq!(listed.created_at, "1970-01-02T00:00:00+00:00");
}

#[test]
fn listed_backup_without_second_is_dated_now() {
    let listed = listed_backup("world_copy".to_string(), 7, "2024-01-01T00:00:00+00:00");
    assert_eq!(listed.name, "copy");
    assert_eq!(listed.created_at, "2024-01-01T00:00:00+00:00");
    let listed = listed_backup("99999999999999999999_x".to_string(), 7, "NOW");
    assert_eq!(listed.created_at, "NOW");
}

#[test]
fn listed_backup_with_second_off_the_calendar_is_dated_now() {
    let listed = listed_backup("9223372036854775807_far".to_string(), 7, "NOW");
    assert_eq!(listed.name, "far");
    assert_eq!(listed.created_at, "NOW");
}

#[test]
fn time_or_now_prefers_the_written_time() {
    assert_eq!(time_or_now(Some("then".to_string()), "now"), "then");
    assert_eq!(time_or_now(None, "now"), "now");
}

#[test]
fn sort_puts_newest_first() {
    let mut list = vec![
        backup("a", "2023-01-01T00:00:00+00:00"),
        backup("b", "2024-06-01T00:00:00+00:00"),
        backup("c", "2022-12-31T23:59:59+00:00"),
        backup("d", "2024-06-01T00:00:01+00:00"),
    ];
    sort_newest_first(&mut list);
    let ids: Vec<&str> = list.iter().map(|b| b.id.as_str()).collect();
    assert_eq!(ids, vec!["d", "b", "a", "c"]);
}

#[test]
fn sort_keeps_backups_of_the_same_time_in_their_order() {
    let mut list = vec![
        backup("first", "2024-01-01T00:00:00+00:00"),
        backup("old", "2020-01-01T00:00:00+00:00"),
        backup("second", "2024-01-01T00:00:00+00:00"),
        backup("new", "2025-01-01T00:00:00+00:00"),
        backup("third", "2024-01-01T00:00:00+00:00"),
    ];
    sort_newest_first(&mut list);
    let ids: Vec<&str> = list.iter().map(|b| b.id.as_str()).collect();
    assert_eq!(ids, vec!["new", "first", "second", "third", "old"]);
}

#[test]
fn sort_agrees_with_the_stable_sort_of_the_standard_library() {
    let times = ["b", "a", "c", "b", "", "ab", "a", "é", "z", "b", "ab"];
    let mut list: Vec<Backup> = times
        .iter()
        .enumerate()
        .map(|(i, time)| backup(&i.to_string(), time))
        .collect();
    let mut expected = list.clone();
    expected.sort_by(|a, b| b.created_at.cmp(&a.created_at));
    sort_newest_first(&mut list);
    assert_eq!(list, expected);
    let mut empty: Vec<Backup> = Vec::new();
    sort_newest_first(&mut empty);
    assert!(empty.is_empty());
}

#[test]
fn text_before_is_the_order_of_strings() {
    let texts = ["", "a", "ab", "b", "B", "é", "z", "2024-01-01", "2024-01-02", "日本"];
    for a in texts {
        for b in texts {
            assert_eq!(text_before(a, b), a < b, "{:?} {:?}", a, b);
            assert_eq!(same_text(a, b), a == b, "{:?} {:?}", a, b);
        }
    }
}
