use api::ledger::{bump_csv, list};

fn bump_all(start: &str, ids: &[&str]) -> String {
    let mut csv = start.to_string();
    for id in ids {
        csv = bump_csv(&csv, id);
    }
    csv
}

fn has_duplicates(ids: &Vec<String>) -> bool {
    for i in 0..ids.len() {
        for j in (i + 1)..ids.len() {
            if ids[i] == ids[j] {
                return true;
            }
        }
    }
    false
}

#[test]
fn bump_into_empty_ledger_stores_the_id_alone() {
    assert_eq!(bump_csv("", "a"), "a");
}

#[test]
fn bump_scenario_a_b_a_c() {
    let first = bump_csv("", "a");
    assert_eq!(first, "a");
    let second = bump_csv(&first, "b");
    assert_eq!(second, "a,b");
    let third = bump_csv(&second, "a");
    assert_eq!(third, "b,a");
    let fourth = bump_csv(&third, "c");
    assert_eq!(fourth, "b,a,c");
}

#[test]
fn bump_of_the_only_entry_changes_nothing() {
    assert_eq!(bump_csv("a", "a"), "a");
}

#[test]
fn bump_moves_each_position_to_the_end() {
    assert_eq!(bump_csv("a,b,c,d", "a"), "b,c,d,a");
    assert_eq!(bump_csv("a,b,c,d", "b"), "a,c,d,b");
    assert_eq!(bump_csv("a,b,c,d", "c"), "a,b,d,c");
    assert_eq!(bump_csv("a,b,c,d", "d"), "a,b,c,d");
}

#[test]
fn bump_of_a_new_id_appends_it() {
    assert_eq!(bump_csv("a,b", "c"), "a,b,c");
    assert_eq!(list(&bump_csv("a,b", "c")).len(), 3);
}

#[test]
fn bump_of_a_member_keeps_the_length() {
    let before = list("10,20,30");
    let after = list(&bump_csv("10,20,30", "20"));
    assert_eq!(before.len(), after.len());
    assert_eq!(after, vec!["10", "30", "20"]);
}

#[test]
fn bump_matches_whole_entries_only() {
    assert_eq!(bump_csv("12,3", "1"), "12,3,1");
    assert_eq!(bump_csv("12,3", "2"), "12,3,2");
    assert_eq!(bump_csv("21,1,11", "1"), "21,11,1");
}

#[test]
fn bump_twice_is_bump_once() {
    for start in ["", "a", "a,b", "b,a,c", "x,y,z", ",a,,b,"] {
        for id in ["a", "b", "q"] {
            let once = bump_csv(start, id);
            let twice = bump_csv(&once, id);
            assert_eq!(once, twice, "start {:?}, id {:?}", start, id);
        }
    }
}

#[test]
fn bump_twice_differs_where_the_id_is_held_twice_before_another() {
    let once = bump_csv("a,a,b", "a");
    assert_eq!(once, "a,b,a");
    assert_eq!(bump_csv(&once, "a"), "b,a,a");
}

#[test]
fn bump_takes_one_separator_with_the_entry() {
    assert_eq!(bump_csv(",a,,b,", "a"), ",,b,,a");
    assert_eq!(bump_csv("a,", "a"), "a");
    assert_eq!(bump_csv(",a", "a"), "a");
    assert_eq!(bump_csv("a,,", "a"), ",,a");
    assert_eq!(bump_csv(",", "a"), ",,a");
}

#[test]
fn bump_with_long_identifiers() {
    let a = "12345678901234567890123456789012345678";
    let b = "22345678901234567890123456789012345678";
    let csv = bump_all("", &[a, b, a]);
    assert_eq!(csv, format!("{},{}", b, a));
}

#[test]
fn bump_handles_text_beyond_ascii() {
    assert_eq!(bump_csv("é,ü", "é"), "ü,é");
    assert_eq!(list("é,,ü"), vec!["é", "ü"]);
}

#[test]
fn list_of_empty_ledger_is_empty() {
    assert!(list("").is_empty());
}

#[test]
fn list_returns_entries_in_storage_order() {
    assert_eq!(list("b,a,c"), vec!["b", "a", "c"]);
    assert_eq!(list("42"), vec!["42"]);
}

#[test]
fn list_drops_empty_tokens() {
    assert_eq!(list(",a,,b,"), vec!["a", "b"]);
    assert!(list(",").is_empty());
    assert!(list(",,,").is_empty());
    assert_eq!(list(",,x"), vec!["x"]);
}

#[test]
fn list_after_bumps_has_no_duplicates_and_no_empty_token() {
    let order = ["3", "1", "2", "3", "3", "1", "7", "2", "1"];
    for start in ["", ",", "5,,6", ",5,6,", "9"] {
        let mut csv = start.to_string();
        for id in order {
            csv = bump_csv(&csv, id);
            let ids = list(&csv);
            assert!(!has_duplicates(&ids), "{:?}", csv);
            assert!(ids.iter().all(|id| !id.is_empty()), "{:?}", csv);
            assert_eq!(ids.last().map(|s| s.as_str()), Some(id));
        }
    }
}

#[test]
fn stray_separators_change_no_entry() {
    assert_eq!(list("a,b"), list(",a,b"));
    assert_eq!(list("a,b"), list("a,b,"));
    assert_eq!(list("a,b"), list("a,,b"));
    assert_eq!(list(&bump_csv("a,,b", "c")), vec!["a", "b", "c"]);
}

#[test]
fn bumped_ledger_lists_the_bumped_id_last() {
    let csv = bump_all("", &["1", "2", "3", "1"]);
    assert_eq!(csv, "2,3,1");
    assert_eq!(list(&csv), vec!["2", "3", "1"]);
}
