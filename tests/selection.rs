use gmat_zalo_bot::catalog::{GmatDatabase, QuestionType};
use gmat_zalo_bot::selector::{pick_random_questions, pool_items, select_by_indices, SelectError};

fn ids(prefix: &str, n: usize) -> Vec<String> {
    (0..n).map(|i| format!("{}{}", prefix, i)).collect()
}

fn database() -> GmatDatabase {
    GmatDatabase {
        reading_comprehension: ids("rc", 4),
        sentence_correction: ids("sc", 3),
        critical_reasoning: ids("cr", 2),
        problem_solving: ids("ps", 5),
        data_sufficiency: ids("ds", 1),
    }
}

#[test]
fn unfiltered_selection_never_holds_reading_comprehension() {
    let db = database();
    for _ in 0..50 {
        let picked = pick_random_questions(&db, &None, 11).unwrap();
        assert_eq!(picked.len(), 11);
        assert!(picked.iter().all(|(t, _)| *t != QuestionType::RC));
        assert!(picked.iter().all(|(_, id)| !id.starts_with("rc")));
    }
}

#[test]
fn excluded_category_is_refused() {
    let db = database();
    let r = pick_random_questions(&db, &Some(QuestionType::RC), 3);
    assert_eq!(r, Err(SelectError::UnsupportedCategory(QuestionType::RC)));
}

#[test]
fn selection_has_no_duplicates_and_expected_length() {
    let db = database();
    for count in 0..15 {
        let picked = pick_random_questions(&db, &None, count).unwrap();
        assert_eq!(picked.len(), count.min(11));
        let mut seen: Vec<&String> = picked.iter().map(|(_, id)| id).collect();
        seen.sort();
        seen.dedup();
        assert_eq!(seen.len(), picked.len());
    }
}

#[test]
fn selection_larger_than_pool_returns_whole_pool() {
    let db = database();
    let picked = pick_random_questions(&db, &Some(QuestionType::CR), 10).unwrap();
    let mut got: Vec<String> = picked.into_iter().map(|(_, id)| id).collect();
    got.sort();
    assert_eq!(got, vec!["cr0".to_string(), "cr1".to_string()]);
}

#[test]
fn problem_solving_scenario_draws_two_distinct_from_its_pool() {
    let db = database();
    let picked = pick_random_questions(&db, &Some(QuestionType::PS), 2).unwrap();
    assert_eq!(picked.len(), 2);
    assert_ne!(picked[0].1, picked[1].1);
    for (t, id) in &picked {
        assert_eq!(*t, QuestionType::PS);
        assert!(db.problem_solving.contains(id));
    }
}

#[test]
fn empty_pool_gives_empty_selection() {
    let db = GmatDatabase {
        reading_comprehension: vec![],
        sentence_correction: vec![],
        critical_reasoning: vec![],
        problem_solving: vec![],
        data_sufficiency: vec![],
    };
    assert_eq!(pick_random_questions(&db, &None, 3), Ok(vec![]));
    assert_eq!(pick_random_questions(&db, &Some(QuestionType::DS), 3), Ok(vec![]));
}

#[test]
fn pool_lists_supported_kinds_in_order() {
    let db = database();
    let pool = pool_items(&db, &None);
    let kinds: Vec<QuestionType> = pool.iter().map(|(t, _)| *t).collect();
    let mut expected = vec![QuestionType::SC; 3];
    expected.extend(vec![QuestionType::CR; 2]);
    expected.extend(vec![QuestionType::PS; 5]);
    expected.extend(vec![QuestionType::DS; 1]);
    assert_eq!(kinds, expected);
    assert_eq!(pool[0].1, "sc0");
    assert_eq!(pool[10].1, "ds0");
}

#[test]
fn select_by_indices_takes_positions_in_order() {
    let pool = vec![
        (QuestionType::SC, "a".to_string()),
        (QuestionType::CR, "b".to_string()),
        (QuestionType::PS, "c".to_string()),
    ];
    let r = select_by_indices(&pool, &vec![2, 0]);
    assert_eq!(r, vec![(QuestionType::PS, "c".to_string()), (QuestionType::SC, "a".to_string())]);
}

#[test]
fn catalog_accessors() {
    let db = database();
    assert_eq!(db.get_questions_by_type(&QuestionType::PS).len(), 5);
    assert_eq!(db.get_questions_by_type(&QuestionType::RC)[0], "rc0");
    assert_eq!(db.total_questions(), 15);
    let all = db.get_all_questions();
    let kinds: Vec<QuestionType> = all.iter().map(|(t, _)| *t).collect();
    assert_eq!(kinds, vec![QuestionType::SC, QuestionType::CR, QuestionType::PS, QuestionType::DS]);
    assert_eq!(all[2].1.len(), 5);
}

#[test]
fn question_type_names() {
    assert_eq!(QuestionType::RC.display_name(), "Reading Comprehension");
    assert_eq!(QuestionType::PS.display_name(), "Problem Solving");
    assert!(!QuestionType::RC.is_selectable());
    assert!(QuestionType::DS.is_selectable());
}
