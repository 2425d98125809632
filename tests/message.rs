use tg_reporter::message::{choose_report_text, report_text, CATALOG_LEN};

fn catalog() -> Vec<String> {
    (0..CATALOG_LEN).map(|i| report_text(&None, i)).collect()
}

#[test]
fn override_is_used_verbatim() {
    let o = Some("custom reason".to_string());
    for _ in 0..50 {
        assert_eq!(choose_report_text(&o), "custom reason");
    }
    assert_eq!(report_text(&o, 3), "custom reason");
}

#[test]
fn catalog_entries_by_draw() {
    assert_eq!(report_text(&None, 0), "Содержит российскую пропаганду");
    assert_eq!(report_text(&None, 10), "Russian occupants channel");
    assert_eq!(report_text(&None, 16), "Распостранение дезинформации");
}

#[test]
fn catalog_entries_are_distinct() {
    let c = catalog();
    for i in 0..c.len() {
        for j in (i + 1)..c.len() {
            assert_ne!(c[i], c[j]);
        }
    }
}

#[test]
fn random_choice_comes_from_catalog_and_covers_it() {
    let c = catalog();
    let mut seen = vec![false; c.len()];
    for _ in 0..5000 {
        let t = choose_report_text(&None);
        let pos = c.iter().position(|e| *e == t);
        assert!(pos.is_some());
        seen[pos.unwrap()] = true;
    }
    assert!(seen.iter().all(|s| *s));
}
