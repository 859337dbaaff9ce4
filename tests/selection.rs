use ticket_board::selection::App;

fn board(n: usize) -> App {
    let mut rows = Vec::new();
    for i in 0..n {
        rows.push(vec![format!("JT-{}", i), "title".to_string(), "who".to_string(), "Backlog".to_string()]);
    }
    App::from_records(vec!["Team Elric".to_string()], rows)
}

#[test]
fn sample_board_starts_on_first_ticket() {
    let app = App::new();
    assert_eq!(app.current(), Some(0));
    assert_eq!(app.records().len(), 4);
    assert_eq!(app.filters().len(), 3);
    assert_eq!(app.records()[3][0], "JT-124");
    assert_eq!(app.records()[1][3], "In Progress");
    assert_eq!(app.filters()[1], "Assigned to Me");
}

#[test]
fn from_records_selects_first_or_nothing() {
    assert_eq!(board(3).current(), Some(0));
    assert_eq!(board(0).current(), None);
}

#[test]
fn advance_wraps_after_last() {
    let mut app = board(4);
    app.select(None);
    app.next();
    assert_eq!(app.current(), Some(0));
    app.next();
    app.next();
    app.next();
    assert_eq!(app.current(), Some(3));
    app.next();
    assert_eq!(app.current(), Some(0));
}

#[test]
fn retreat_wraps_before_first() {
    let mut app = board(4);
    assert_eq!(app.current(), Some(0));
    app.previous();
    assert_eq!(app.current(), Some(3));
    app.previous();
    assert_eq!(app.current(), Some(2));
}

#[test]
fn retreat_from_unset_selects_first() {
    let mut app = board(4);
    app.select(None);
    app.previous();
    assert_eq!(app.current(), Some(0));
}

#[test]
fn full_cycle_returns_to_start() {
    for n in 1..7 {
        let mut app = board(n);
        app.select(None);
        app.next();
        let start = app.current();
        for _ in 0..n {
            app.next();
        }
        assert_eq!(app.current(), start);
    }
}

#[test]
fn retreat_undoes_advance_and_back() {
    for n in 1..6 {
        for i in 0..n {
            let mut app = board(n);
            app.select(Some(i));
            app.next();
            app.previous();
            assert_eq!(app.current(), Some(i));
            app.previous();
            app.next();
            assert_eq!(app.current(), Some(i));
        }
    }
}

#[test]
fn empty_board_never_moves() {
    let mut app = board(0);
    app.next();
    assert_eq!(app.current(), None);
    app.previous();
    assert_eq!(app.current(), None);
    app.next();
    app.next();
    assert_eq!(app.current(), None);
    assert_eq!(app.records().len(), 0);
}

#[test]
fn single_record_stays_selected() {
    let mut app = board(1);
    app.next();
    assert_eq!(app.current(), Some(0));
    app.previous();
    assert_eq!(app.current(), Some(0));
}

#[test]
fn stepping_keeps_cursor_in_range() {
    let mut seed: u64 = 0x2545_f491;
    for n in 0..6 {
        let mut app = board(n);
        for _ in 0..200 {
            seed = seed.wrapping_mul(6364136223846793005).wrapping_add(1442695040888963407);
            if (seed >> 33) % 2 == 0 {
                app.next();
            } else {
                app.previous();
            }
            match app.current() {
                None => assert_eq!(n, 0),
                Some(i) => assert!(i < n),
            }
        }
    }
}

#[test]
fn stepping_leaves_records_alone() {
    let mut app = App::new();
    app.next();
    app.previous();
    app.previous();
    assert_eq!(app.records(), App::new().records());
    assert_eq!(app.filters(), App::new().filters());
}
