use letter_trainer::{is_letter, letter_at, letter_index, MasteryTable, Ratio, Session};

#[test]
fn record_practice_increments_one_entry() {
    let mut t = MasteryTable::new();
    t.record_practice('q');
    for c in 'a'..='z' {
        assert_eq!(t.score(c), if c == 'q' { 1 } else { 0 });
    }
    t.record_practice('q');
    assert_eq!(t.score('q'), 2);
    t.record_practice('a');
    assert_eq!(t.score('a'), 1);
    assert_eq!(t.score('q'), 2);
}

#[test]
fn record_practice_ignores_other_symbols() {
    let mut t = MasteryTable::new();
    t.record_practice('Q');
    t.record_practice('!');
    for c in 'a'..='z' {
        assert_eq!(t.score(c), 0);
    }
}

#[test]
fn fresh_table_selects_a() {
    assert_eq!(MasteryTable::new().select_next(), 'a');
}

#[test]
fn select_next_prefers_lowest_then_alphabetical() {
    let mut t = MasteryTable::new();
    for c in 'a'..='z' {
        if c != 'm' && c != 'x' {
            t.record_practice(c);
        }
    }
    assert_eq!(t.select_next(), 'm');
    t.record_practice('m');
    assert_eq!(t.select_next(), 'x');
}

#[test]
fn session_cycles_through_the_alphabet() {
    let mut s = Session::new();
    assert_eq!(s.current_letter(), 'a');
    for c in 'a'..='z' {
        assert_eq!(s.mastery().score(c), 0);
    }
    s.advance();
    assert_eq!(s.mastery().score('a'), 1);
    assert_eq!(s.current_letter(), 'b');
    for _ in 0..25 {
        s.advance();
    }
    for c in 'a'..='z' {
        assert_eq!(s.mastery().score(c), 1);
    }
    assert_eq!(s.current_letter(), 'a');
}

#[test]
fn play_reports_the_current_letter() {
    let mut s = Session::new();
    s.advance();
    let st = s.play();
    assert_eq!(st.letter, 'b');
    assert_eq!(st.hex, b"#6699FF".to_vec());
    assert_eq!(s.current_letter(), 'b');
}

#[test]
fn letter_positions() {
    assert_eq!(letter_index('a'), 0);
    assert_eq!(letter_index('z'), 25);
    assert_eq!(letter_at(7), 'h');
}

#[test]
fn letter_membership_and_ratio_order() {
    assert!(is_letter('a') && is_letter('z'));
    assert!(!is_letter('A') && !is_letter('{') && !is_letter('`'));
    let third = Ratio { num: 1, den: 3 };
    let half = Ratio { num: 2, den: 4 };
    assert!(third.value_le(&half));
    assert!(!half.value_le(&third));
    assert!(half.value_eq(&Ratio { num: 1, den: 2 }));
}
