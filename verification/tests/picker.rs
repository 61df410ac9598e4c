use sdev::picker::Picker;

fn settle<T>(p: &mut Picker<T>) {
    loop {
        let st = p.tick(10);
        if !st.running {
            break;
        }
    }
}

fn fixture() -> Picker<String> {
    let mut p: Picker<String> = Picker::new();
    for text in ["rails/rails", "ruby/ruby", "raise-the-roof"] {
        p.push(text.to_string(), text);
    }
    p
}

#[test]
fn query_rai_matches_two_of_three_candidates() {
    let mut p = fixture();
    p.push_char("r");
    p.push_char("ra");
    p.push_char("rai");
    settle(&mut p);

    assert_eq!(2, p.matched_count());
    let ids = p.matched_window(10);
    assert_eq!(2, ids.len());
    assert!(ids.contains(&0)); // rails/rails
    assert!(ids.contains(&2)); // raise-the-roof
    assert!(!ids.contains(&1)); // ruby/ruby is excluded

    let selected = p.get_selected().unwrap();
    assert!(selected == "rails/rails" || selected == "raise-the-roof");
}

#[test]
fn clearing_the_query_restores_all_candidates() {
    let mut p = fixture();
    p.push_char("r");
    p.push_char("ra");
    p.push_char("rai");
    settle(&mut p);
    assert_eq!(2, p.matched_count());

    p.pop_char("ra");
    p.pop_char("r");
    p.pop_char("");
    settle(&mut p);

    assert_eq!(3, p.matched_count());
}

#[test]
fn matched_count_never_exceeds_pushed_count() {
    let mut p: Picker<String> = Picker::new();
    assert_eq!(0, p.matched_count());
    for (i, text) in ["one", "two", "three", "four"].iter().enumerate() {
        p.push(text.to_string(), text);
        p.tick(10);
        assert!(p.matched_count() <= (i + 1) as u32);
    }
    settle(&mut p);
    assert_eq!(4, p.matched_count());
}

#[test]
fn cursor_stays_within_the_matched_range() {
    let mut p = fixture();
    settle(&mut p);
    assert_eq!(3, p.matched_count());

    p.select(7);
    assert_eq!(2, p.selected());
    p.inc_selection();
    assert_eq!(2, p.selected());
    p.dec_selection();
    assert_eq!(1, p.selected());
    p.dec_selection();
    p.dec_selection();
    assert_eq!(0, p.selected());
}

#[test]
fn empty_match_set_pins_the_cursor_and_yields_no_selection() {
    let mut p: Picker<String> = Picker::new();
    settle(&mut p);

    p.select(5);
    assert_eq!(0, p.selected());
    p.inc_selection();
    assert_eq!(0, p.selected());
    assert!(p.get_selected().is_none());
}

#[test]
fn cursor_is_clamped_when_the_match_set_shrinks() {
    let mut p = fixture();
    settle(&mut p);
    p.select(2);
    assert_eq!(2, p.selected());

    p.push_char("rai");
    settle(&mut p);

    assert_eq!(2, p.matched_count());
    assert!(p.selected() < 2);
}
