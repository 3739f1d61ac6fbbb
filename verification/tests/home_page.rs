use kyward_ui::pages::home::{Home, Msg, Screen};

#[test]
fn home_starts_at_zero() {
    let page = Home::create();
    assert_eq!(page.view(), Screen { value: 0 });
}

#[test]
fn increment_counts_one_up_and_repaints() {
    let mut page = Home::create();
    assert!(page.update(Msg::Increment));
    assert_eq!(page.view(), Screen { value: 1 });
}

#[test]
fn increments_add_up() {
    let mut page = Home::create();
    for _ in 0..1000 {
        assert!(page.update(Msg::Increment));
    }
    assert_eq!(page.view().value, 1000);
}

#[test]
fn home_change_needs_no_repaint() {
    let mut page = Home::create();
    page.update(Msg::Increment);
    assert!(!page.change(()));
    assert_eq!(page.view().value, 1);
}
