use kolibri_embedded_gui::smartstate::{Container, Smartstate, SmartstateProvider};

#[test]
fn fresh_cell_is_unset() {
    let cell = Smartstate::empty();
    assert!(cell.is_empty());
    assert_eq!(cell, Smartstate::Unset);
    assert!(!cell.eq_inner(0));
}

#[test]
fn state_records_its_code() {
    let cell = Smartstate::state(5);
    assert_eq!(cell, Smartstate::Tagged(5));
    assert!(!cell.is_empty());
    assert!(cell.eq_inner(5));
    assert!(!cell.eq_inner(6));
}

#[test]
fn set_state_and_force_redraw() {
    let mut cell = Smartstate::empty();
    cell.set_state(3);
    assert_eq!(cell, Smartstate::Tagged(3));
    cell.force_redraw();
    assert_eq!(cell, Smartstate::Unset);
}

#[test]
fn tagged_cells_are_equal_exactly_when_codes_match() {
    for a in 0u16..10 {
        for b in 0u16..10 {
            assert_eq!(Smartstate::state(a) == Smartstate::state(b), a == b);
            assert_eq!(Smartstate::state(a).differs_from(Smartstate::state(b)), a != b);
        }
    }
}

#[test]
fn unset_on_either_side_forces_the_draw() {
    assert!(Smartstate::Unset.differs_from(Smartstate::Tagged(1)));
    assert!(Smartstate::Tagged(1).differs_from(Smartstate::Unset));
    assert!(Smartstate::Unset.differs_from(Smartstate::Unset));
}

#[test]
fn empty_container_always_needs_draw() {
    let container = Container::empty();
    assert!(container.is_empty());
    assert_eq!(container.clone_inner(), None);
    for code in 0u16..16 {
        assert!(container.needs_draw(Smartstate::state(code)));
    }
    assert!(container.needs_draw(Smartstate::Unset));
}

#[test]
fn empty_container_ignores_stores() {
    let mut container = Container::empty();
    container.store(Smartstate::state(4));
    container.settle(Smartstate::state(4), true);
    assert!(container.is_empty());
    assert!(container.needs_draw(Smartstate::state(4)));
}

#[test]
fn container_reads_and_overwrites_the_borrowed_cell() {
    let mut cell = Smartstate::state(2);
    {
        let mut container = Container::new(&mut cell);
        assert!(!container.is_empty());
        assert_eq!(container.clone_inner(), Some(Smartstate::Tagged(2)));
        assert!(!container.needs_draw(Smartstate::state(2)));
        assert!(container.needs_draw(Smartstate::state(4)));
        container.store(Smartstate::state(4));
        assert!(!container.needs_draw(Smartstate::state(4)));
    }
    assert_eq!(cell, Smartstate::Tagged(4));
}

#[test]
fn container_set_switches_cells() {
    let mut first = Smartstate::empty();
    let mut second = Smartstate::state(8);
    {
        let mut container = Container::empty();
        container.set(&mut first);
        container.store(Smartstate::state(1));
        container.set(&mut second);
        assert_eq!(container.clone_inner(), Some(Smartstate::Tagged(8)));
        container.store(Smartstate::state(2));
    }
    assert_eq!(first, Smartstate::Tagged(1));
    assert_eq!(second, Smartstate::Tagged(2));
}

#[test]
fn settle_records_a_successful_paint() {
    let mut cell = Smartstate::empty();
    Container::new(&mut cell).settle(Smartstate::state(6), true);
    assert_eq!(cell, Smartstate::Tagged(6));
}

#[test]
fn settle_unsets_after_a_failed_paint() {
    let mut cell = Smartstate::state(2);
    Container::new(&mut cell).settle(Smartstate::state(6), false);
    assert_eq!(cell, Smartstate::Unset);
    assert!(Container::new(&mut cell).needs_draw(Smartstate::state(2)));
    assert!(Container::new(&mut cell).needs_draw(Smartstate::state(6)));
}

#[test]
fn pool_starts_unset() {
    let pool = SmartstateProvider::<4>::new();
    assert_eq!(pool.size(), 4);
    assert_eq!(pool.get_pos(), 0);
    assert_eq!(pool.states, [Smartstate::Unset; 4]);
}

#[test]
fn pool_hands_cells_out_in_order() {
    let mut pool = SmartstateProvider::<3>::new();
    pool.nxt().set_state(1);
    pool.nxt().set_state(2);
    assert_eq!(pool.get_pos(), 2);
    assert_eq!(
        pool.states,
        [Smartstate::Tagged(1), Smartstate::Tagged(2), Smartstate::Unset]
    );
    pool.restart_counter();
    assert_eq!(pool.get_pos(), 0);
    assert_eq!(*pool.nxt(), Smartstate::Tagged(1));
    assert_eq!(*pool.nxt(), Smartstate::Tagged(2));
    assert_eq!(*pool.nxt(), Smartstate::Unset);
    assert_eq!(pool.get_pos(), pool.size());
}

#[test]
fn pool_force_redraw_all_unsets_every_cell() {
    let mut pool = SmartstateProvider::<3>::new();
    pool.nxt().set_state(1);
    pool.nxt().set_state(2);
    pool.force_redraw_all();
    assert_eq!(pool.get_pos(), 2);
    assert_eq!(pool.states, [Smartstate::Unset; 3]);
}

#[test]
fn pool_cell_is_lent_to_a_container() {
    let mut pool = SmartstateProvider::<2>::new();
    Container::new(pool.nxt()).settle(Smartstate::state(6), true);
    Container::new(pool.nxt()).settle(Smartstate::state(4), false);
    assert_eq!(pool.states, [Smartstate::Tagged(6), Smartstate::Unset]);
}
