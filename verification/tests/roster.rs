use remoteplay_inviter::roster::GuestData;

#[test]
fn claimed_guest_shows_its_name() {
    let mut roster = GuestData::new();
    roster.claim(7, String::from("Ann"));
    assert_eq!(roster.mark_active(7), "[7]Ann");
    assert_eq!(roster.display_name(7), "Ann");
    assert!(roster.is_active(7));
}

#[test]
fn inactive_guest_leaves_the_summary() {
    let mut roster = GuestData::new();
    roster.claim(7, String::from("Ann"));
    roster.claim(9, String::from("Bo"));
    roster.mark_active(7);
    assert_eq!(roster.mark_active(9), "[7]Ann, [9]Bo");
    assert_eq!(roster.mark_inactive(7), "[9]Bo");
    assert_eq!(roster.active_summary(), "[9]Bo");
    assert!(!roster.is_active(7));
    assert!(roster.is_active(9));
    assert_eq!(roster.mark_inactive(9), "");
    assert_eq!(roster.active_count(), 0);
}

#[test]
fn later_claim_overwrites() {
    let mut roster = GuestData::new();
    roster.claim(7, String::from("Ann"));
    roster.claim(7, String::from("Bea"));
    assert_eq!(roster.display_name(7), "Bea");
    roster.claim(7, String::from("Bea"));
    assert_eq!(roster.display_name(7), "Bea");
}

#[test]
fn unclaimed_guest_shows_a_question_mark() {
    let mut roster = GuestData::new();
    assert_eq!(roster.display_name(1), "?");
    assert_eq!(roster.mark_active(1), "[1]?");
    assert_eq!(roster.display_name(1), "?");
    roster.claim(1, String::from("Cy"));
    assert_eq!(roster.active_summary(), "[1]Cy");
}

#[test]
fn claim_does_not_make_a_guest_active() {
    let mut roster = GuestData::new();
    roster.claim(4, String::from("Di"));
    assert!(!roster.is_active(4));
    assert_eq!(roster.active_count(), 0);
    assert_eq!(roster.active_summary(), "");
    assert_eq!(roster.status_line(), "\u{2605} Players(0): ");
}

#[test]
fn summary_is_in_ascending_order_of_ids() {
    let mut roster = GuestData::new();
    for id in [30u64, 10, 20, 10, u64::MAX, 0] {
        roster.mark_active(id);
    }
    roster.claim(20, String::from("Eve"));
    assert_eq!(roster.active_summary(), "[0]?, [10]?, [20]Eve, [30]?, [18446744073709551615]?");
    assert_eq!(roster.active_count(), 5);
    assert_eq!(
        roster.status_line(),
        "\u{2605} Players(5): [0]?, [10]?, [20]Eve, [30]?, [18446744073709551615]?"
    );
}

#[test]
fn stopping_drops_the_entry() {
    let mut roster = GuestData::new();
    roster.claim(7, String::from("Ann"));
    roster.mark_active(7);
    roster.mark_inactive(7);
    assert_eq!(roster.display_name(7), "?");
    assert_eq!(roster.mark_active(7), "[7]?");
}

#[test]
fn stopping_an_unknown_guest_changes_nothing() {
    let mut roster = GuestData::new();
    roster.claim(1, String::from("Al"));
    roster.mark_active(1);
    assert_eq!(roster.mark_inactive(2), "[1]Al");
    assert_eq!(roster.active_count(), 1);
    assert_eq!(roster.display_name(1), "Al");
}
