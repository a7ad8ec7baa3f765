use remoteplay_inviter::invite::{InviteCorrelator, PendingInvite, ResolvedInvite};

fn invite(id: &str, game: u32) -> PendingInvite {
    PendingInvite { request_id: String::from(id), claimer: Some(String::from("Ann")), game }
}

#[test]
fn request_is_resolved_by_the_next_event() {
    let mut slot = InviteCorrelator::new();
    assert!(!slot.is_pending());
    assert_eq!(slot.request(invite("r", 42)), None);
    assert!(slot.is_pending());
    assert_eq!(
        slot.deliver(99, String::from("https://x/y")),
        Some(ResolvedInvite {
            invite: invite("r", 42),
            guest_id: 99,
            connect_url: String::from("https://x/y"),
        })
    );
    assert!(!slot.is_pending());
}

#[test]
fn second_request_is_refused_and_gets_no_result() {
    let mut slot = InviteCorrelator::new();
    assert_eq!(slot.request(invite("first", 42)), None);
    assert_eq!(slot.request(invite("second", 43)), Some(invite("second", 43)));
    let resolved = slot.deliver(99, String::from("https://x/y")).unwrap();
    assert_eq!(resolved.invite, invite("first", 42));
    assert_eq!(slot.deliver(100, String::from("https://x/z")), None);
    assert_eq!(slot.request(invite("second", 43)), None);
    let resolved = slot.deliver(101, String::from("https://x/w")).unwrap();
    assert_eq!(resolved.invite.request_id, "second");
    assert_eq!((resolved.guest_id, resolved.connect_url.as_str()), (101, "https://x/w"));
}

#[test]
fn event_without_request_is_dropped() {
    let mut slot = InviteCorrelator::new();
    assert_eq!(slot.deliver(1, String::from("stale")), None);
    assert_eq!(slot.request(invite("r", 1)), None);
    assert!(slot.is_pending());
    let resolved = slot.deliver(2, String::from("fresh")).unwrap();
    assert_eq!((resolved.guest_id, resolved.connect_url.as_str()), (2, "fresh"));
}

#[test]
fn cancel_empties_the_slot() {
    let mut slot = InviteCorrelator::new();
    assert_eq!(slot.cancel(), None);
    slot.request(invite("r", 1));
    assert_eq!(slot.cancel(), Some(invite("r", 1)));
    assert!(!slot.is_pending());
    assert_eq!(slot.deliver(2, String::from("late")), None);
}
