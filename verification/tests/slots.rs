use rewards::emotes::EmoteEnvData;
use rewards::platform::SlotPlatform;
use rewards::slots::{
    check_grow, check_room, expire_now, fill_slot, first_free_slot, order_for_deletion,
    pick_slots_to_delete, resize_step, slot_lifetime, slot_message, slots_after_fill,
    untracked_slot_name, ResizeStep, SlotEntry,
};

fn slot(id: i32, emote: Option<&str>) -> SlotEntry {
    SlotEntry {
        id,
        emote_id: emote.map(|e| e.to_string()),
        name: emote.map(|e| format!("name-{e}")),
        expires: None,
        added_by: None,
        added_at: None,
    }
}

#[test]
fn resize_steps() {
    assert_eq!(resize_step(0, 3).unwrap_err(), "You can't have 0 slots");
    assert_eq!(resize_step(2, 5).unwrap(), ResizeStep::Shrink(3));
    assert_eq!(resize_step(5, 2).unwrap(), ResizeStep::Grow(3));
    assert_eq!(resize_step(4, 4).unwrap(), ResizeStep::Keep);
}

#[test]
fn free_slots_are_deleted_first() {
    let slots = vec![slot(1, Some("a")), slot(2, None), slot(3, Some("b")), slot(4, None)];
    let order: Vec<i32> = order_for_deletion(slots).iter().map(|s| s.id).collect();
    assert_eq!(order, vec![2, 4, 1, 3]);

    let slots = vec![slot(1, Some("a")), slot(2, None), slot(3, Some("b")), slot(4, None)];
    let deleted: Vec<i32> = pick_slots_to_delete(slots, 3).iter().map(|s| s.id).collect();
    assert_eq!(deleted, vec![2, 4, 1]);

    let slots = vec![slot(1, Some("a")), slot(2, None)];
    let deleted = pick_slots_to_delete(slots, 1);
    assert_eq!(deleted.len(), 1);
    assert!(deleted[0].emote_id.is_none());
}

#[test]
fn growing_needs_room() {
    let env = EmoteEnvData { max_emotes: 10, current_emotes: 7 };
    assert_eq!(
        check_grow(SlotPlatform::Bttv, &env, 3, 1).unwrap_err(),
        "There are 3 free slots on Bttv, 3 slots are known to be available"
    );
    assert_eq!(
        check_grow(SlotPlatform::SevenTv, &env, 1, 5).unwrap_err(),
        "There are 3 free slots on SevenTv (actually 2 because 1 are already uses as slots here) but I need 5"
    );
    assert!(check_grow(SlotPlatform::Ffz, &env, 1, 2).is_ok());
}

#[test]
fn filling_a_slot() {
    assert_eq!(first_free_slot(vec![]).unwrap_err(), "No free slot is available!");
    let (s, n) = first_free_slot(vec![slot(7, None), slot(8, None)]).unwrap();
    assert_eq!((s.id, n), (7, 2));
    assert_eq!(check_room(5, 5).unwrap_err(), "There's no free slot!");
    assert!(check_room(4, 5).is_ok());
    let filled = fill_slot(s, "e1".into(), "Pog".into(), "viewer".into(), 100, 200);
    assert_eq!(filled.id, 7);
    assert_eq!(filled.emote_id.as_deref(), Some("e1"));
    assert_eq!(filled.name.as_deref(), Some("Pog"));
    assert_eq!(filled.added_by.as_deref(), Some("viewer"));
    assert_eq!(filled.added_at, Some(100));
    assert_eq!(filled.expires, Some(200));
    assert_eq!(slots_after_fill(1), (0, true));
    assert_eq!(slots_after_fill(3), (2, false));
}

#[test]
fn slot_lifetimes() {
    assert_eq!(slot_lifetime("2h").unwrap(), 7200 * 1_000_000_000);
    assert_eq!(slot_lifetime("1d 1s").unwrap(), 86401 * 1_000_000_000);
    assert_eq!(slot_lifetime("1500ms").unwrap(), 1_500_000_000);
    assert_eq!(slot_lifetime("1s 5ns").unwrap(), 1_000_000_005);
    assert_eq!(slot_lifetime("never").unwrap_err(), "No expiration set!");
    assert_eq!(slot_lifetime("1000000000y").unwrap_err(), "Could not add duration lole");
    assert_eq!(slot_lifetime("292000000y").unwrap(), 292_000_000 * 31_557_600 * 1_000_000_000);
    assert_eq!(slot_lifetime("10000000000000000s").unwrap_err(), "Could not add duration lole");
    assert_eq!(slot_lifetime("9223372036854775s 807ms").unwrap(), 9_223_372_036_854_775_807_000_000);
    assert_eq!(slot_lifetime("9223372036854775s 808ms").unwrap_err(), "Could not add duration lole");
}

#[test]
fn slot_messages() {
    assert_eq!(slot_message("Pog", 3), "☑ Added Pog - 🔳 3 slots open");
    assert_eq!(slot_message("Pog", 1), "☑ Added Pog - 🔳 1 slot open");
    assert_eq!(slot_message("Pog", 0), "☑ Added Pog - 0 slots open - 🔒 closing");
}

#[test]
fn removing_slots() {
    let s = expire_now(slot(3, Some("x")));
    assert_eq!(s.expires, Some(0));
    assert_eq!(s.emote_id.as_deref(), Some("x"));
    assert_eq!(untracked_slot_name(None), "<empty slot>");
    assert_eq!(untracked_slot_name(Some("Kappa".into())), "Kappa");
}
