use rewards::swap::{
    history_after_removal, pick_random_index,
    add_failure_message, added_emote_name, choose_swap_reward, needs_removal, over_limit,
    prune_step, removed_message, swap_message, LastEmoteRemoval, SwapStats,
};

#[test]
fn removal_is_needed_when_full_or_at_the_limit() {
    assert!(!needs_removal(None, 100, 3, 10));
    assert!(needs_removal(None, 0, 10, 10));
    assert!(needs_removal(Some(5), 5, 3, 10));
    assert!(!needs_removal(Some(5), 4, 3, 10));
}

#[test]
fn names_and_messages() {
    assert_eq!(added_emote_name(Some("Alias"), "Orig".into()), "Alias");
    assert_eq!(added_emote_name(None, "Orig".into()), "Orig");
    assert_eq!(swap_message("A", Some("B")), "☑ Added A - 🗑 Removed B");
    assert_eq!(swap_message("A", None), "☑ Added A");
    assert_eq!(removed_message("Kappa"), "🗑 Removed Kappa");
}

#[test]
fn failure_messages_are_cut() {
    assert_eq!(add_failure_message(None, "nope"), "Couldn't add emote: nope");
    assert_eq!(
        add_failure_message(Some("Old"), "nope"),
        "Removed Old, but couldn't add emote: nope"
    );
    let long = "x".repeat(300);
    let msg = add_failure_message(None, &long);
    assert_eq!(msg.len(), 200);
    assert!(msg.ends_with("..."));
    assert!(msg.starts_with("Couldn't add emote: xxx"));
}

#[test]
fn last_emote_search() {
    let mut s = LastEmoteRemoval::new();
    assert!(s.record("First".into(), false));
    assert!(!s.record("Second".into(), true));
    assert_eq!(s.finish(), (Ok("Second".to_string()), 1));
    let (res, n) = LastEmoteRemoval::new().finish();
    assert_eq!(n, 0);
    assert_eq!(
        res.unwrap_err(),
        "There are no recent emotes to remove - refusing to remove random emote."
    );
}

#[test]
fn pruning() {
    assert!(over_limit(5, 4));
    assert!(!over_limit(4, 4));
    assert_eq!(prune_step(5, 3, (Ok("x".into()), 1)).unwrap(), (4, false));
    assert_eq!(prune_step(4, 3, (Ok("x".into()), 1)).unwrap(), (3, true));
    assert_eq!(prune_step(4, 3, (Err("gone".into()), 0)).unwrap_err(), "gone");
}

#[test]
fn choosing_a_reward() {
    let stats = vec![
        SwapStats { reward_id: "a".into(), limit: Some(2), count: 2 },
        SwapStats { reward_id: "b".into(), limit: None, count: 50 },
    ];
    assert_eq!(choose_swap_reward(&stats, "::").unwrap(), 1);
    let full = vec![SwapStats { reward_id: "a".into(), limit: Some(1), count: 1 }];
    assert_eq!(
        choose_swap_reward(&full, "::").unwrap_err(),
        "No reward with enough capacity, try ::emote reload"
    );
}

#[test]
fn swap_history() {
    let h = vec!["a".to_string(), "b".to_string(), "c".to_string()];
    assert_eq!(history_after_removal(h.clone(), Some(0)), vec!["b".to_string(), "c".to_string()]);
    assert_eq!(history_after_removal(h.clone(), Some(2)), Vec::<String>::new());
    assert_eq!(history_after_removal(h, None), Vec::<String>::new());
    for _ in 0..20 {
        assert!(pick_random_index(3) < 3);
    }
    assert_eq!(pick_random_index(1), 0);
}
