use abar::statusblock::clamp_text;
use abar::{StatusBlock, StatusBlockBuilder};

type Source = fn() -> String;

const SECOND: u128 = 1_000_000_000;

/// Returns once the system clock reads a later time than at the call.
fn tick() {
    let start = std::time::SystemTime::now();
    while std::time::SystemTime::now() <= start {
        std::hint::spin_loop();
    }
}

#[test]
fn mod_default_has_correct_fields() {
    let mut block: StatusBlock<Source> = StatusBlock::default();
    assert_eq!(block.name, None);
    assert_eq!(block.min_size, None);
    assert_eq!(block.max_size, None);
    assert_eq!(block.to_string(), "");
}

#[test]
fn mod_display_draws_the_cache() {
    let mut block = StatusBlock::new(|| String::from("test"), None);
    assert_eq!(block.to_string(), "test");
}

#[test]
fn mod_max_size_is_respected() {
    let mut block = StatusBlock::new(|| String::from("a very long string"), None);

    block.max_size = Some(10);

    block.update_now();
    assert_eq!(block.to_string(), "a very lon");
}

#[test]
fn mod_min_size_is_respected() {
    let mut block = StatusBlock::new(|| String::from("a short string"), None);

    block.min_size = Some(20);

    block.update_now();
    assert_eq!(block.to_string(), "a short string      ");
}

#[test]
fn statusblock_default_has_correct_fields() {
    let mut block: StatusBlock<Source> = StatusBlock::default();
    assert_eq!(block.name.clone().unwrap_or_default(), "");
    assert_eq!(block.current(), "");
    assert_eq!(block.to_string(), "");
}

#[test]
fn statusblock_display_draws_the_cache() {
    let mut block: StatusBlock<Source> = StatusBlock::default();
    block.overwrite(String::from("test"));
    assert_eq!(block.to_string(), "test");
}

#[test]
fn update_changes_cache_if_needed() {
    let mut block: StatusBlock<Source> = StatusBlock::default();
    let interval: u128 = 1;

    block.set_function(|| String::from("test"));
    block.set_update_interval(Some(interval));

    block.update();
    assert_eq!(block.to_string(), "test");
}

#[test]
fn update_does_not_trigger_if_not_needed() {
    let mut block: StatusBlock<Source> = StatusBlock::default();
    block.update();

    let interval = 60 * SECOND;
    block.set_update_interval(Some(interval));
    block.set_function(|| String::from("test"));

    block.update();
    assert_ne!(block.to_string(), "test");
}

#[test]
fn update_now_changes_cache() {
    let mut block: StatusBlock<Source> = StatusBlock::default();
    block.set_function(|| String::from("test"));
    block.update_now();

    assert_eq!(block.to_string(), "test");
}

#[test]
fn last_update_is_changed_on_update() {
    let mut block: StatusBlock<Source> = StatusBlock::default();
    assert_eq!(block.last_update(), None);

    block.set_function(|| String::from("test"));
    block.update_now();
    assert!(block.last_update().is_some());

    let before = block.last_update();
    tick();
    block.update_now();
    let after = block.last_update();
    assert_ne!(before, after);
}

#[test]
fn statusblock_max_size_is_respected() {
    let mut block: StatusBlock<Source> = StatusBlock::default();
    block.set_function(|| String::from("a very long string"));
    block.max_size = Some(10);

    block.update_now();
    assert_eq!(block.to_string(), "a very lon");
}

#[test]
fn statusblock_min_size_is_respected() {
    let mut block: StatusBlock<Source> = StatusBlock::default();
    block.set_function(|| String::from("a short string"));
    block.min_size = Some(20);

    block.update_now();
    assert_eq!(block.to_string(), "a short string      ");
}

#[test]
fn text_is_cut_to_the_greatest_width() {
    assert_eq!(clamp_text("abcdef", None, Some(3)), "abc");
    assert_eq!(clamp_text("abc", None, Some(3)), "abc");
    assert_eq!(clamp_text("ab", None, Some(3)), "ab");
    assert_eq!(clamp_text("abc", None, Some(0)), "");
}

#[test]
fn text_is_filled_to_the_least_width() {
    assert_eq!(clamp_text("ab", Some(5), None), "ab   ");
    assert_eq!(clamp_text("abcde", Some(5), None), "abcde");
    assert_eq!(clamp_text("abcdef", Some(5), None), "abcdef");
    assert_eq!(clamp_text("", Some(2), None), "  ");
    assert_eq!(clamp_text("", None, None), "");
}

#[test]
fn widths_are_applied_cut_first() {
    assert_eq!(clamp_text("abcdef", Some(5), Some(3)), "abc  ");
    assert_eq!(clamp_text("abcdef", Some(2), Some(4)), "abcd");
    assert_eq!(clamp_text("a", Some(2), Some(4)), "a ");
}

#[test]
fn widths_count_characters() {
    assert_eq!(clamp_text("\u{e9}t\u{e9}s", None, Some(3)), "\u{e9}t\u{e9}");
    assert_eq!(clamp_text("\u{e9}", Some(3), None), "\u{e9}  ");
}

#[test]
fn clamping_twice_changes_nothing() {
    let once = clamp_text("abcdef", Some(5), Some(3));
    assert_eq!(clamp_text(&once, Some(5), Some(3)), once);
}

#[test]
fn block_is_due_until_first_evaluated() {
    let mut block = StatusBlock::new(|| String::from("x"), Some(5 * SECOND));
    assert!(block.needs_update());
    assert!(block.needs_update_at(0));
    assert_eq!(block.next_deadline_at(17), Some(17));
    assert!(block.next_deadline().is_some());

    block.update_at(100);
    assert_eq!(block.current(), "x");
    assert_eq!(block.last_update(), Some(100));
    assert!(!block.needs_update_at(100 + 5 * SECOND));
    assert!(block.needs_update_at(101 + 5 * SECOND));
    assert_eq!(block.next_deadline_at(0), Some(100 + 5 * SECOND));
}

#[test]
fn block_without_interval_is_never_due_again() {
    let mut block = StatusBlock::new(|| String::from("x"), None);
    block.update_at(1);
    assert_eq!(block.next_deadline_at(2), None);
    assert!(!block.needs_update_at(u128::MAX));
    assert!(!block.needs_update());
}

#[test]
fn builder_sets_every_part() {
    let mut block = StatusBlockBuilder::<Source>::new(|| String::from("abcdef"))
        .name(String::from("letters"))
        .min_size(2)
        .max_size(4)
        .update_interval(SECOND)
        .build();
    assert_eq!(block.name, Some(String::from("letters")));
    assert_eq!(block.min_size, Some(2));
    assert_eq!(block.max_size, Some(4));
    assert_eq!(block.current(), "  ");
    block.update_at(10);
    assert_eq!(block.current(), "abcd");
    assert_eq!(block.next_deadline_at(0), Some(10 + SECOND));
}

#[test]
fn builder_without_function_builds_an_empty_block() {
    let mut block: StatusBlock<Source> = StatusBlockBuilder::<Source>::default().build();
    assert_eq!(block.to_string(), "");
    assert!(block.last_update().is_some());

    let mut other = StatusBlockBuilder::<Source>::default().function(|| String::from("f")).build();
    assert_eq!(other.to_string(), "f");
}

#[test]
fn pooled_block_shows_the_old_text_while_pending() {
    let (jobs_tx, jobs_rx) = flume::bounded(4);
    let (monitor_tx, _monitor_rx) = flume::bounded(4);
    let mut block = StatusBlock::new(|| String::from("new"), Some(SECOND));
    block.overwrite(String::from("old"));
    block.attach_threadpool(jobs_tx);

    block.update_now();
    assert_eq!(block.current(), "old");
    assert_eq!(block.next_deadline_at(0), None);

    assert!(abar::threadpool::serve(jobs_rx.recv().unwrap(), &monitor_tx));
    assert_eq!(block.to_string(), "new");
}
