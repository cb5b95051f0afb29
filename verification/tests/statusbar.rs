use abar::monitor::Command;
use abar::{StatusBar, StatusBarBuilder, StatusBlock, StatusBlockBuilder};

type Source = fn() -> String;

const SECOND: u128 = 1_000_000_000;

fn holding(text: &str) -> StatusBlock<Source> {
    let mut block: StatusBlock<Source> = StatusBlock::default();
    block.overwrite(String::from(text));
    block
}

fn stamped(name: &str, at: u128, interval: Option<u128>) -> StatusBlock<Source> {
    let mut block: StatusBlock<Source> =
        StatusBlockBuilder::<Source>::new(|| String::from("fresh")).name(String::from(name)).build();
    block.set_update_interval(interval);
    block.cache.overwrite_at(String::from("stale"), at);
    block
}

#[test]
fn statusbar_default_has_correct_fields() {
    let bar: StatusBar<Source> = StatusBar::default();
    assert!(bar.blocks.is_empty());
    assert_eq!(bar.delimiter, "");
    assert_eq!(bar.left_buffer, "");
    assert_eq!(bar.right_buffer, "");
}

#[test]
fn statusbar_display_draws_blocks() {
    let mut bar: StatusBar<Source> = StatusBar::default();

    bar.blocks.push(holding("test1"));
    bar.blocks.push(holding("test2"));

    assert_eq!(bar.to_string(), "test1test2");
}

#[test]
fn statusbar_display_draws_delimiters() {
    let mut bar: StatusBar<Source> = StatusBar::default();
    bar.delimiter = String::from(" | ");
    bar.left_buffer = String::from(" >>> ");
    bar.right_buffer = String::from(" <<< ");

    bar.blocks.push(holding("test1"));
    bar.blocks.push(holding("test2"));

    assert_eq!(bar.to_string(), " >>> test1 | test2 <<< ");
}

#[test]
fn statusbar_display_draws_empty_blocks_if_needed() {
    let mut bar: StatusBar<Source> = StatusBar::default();
    bar.delimiter = String::from(" | ");
    bar.left_buffer = String::from(" >>> ");
    bar.right_buffer = String::from(" <<< ");
    bar.hide_empty_modules = false;

    bar.blocks.push(holding("test1"));
    bar.blocks.push(StatusBlock::default());
    bar.blocks.push(holding("test3"));

    assert_eq!(bar.to_string(), " >>> test1 |  | test3 <<< ");
}

#[test]
fn statusbar_display_ignores_empty_blocks_if_needed() {
    let mut bar: StatusBar<Source> = StatusBar::default();
    bar.delimiter = String::from(" | ");
    bar.left_buffer = String::from(" >>> ");
    bar.right_buffer = String::from(" <<< ");
    bar.hide_empty_modules = true;

    bar.blocks.push(holding("test1"));
    bar.blocks.push(StatusBlock::default());
    bar.blocks.push(holding("test3"));

    assert_eq!(bar.to_string(), " >>> test1 | test3 <<< ");
}

#[test]
fn mod_display_draws_blocks() {
    let mut bar: StatusBar<Source> = StatusBar::default();

    let block1 = StatusBlockBuilder::<Source>::default().function(|| String::from("test1")).build();
    let block2 = StatusBlockBuilder::<Source>::default().function(|| String::from("test2")).build();

    bar.blocks.push(block1);
    bar.blocks.push(block2);

    assert_eq!(bar.to_string(), "test1test2");
}

#[test]
fn mod_display_draws_delimiters() {
    let mut bar: StatusBar<Source> = StatusBar::default();
    bar.delimiter = String::from(" | ");
    bar.left_buffer = String::from(" >>> ");
    bar.right_buffer = String::from(" <<< ");

    let block1 = StatusBlockBuilder::<Source>::default().function(|| String::from("test1")).build();
    let block2 = StatusBlockBuilder::<Source>::default().function(|| String::from("test2")).build();

    bar.blocks.push(block1);
    bar.blocks.push(block2);

    assert_eq!(bar.to_string(), " >>> test1 | test2 <<< ");
}

#[test]
fn mod_display_draws_empty_blocks_if_needed() {
    let mut bar: StatusBar<Source> = StatusBar::default();
    bar.delimiter = String::from(" | ");
    bar.left_buffer = String::from(" >>> ");
    bar.right_buffer = String::from(" <<< ");
    bar.hide_empty_modules = false;

    let block1 = StatusBlockBuilder::<Source>::default().function(|| String::from("test1")).build();
    let block3 = StatusBlockBuilder::<Source>::default().function(|| String::from("test3")).build();

    let block2 = StatusBlockBuilder::<Source>::default().build();

    bar.blocks.push(block1);
    bar.blocks.push(block2);
    bar.blocks.push(block3);

    assert_eq!(bar.to_string(), " >>> test1 |  | test3 <<< ");
}

#[test]
fn mod_display_ignores_empty_blocks_if_needed() {
    let mut bar: StatusBar<Source> = StatusBar::default();
    bar.delimiter = String::from(" | ");
    bar.left_buffer = String::from(" >>> ");
    bar.right_buffer = String::from(" <<< ");
    bar.hide_empty_modules = true;

    let block1 = StatusBlockBuilder::<Source>::default().function(|| String::from("test1")).build();
    let block3 = StatusBlockBuilder::<Source>::default().function(|| String::from("test3")).build();

    let block2 = StatusBlockBuilder::<Source>::default().build();

    bar.blocks.push(block1);
    bar.blocks.push(block2);
    bar.blocks.push(block3);

    assert_eq!(bar.to_string(), " >>> test1 | test3 <<< ");
}

#[test]
fn render_composes_buffers_texts_and_delimiters() {
    let blocks = vec![holding("a"), holding(""), holding("b")];
    let bar = StatusBarBuilder::new(blocks)
        .delimiter("|")
        .left_buffer(">")
        .right_buffer("<")
        .hide_empty_modules(true)
        .build();
    assert_eq!(bar.render(), ">a|b<");

    let blocks = vec![holding("a"), holding(""), holding("b")];
    let bar = StatusBarBuilder::new(blocks)
        .delimiter("|")
        .left_buffer(">")
        .right_buffer("<")
        .hide_empty_modules(false)
        .build();
    assert_eq!(bar.render(), ">a||b<");
}

#[test]
fn hidden_blocks_leave_no_delimiter_behind() {
    let bar = StatusBarBuilder::new(vec![holding(""), holding("a"), holding("")])
        .delimiter("|")
        .hide_empty_modules(true)
        .build();
    assert_eq!(bar.render(), "a");

    let bar = StatusBarBuilder::new(vec![holding(""), holding("")])
        .delimiter("|")
        .left_buffer("[")
        .right_buffer("]")
        .hide_empty_modules(true)
        .build();
    assert_eq!(bar.render(), "[]");

    let bar: StatusBar<Source> =
        StatusBarBuilder::new(Vec::new()).delimiter("|").left_buffer("[").right_buffer("]").build();
    assert_eq!(bar.render(), "[]");
}

#[test]
fn builder_keeps_the_blocks_in_order() {
    let bar = StatusBarBuilder::default()
        .blocks(vec![holding("1"), holding("2"), holding("3")])
        .delimiter(",")
        .build();
    assert!(!bar.hide_empty_modules);
    assert_eq!(bar.render(), "1,2,3");
}

#[test]
fn bar_sleeps_until_the_earliest_deadline() {
    let now: u128 = 100 * SECOND;
    let mut bar: StatusBar<Source> = StatusBar::default();
    bar.blocks.push(stamped("a", now - SECOND, Some(2 * SECOND)));
    bar.blocks.push(stamped("b", now, Some(5 * SECOND)));
    bar.blocks.push(stamped("c", now, None));
    assert_eq!(bar.time_until_next_update_at(now), Some(SECOND));
    assert!(bar.time_until_next_update().is_some());
}

#[test]
fn bar_without_deadlines_sleeps_without_end() {
    let now: u128 = 100 * SECOND;
    let mut bar: StatusBar<Source> = StatusBar::default();
    assert_eq!(bar.time_until_next_update_at(now), None);
    bar.blocks.push(stamped("a", now, None));
    bar.blocks.push(stamped("b", now, None));
    bar.blocks.push(stamped("c", now, None));
    assert_eq!(bar.time_until_next_update_at(now), None);
    assert_eq!(bar.time_until_next_update(), None);
}

#[test]
fn passed_deadline_means_no_sleep() {
    let now: u128 = 100 * SECOND;
    let mut bar: StatusBar<Source> = StatusBar::default();
    bar.blocks.push(stamped("a", now - 10 * SECOND, Some(2 * SECOND)));
    bar.blocks.push(stamped("b", now, Some(5 * SECOND)));
    assert_eq!(bar.time_until_next_update_at(now), Some(0));

    let mut fresh: StatusBar<Source> = StatusBar::default();
    fresh.blocks.push(StatusBlock::<Source>::new(|| String::from("x"), Some(SECOND)));
    assert_eq!(fresh.time_until_next_update_at(now), Some(0));
}

#[test]
fn update_refreshes_every_block_of_that_name() {
    let mut bar: StatusBar<Source> = StatusBar::default();
    bar.blocks.push(stamped("x", 7, None));
    bar.blocks.push(stamped("y", 7, None));
    bar.blocks.push(stamped("x", 7, None));
    bar.blocks.push(holding("nameless"));

    bar.update(&vec![String::from("x")]);
    assert_eq!(bar.render(), "freshstalefreshnameless");
    assert_ne!(bar.blocks[0].last_update(), Some(7));
    assert_eq!(bar.blocks[1].last_update(), Some(7));
    assert_ne!(bar.blocks[2].last_update(), Some(7));
}

#[test]
fn update_of_an_unknown_name_changes_nothing() {
    let mut bar: StatusBar<Source> = StatusBar::default();
    bar.blocks.push(stamped("a", 7, Some(SECOND)));
    bar.blocks.push(stamped("b", 8, None));
    bar.blocks.push(holding(""));
    let stamp = bar.blocks[2].last_update();

    bar.update(&vec![String::from("x"), String::new()]);
    assert_eq!(bar.blocks[0].last_update(), Some(7));
    assert_eq!(bar.blocks[1].last_update(), Some(8));
    assert_eq!(bar.blocks[2].last_update(), stamp);
    assert_eq!(bar.render(), "stalestale");

    bar.update(&Vec::new());
    assert_eq!(bar.render(), "stalestale");
}

#[test]
fn handle_tells_whether_the_loop_goes_on() {
    let mut bar: StatusBar<Source> = StatusBar::default();
    bar.blocks.push(stamped("a", 7, None));

    assert!(bar.handle(None));
    assert!(bar.handle(Some(Command::Refresh)));
    assert_eq!(bar.render(), "stale");
    assert_eq!(bar.blocks[0].last_update(), Some(7));

    assert!(bar.handle(Some(Command::Update(vec![String::from("a")]))));
    assert_eq!(bar.render(), "fresh");

    assert!(!bar.handle(Some(Command::Shutdown)));
    assert_eq!(bar.render(), "fresh");
}

#[test]
fn refresh_updates_only_blocks_that_are_due() {
    let mut bar: StatusBar<Source> = StatusBar::default();
    bar.blocks.push(stamped("old", 7, Some(SECOND)));
    bar.blocks.push(stamped("once", 7, None));
    bar.refresh();
    assert_eq!(bar.render(), "freshstale");
}

#[test]
fn attached_bar_sends_jobs_for_due_blocks() {
    let (jobs_tx, jobs_rx) = flume::bounded(8);
    let (monitor_tx, _monitor_rx) = flume::bounded(8);
    let mut bar: StatusBar<Source> = StatusBar::default();
    bar.blocks.push(stamped("a", 7, Some(SECOND)));
    bar.blocks.push(stamped("b", 7, None));
    bar.attach_threadpool(&jobs_tx);

    assert_eq!(bar.to_string(), "stalestale");
    assert_eq!(jobs_rx.len(), 1);
    assert!(abar::threadpool::serve(jobs_rx.recv().unwrap(), &monitor_tx));
    assert_eq!(bar.to_string(), "freshstale");
}
