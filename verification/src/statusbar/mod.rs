//! The bar: an ordered row of blocks joined into one line of text, the time
//! it may sleep until the next block is due, and its reaction to commands.

pub mod builder;

use vstd::prelude::*;
use vstd::string::*;
use crate::clock::now;
use crate::monitor::Command;
use crate::statusblock::StatusBlock;
use crate::text::join;
use crate::threadpool::JobsSender;

verus! {

/// The entries that are drawn: all of `texts`, or only the ones that are not
/// empty where `hide_empty` is set. Their order is kept.
pub open spec fn shown(texts: Seq<Seq<char>>, hide_empty: bool) -> Seq<Seq<char>> {
    if hide_empty {
        texts.filter(|text: Seq<char>| text.len() > 0)
    } else {
        texts
    }
}

/// What one more text adds to the entries that are drawn: itself, unless it is
/// empty and empty texts are hidden.
pub proof fn lemma_shown_push(texts: Seq<Seq<char>>, text: Seq<char>, hide_empty: bool)
    ensures
        shown(texts.push(text), hide_empty) == if hide_empty && text.len() == 0 {
            shown(texts, hide_empty)
        } else {
            shown(texts, hide_empty).push(text)
        },
{
    reveal(Seq::filter);
    assert(texts.push(text).drop_last() =~= texts);
}

/// The line drawn for `texts` between the two buffers.
pub open spec fn line_of(
    left_buffer: Seq<char>,
    texts: Seq<Seq<char>>,
    delimiter: Seq<char>,
    right_buffer: Seq<char>,
    hide_empty: bool,
) -> Seq<char> {
    left_buffer + join(shown(texts, hide_empty), delimiter) + right_buffer
}

/// How long to wait at `now` for `deadline`: not at all where it has passed.
pub open spec fn wait(deadline: u128, now: u128) -> u128 {
    if deadline > now {
        (deadline - now) as u128
    } else {
        0
    }
}

/// Whether one of `names` is the name of `block`.
pub open spec fn listed<F: Fn() -> String + Copy>(names: Seq<String>, block: StatusBlock<F>) -> bool {
    exists|k: int| 0 <= k < names.len() && block.is_named(#[trigger] names[k]@)
}

/// A row of blocks and what is drawn around and between them.
#[verifier::reject_recursive_types(F)]
pub struct StatusBar<F> {
    pub blocks: Vec<StatusBlock<F>>,
    pub delimiter: String,
    pub left_buffer: String,
    pub right_buffer: String,
    pub hide_empty_modules: bool,
}

impl<F: Fn() -> String + Copy> Default for StatusBar<F> {
    /// An empty bar that hides empty blocks.
    fn default() -> (bar: Self)
        ensures
            bar.wf(),
            bar.blocks@.len() == 0,
            bar.delimiter@ == Seq::<char>::empty(),
            bar.left_buffer@ == Seq::<char>::empty(),
            bar.right_buffer@ == Seq::<char>::empty(),
            bar.hide_empty_modules,
    {
        Self::new()
    }
}

impl<F: Fn() -> String + Copy> StatusBar<F> {
    /// Every block is well-formed.
    pub open spec fn wf(&self) -> bool {
        forall|i: int| 0 <= i < self.blocks.len() ==> (#[trigger] self.blocks[i]).wf()
    }

    /// The texts of the blocks in display order.
    pub open spec fn texts(&self) -> Seq<Seq<char>> {
        Seq::new(self.blocks.len() as nat, |i: int| self.blocks[i].text())
    }

    /// The line the bar draws as it stands.
    pub open spec fn rendered(&self) -> Seq<char> {
        line_of(
            self.left_buffer@,
            self.texts(),
            self.delimiter@,
            self.right_buffer@,
            self.hide_empty_modules,
        )
    }

    /// Whether `self` has the blocks of `before` in the same order, each
    /// changed in the state of its cache at most, and draws the same around
    /// them.
    pub open spec fn same_bar_as(&self, before: &Self) -> bool {
        &&& self.blocks.len() == before.blocks.len()
        &&& self.delimiter == before.delimiter
        &&& self.left_buffer == before.left_buffer
        &&& self.right_buffer == before.right_buffer
        &&& self.hide_empty_modules == before.hide_empty_modules
        &&& forall|i: int|
            0 <= i < self.blocks.len() ==> (#[trigger] self.blocks[i]).same_block_as(
                &before.blocks[i],
            )
    }

    /// Whether `self` is `before` after a forced refresh of the blocks that
    /// `names` lists: each of those has done what a forced refresh does, and
    /// every other block is what it was.
    pub open spec fn updated_from(&self, before: &Self, names: Seq<String>) -> bool {
        &&& self.same_bar_as(before)
        &&& forall|i: int|
            0 <= i < self.blocks.len() ==> if listed(names, before.blocks[i]) {
                (#[trigger] self.blocks[i]).forced_from(&before.blocks[i])
            } else {
                self.blocks[i] == before.blocks[i]
            }
    }

    /// A bar with a block that is due does not sleep at all.
    pub proof fn lemma_due_block_allows_no_sleep(&self, pause: Option<u128>, now: u128, i: int)
        requires
            self.is_least_pause(pause, now),
            0 <= i < self.blocks.len(),
            self.blocks[i].state().is_due(now),
        ensures
            pause == Some(0u128),
    {
        assert(self.pause_of(i, now) == Some(0u128));
    }

    /// The bar's sleep ends no later than any deadline that has not passed,
    /// and at once where one has.
    pub proof fn lemma_sleep_ends_by_every_deadline(&self, pause: Option<u128>, now: u128, i: int)
        requires
            self.is_least_pause(pause, now),
            0 <= i < self.blocks.len(),
            self.blocks[i].state().deadline(now) is Some,
        ensures
            pause is Some,
            self.blocks[i].state().deadline(now).unwrap() >= now ==> now + pause.unwrap()
                <= self.blocks[i].state().deadline(now).unwrap(),
            self.blocks[i].state().deadline(now).unwrap() <= now ==> pause == Some(0u128),
    {
        assert(self.pause_of(i, now) is Some);
    }

    /// If none of `names` is the name of a block, a forced refresh of the
    /// blocks that `names` lists changes no block: every text and every time
    /// of a last refresh is what it was.
    pub proof fn lemma_update_of_unknown_names(&self, before: &Self, names: Seq<String>)
        requires
            self.updated_from(before, names),
            forall|i: int| 0 <= i < before.blocks.len() ==> !listed(names, #[trigger] before.blocks[i]),
        ensures
            self.blocks@ == before.blocks@,
            self.rendered() == before.rendered(),
            forall|i: int|
                0 <= i < self.blocks.len() ==> (#[trigger] self.blocks[i]).state().last_update
                    == before.blocks[i].state().last_update,
    {
        assert(self.blocks@ =~= before.blocks@);
        assert(self.texts() =~= before.texts());
    }

    /// An empty bar that hides empty blocks.
    pub fn new() -> (bar: Self)
        ensures
            bar.wf(),
            bar.blocks@.len() == 0,
            bar.delimiter@ == Seq::<char>::empty(),
            bar.left_buffer@ == Seq::<char>::empty(),
            bar.right_buffer@ == Seq::<char>::empty(),
            bar.hide_empty_modules,
    {
        Self {
            blocks: Vec::new(),
            delimiter: String::new(),
            left_buffer: String::new(),
            right_buffer: String::new(),
            hide_empty_modules: true,
        }
    }

    /// The line the bar draws as it stands, without a refresh.
    pub fn render(&self) -> (line: String)
        ensures
            line@ == self.rendered(),
    {
        let mut line = self.left_buffer.clone();
        let mut any = false;
        let mut i: usize = 0;
        let ghost texts = self.texts();
        let hide = self.hide_empty_modules;
        proof {
            reveal(Seq::filter);
            assert(texts.take(0) =~= Seq::empty());
            assert(shown(texts.take(0), hide) =~= Seq::empty());
            assert(self.left_buffer@ + Seq::<char>::empty() =~= self.left_buffer@);
        }
        while i < self.blocks.len()
            invariant
                i <= self.blocks.len(),
                texts == self.texts(),
                hide == self.hide_empty_modules,
                line@ == self.left_buffer@ + join(shown(texts.take(i as int), hide), self.delimiter@),
                any == (shown(texts.take(i as int), hide).len() > 0),
            decreases self.blocks.len() - i,
        {
            let text = self.blocks[i].current();
            let ghost before = shown(texts.take(i as int), hide);
            proof {
                assert(texts.take(i + 1) =~= texts.take(i as int).push(text@));
                lemma_shown_push(texts.take(i as int), text@, hide);
            }
            if !(hide && text.as_str().is_empty()) {
                if any {
                    line.append(self.delimiter.as_str());
                }
                line.append(text.as_str());
                proof {
                    let after = before.push(text@);
                    assert(after.drop_last() =~= before);
                    assert(line@ =~= self.left_buffer@ + join(after, self.delimiter@));
                }
                any = true;
            }
            i = i + 1;
        }
        assert(texts.take(i as int) =~= texts);
        line.append(self.right_buffer.as_str());
        line
    }

    /// How long block `i` lets the bar sleep at `now`: until its deadline, not
    /// at all where that has passed, and without end (`None`) where it has
    /// none.
    pub open spec fn pause_of(&self, i: int, now: u128) -> Option<u128> {
        match self.blocks[i].state().deadline(now) {
            Some(deadline) => Some(wait(deadline, now)),
            None => None,
        }
    }

    /// Whether `pause` is how long the bar may sleep at `now`: the least of
    /// what its blocks allow, and without end (`None`) exactly where no block
    /// has a deadline.
    pub open spec fn is_least_pause(&self, pause: Option<u128>, now: u128) -> bool {
        &&& pause is None <==> forall|i: int|
            0 <= i < self.blocks.len() ==> #[trigger] self.pause_of(i, now) is None
        &&& pause is Some ==> exists|i: int|
            0 <= i < self.blocks.len() && #[trigger] self.pause_of(i, now) == pause
        &&& forall|j: int|
            0 <= j < self.blocks.len() && #[trigger] self.pause_of(j, now) is Some
                ==> pause.unwrap() <= self.pause_of(j, now).unwrap()
    }

    /// How long the bar may sleep at `now`.
    pub fn time_until_next_update_at(&self, now: u128) -> (pause: Option<u128>)
        ensures
            self.is_least_pause(pause, now),
    {
        let mut pause: Option<u128> = None;
        let mut i: usize = 0;
        while i < self.blocks.len()
            invariant
                i <= self.blocks.len(),
                pause is None <==> forall|k: int| 0 <= k < i ==> #[trigger] self.pause_of(k, now) is None,
                pause is Some ==> exists|k: int| 0 <= k < i && #[trigger] self.pause_of(k, now) == pause,
                forall|j: int|
                    0 <= j < i && #[trigger] self.pause_of(j, now) is Some ==> pause.unwrap()
                        <= self.pause_of(j, now).unwrap(),
            decreases self.blocks.len() - i,
        {
            let ghost earlier = pause;
            match self.blocks[i].next_deadline_at(now) {
                Some(deadline) => {
                    let until: u128 = if deadline > now {
                        deadline - now
                    } else {
                        0
                    };
                    pause = match pause {
                        Some(least) => if until < least {
                            Some(until)
                        } else {
                            Some(least)
                        },
                        None => Some(until),
                    };
                    assert(self.pause_of(i as int, now) == Some(until));
                },
                None => {
                    assert(self.pause_of(i as int, now) is None);
                },
            }
            proof {
                if earlier is Some {
                    let k = choose|k: int| 0 <= k < i && #[trigger] self.pause_of(k, now) == earlier;
                    assert(self.pause_of(k, now) is Some);
                }
            }
            i = i + 1;
        }
        pause
    }

    /// How long the bar may sleep, as seen on the clock.
    pub fn time_until_next_update(&self) -> (pause: Option<u128>)
        ensures
            exists|at: u128| #[trigger] self.is_least_pause(pause, at),
    {
        let at = now();
        self.time_until_next_update_at(at)
    }

    /// Whether `self` is `before` after a scheduling pass: each block has
    /// done what a scheduled refresh does at some time.
    pub open spec fn refreshed_from(&self, before: &Self) -> bool {
        &&& self.same_bar_as(before)
        &&& forall|i: int|
            0 <= i < self.blocks.len() ==> (#[trigger] self.blocks[i]).scheduled_from(&before.blocks[i])
    }

    /// Whether one of `names` is the name of `block`.
    fn names_block(names: &Vec<String>, block: &StatusBlock<F>) -> (found: bool)
        ensures
            found == listed(names@, *block),
    {
        match &block.name {
            None => false,
            Some(own) => {
                let mut k: usize = 0;
                while k < names.len()
                    invariant
                        k <= names.len(),
                        block.name == Some(*own),
                        forall|j: int| 0 <= j < k ==> !block.is_named(#[trigger] names@[j]@),
                    decreases names.len() - k,
                {
                    if names[k] == *own {
                        return true;
                    }
                    k = k + 1;
                }
                false
            },
        }
    }

    /// Forces a refresh of every block whose name is one of `names`. Names
    /// are compared exactly, several blocks may share one, and a block
    /// without a name is never meant.
    pub fn update(&mut self, names: &Vec<String>)
        requires
            old(self).wf(),
        ensures
            final(self).wf(),
            final(self).updated_from(old(self), names@),
            (forall|i: int| 0 <= i < old(self).blocks.len() ==> !listed(names@, #[trigger] old(self).blocks[i]))
                ==> final(self).blocks@ == old(self).blocks@,
    {
        let mut i: usize = 0;
        while i < self.blocks.len()
            invariant
                i <= self.blocks.len(),
                self.wf(),
                self.same_bar_as(old(self)),
                forall|k: int|
                    0 <= k < i ==> if listed(names@, old(self).blocks[k]) {
                        (#[trigger] self.blocks[k]).forced_from(&old(self).blocks[k])
                    } else {
                        self.blocks[k] == old(self).blocks[k]
                    },
                forall|k: int| i <= k < self.blocks.len() ==> #[trigger] self.blocks[k] == old(self).blocks[k],
            decreases self.blocks.len() - i,
        {
            if Self::names_block(names, &self.blocks[i]) {
                self.blocks[i].update_now();
            }
            i = i + 1;
        }
        assert((forall|i: int| 0 <= i < old(self).blocks.len() ==> !listed(names@, #[trigger] old(self).blocks[i]))
            ==> self.blocks@ =~= old(self).blocks@);
    }

    /// The scheduling pass: every block refreshes if it is due, or takes in
    /// the result of its outstanding job.
    pub fn refresh(&mut self)
        requires
            old(self).wf(),
        ensures
            final(self).wf(),
            final(self).refreshed_from(old(self)),
    {
        let mut i: usize = 0;
        while i < self.blocks.len()
            invariant
                i <= self.blocks.len(),
                self.wf(),
                self.same_bar_as(old(self)),
                forall|k: int| 0 <= k < i ==> (#[trigger] self.blocks[k]).scheduled_from(&old(self).blocks[k]),
                forall|k: int| i <= k < self.blocks.len() ==> #[trigger] self.blocks[k] == old(self).blocks[k],
            decreases self.blocks.len() - i,
        {
            self.blocks[i].update();
            i = i + 1;
        }
    }

    /// Runs the scheduling pass and returns the line the bar then draws.
    pub fn to_string(&mut self) -> (line: String)
        requires
            old(self).wf(),
        ensures
            final(self).wf(),
            final(self).refreshed_from(old(self)),
            line@ == final(self).rendered(),
    {
        self.refresh();
        self.render()
    }

    /// Runs the scheduling pass and returns the line to draw, or `None` where
    /// the bar still reads as `drawn`, the line on display.
    pub fn redraw(&mut self, drawn: &String) -> (line: Option<String>)
        requires
            old(self).wf(),
        ensures
            final(self).wf(),
            final(self).refreshed_from(old(self)),
            match line {
                Some(changed) => changed@ == final(self).rendered() && changed@ != drawn@,
                None => final(self).rendered() == drawn@,
            },
    {
        let line = self.to_string();
        if line == *drawn {
            None
        } else {
            Some(line)
        }
    }

    /// Sends the refreshes of every block to the pool behind `jobs_tx` from
    /// now on.
    pub fn attach_threadpool(&mut self, jobs_tx: &JobsSender<String, F>)
        requires
            old(self).wf(),
        ensures
            final(self).wf(),
            final(self).same_bar_as(old(self)),
            forall|i: int|
                0 <= i < final(self).blocks.len() ==> (#[trigger] final(self).blocks[i]).state() == old(
                    self,
                ).blocks[i].state().attached(),
    {
        let mut i: usize = 0;
        while i < self.blocks.len()
            invariant
                i <= self.blocks.len(),
                self.wf(),
                self.same_bar_as(old(self)),
                forall|k: int|
                    0 <= k < i ==> (#[trigger] self.blocks[k]).state() == old(self).blocks[k].state().attached(),
                forall|k: int| i <= k < self.blocks.len() ==> #[trigger] self.blocks[k] == old(self).blocks[k],
            decreases self.blocks.len() - i,
        {
            self.blocks[i].attach_threadpool(jobs_tx.clone());
            i = i + 1;
        }
    }

    /// Reacts to what the wait for a command gave. An update refreshes the
    /// blocks it names, a shutdown ends the loop, and a refresh or no command
    /// at all changes nothing: to have woken up is enough.
    ///
    /// Returns whether the loop goes on.
    pub fn handle(&mut self, command: Option<Command>) -> (go_on: bool)
        requires
            old(self).wf(),
        ensures
            final(self).wf(),
            go_on == !(command matches Some(Command::Shutdown)),
            match command {
                Some(Command::Update(names)) => final(self).updated_from(old(self), names@),
                _ => *final(self) == *old(self),
            },
    {
        match command {
            Some(Command::Update(names)) => {
                self.update(&names);
                true
            },
            Some(Command::Shutdown) => false,
            Some(Command::Refresh) => true,
            None => true,
        }
    }
}

} // verus!
