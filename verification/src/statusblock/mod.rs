//! A named block of the bar: a timed cache of text, shown within a minimum
//! and a maximum width.

pub mod builder;
pub mod cache;

use vstd::prelude::*;
use vstd::string::*;
use crate::clock::now;
use crate::statusblock::cache::{CacheState, TimedCache};
use crate::threadpool::JobsSender;

verus! {

/// `count` spaces.
pub open spec fn spaces(count: nat) -> Seq<char> {
    Seq::new(count, |i: int| ' ')
}

/// `text` within the given widths, counted in characters: cut to `max_size`
/// where it is longer, then filled up with spaces at its end to `min_size`
/// where it is shorter.
pub open spec fn clamp(
    text: Seq<char>,
    min_size: Option<usize>,
    max_size: Option<usize>,
) -> Seq<char> {
    let cut = match max_size {
        Some(max) => if text.len() > max {
            text.take(max as int)
        } else {
            text
        },
        None => text,
    };
    match min_size {
        Some(min) => if cut.len() < min {
            cut + spaces((min - cut.len()) as nat)
        } else {
            cut
        },
        None => cut,
    }
}

/// A clamped text is at least as wide as the least width, and no wider than
/// the greatest where the two widths agree.
pub proof fn lemma_clamp_width(text: Seq<char>, min_size: Option<usize>, max_size: Option<usize>)
    ensures
        min_size matches Some(min) ==> clamp(text, min_size, max_size).len() >= min,
        max_size matches Some(max) ==> (min_size matches Some(min) ==> min <= max) ==> clamp(
            text,
            min_size,
            max_size,
        ).len() <= max,
        min_size is None && max_size is None ==> clamp(text, min_size, max_size) == text,
{
}

/// Clamping a clamped text again changes nothing.
pub proof fn lemma_clamp_idempotent(text: Seq<char>, min_size: Option<usize>, max_size: Option<usize>)
    ensures
        clamp(clamp(text, min_size, max_size), min_size, max_size) == clamp(text, min_size, max_size),
{
    let once = clamp(text, min_size, max_size);
    let twice = clamp(once, min_size, max_size);
    assert(twice =~= once);
}

/// Computes `clamp`.
pub fn clamp_text(text: &str, min_size: Option<usize>, max_size: Option<usize>) -> (shown: String)
    ensures
        shown@ == clamp(text@, min_size, max_size),
{
    let length = text.unicode_len();
    let (cut, mut width) = match max_size {
        Some(max) => if length > max {
            (text.substring_char(0, max), max)
        } else {
            (text, length)
        },
        None => (text, length),
    };
    let mut shown = String::from_str(cut);
    if let Some(min) = min_size {
        let ghost start = width;
        while width < min
            invariant
                start <= width,
                width <= min || width == start,
                start == cut@.len(),
                shown@ == cut@ + spaces((width - start) as nat),
            decreases min - width,
        {
            proof {
                reveal_strlit(" ");
                assert(" "@ =~= seq![' ']);
                assert(spaces((width - start) as nat) + seq![' '] =~= spaces((width + 1 - start) as nat));
            }
            shown.append(" ");
            width = width + 1;
        }
        assert(cut@ + spaces(0) =~= cut@);
    }
    shown
}

/// A named, displayable block: a timed cache of text and the widths within
/// which the text is shown.
#[verifier::reject_recursive_types(F)]
pub struct StatusBlock<F> {
    pub name: Option<String>,
    pub min_size: Option<usize>,
    pub max_size: Option<usize>,
    pub cache: TimedCache<String, F>,
}

impl<F: Fn() -> String + Copy> Default for StatusBlock<F> {
    /// A block without a name, widths, function or interval. Its text is
    /// empty and stays so.
    fn default() -> (block: Self)
        ensures
            block.wf(),
            block.name is None,
            block.min_size is None,
            block.max_size is None,
            block.compute() is None,
            block.state().value@ == Seq::<char>::empty(),
            block.state().last_update is None,
            block.state().interval is None,
            !block.state().computed,
            !block.state().pooled,
            !block.state().pending,
    {
        Self::from_parts(None, None, None, None, None)
    }
}

impl<F: Fn() -> String + Copy> StatusBlock<F> {
    /// The state of the block's cache.
    pub open spec fn state(&self) -> CacheState<String> {
        self.cache@
    }

    /// The function that computes the block's text, if there is one.
    pub open spec fn compute(&self) -> Option<F> {
        self.cache.compute()
    }

    /// The block's cache is well-formed.
    pub open spec fn wf(&self) -> bool {
        self.cache.wf()
    }

    /// The text the block shows: its cached value within its widths.
    pub open spec fn text(&self) -> Seq<char> {
        clamp(self.state().value@, self.min_size, self.max_size)
    }

    /// Whether `self` differs from `before` in the state of its cache at most.
    pub open spec fn same_block_as(&self, before: &Self) -> bool {
        &&& self.name == before.name
        &&& self.min_size == before.min_size
        &&& self.max_size == before.max_size
        &&& self.compute() == before.compute()
    }

    /// Whether `self` is `before` after a scheduled refresh at some time.
    pub open spec fn scheduled_from(&self, before: &Self) -> bool {
        &&& self.same_block_as(before)
        &&& before.state().scheduled_to(self.state(), before.compute())
    }

    /// Whether `self` is `before` after a forced refresh.
    pub open spec fn forced_from(&self, before: &Self) -> bool {
        &&& self.same_block_as(before)
        &&& before.state().forced_to(self.state(), before.compute())
    }

    /// Whether the block is called `name`. A block without a name is called
    /// nothing.
    pub open spec fn is_named(&self, name: Seq<char>) -> bool {
        match self.name {
            Some(own) => own@ == name,
            None => false,
        }
    }

    /// A block without a name or widths, whose text is empty until `f` first
    /// computes it.
    pub fn new(f: F, interval: Option<u128>) -> (block: Self)
        requires
            call_requires(f, ()),
        ensures
            block.wf(),
            block.name is None,
            block.min_size is None,
            block.max_size is None,
            block.compute() == Some(f),
            block.state().value@ == Seq::<char>::empty(),
            block.state().last_update is None,
            block.state().interval == interval,
            block.state().computed,
            !block.state().pooled,
            !block.state().pending,
    {
        Self {
            name: None,
            min_size: None,
            max_size: None,
            cache: TimedCache::with_initial_value(String::new(), interval, f),
        }
    }

    /// A block put together from its parts. Without a function the text
    /// stays empty.
    pub fn from_parts(
        name: Option<String>,
        min_size: Option<usize>,
        max_size: Option<usize>,
        function: Option<F>,
        interval: Option<u128>,
    ) -> (block: Self)
        requires
            function matches Some(f) ==> call_requires(f, ()),
        ensures
            block.wf(),
            block.name == name,
            block.min_size == min_size,
            block.max_size == max_size,
            block.compute() == function,
            block.state().value@ == Seq::<char>::empty(),
            block.state().last_update is None,
            block.state().interval == interval,
            block.state().computed == function.is_some(),
            !block.state().pooled,
            !block.state().pending,
    {
        let cache = match function {
            Some(f) => TimedCache::with_initial_value(String::new(), interval, f),
            None => TimedCache::constant(String::new(), interval),
        };
        Self { name, min_size, max_size, cache }
    }

    /// Sends the block's refreshes to the pool behind `jobs_tx` from now on.
    pub fn attach_threadpool(&mut self, jobs_tx: JobsSender<String, F>)
        requires
            old(self).wf(),
        ensures
            final(self).wf(),
            final(self).same_block_as(old(self)),
            final(self).state() == old(self).state().attached(),
    {
        self.cache.attach_threadpool(jobs_tx);
    }

    /// Replaces the function that computes the text.
    pub fn set_function(&mut self, f: F)
        requires
            old(self).wf(),
            call_requires(f, ()),
        ensures
            final(self).wf(),
            final(self).name == old(self).name,
            final(self).min_size == old(self).min_size,
            final(self).max_size == old(self).max_size,
            final(self).compute() == Some(f),
            final(self).state() == (CacheState { computed: true, ..old(self).state() }),
    {
        self.cache.set_function(f);
    }

    /// Replaces the interval after which the text is stale.
    pub fn set_update_interval(&mut self, interval: Option<u128>)
        requires
            old(self).wf(),
        ensures
            final(self).wf(),
            final(self).same_block_as(old(self)),
            final(self).state() == (CacheState { interval, ..old(self).state() }),
    {
        self.cache.set_update_interval(interval);
    }

    /// Writes `value` as the block's text, stamped with the clock's time.
    pub fn overwrite(&mut self, value: String)
        requires
            old(self).wf(),
        ensures
            final(self).wf(),
            final(self).same_block_as(old(self)),
            exists|at: u128| final(self).state() == #[trigger] old(self).state().refreshed(value, at),
    {
        self.cache.overwrite(value);
    }

    /// When the text was last written, if ever.
    pub fn last_update(&self) -> (at: Option<u128>)
        ensures
            at == self.state().last_update,
    {
        self.cache.last_update()
    }

    /// Whether the block is due at `now`.
    pub fn needs_update_at(&self, now: u128) -> (due: bool)
        ensures
            due == self.state().is_due(now),
    {
        self.cache.needs_update_at(now)
    }

    /// Whether the block is due on the clock.
    pub fn needs_update(&self) -> (due: bool)
        ensures
            exists|at: u128| due == #[trigger] self.state().is_due(at),
    {
        let at = now();
        self.needs_update_at(at)
    }

    /// The time after which the block is due, as seen at `now`.
    pub fn next_deadline_at(&self, now: u128) -> (deadline: Option<u128>)
        ensures
            deadline == self.state().deadline(now),
    {
        self.cache.next_update_at(now)
    }

    /// The time after which the block is due, as seen on the clock.
    pub fn next_deadline(&self) -> (deadline: Option<u128>)
        ensures
            exists|at: u128| deadline == #[trigger] self.state().deadline(at),
    {
        let at = now();
        self.next_deadline_at(at)
    }

    /// Updates the block iff it is scheduled to be updated, or takes in the
    /// result of its outstanding job.
    pub fn update(&mut self)
        requires
            old(self).wf(),
        ensures
            final(self).wf(),
            final(self).scheduled_from(old(self)),
    {
        self.cache.update();
    }

    /// Updates the block as it is scheduled at `now`, and notes `now` for
    /// what is written.
    pub fn update_at(&mut self, now: u128)
        requires
            old(self).wf(),
        ensures
            final(self).wf(),
            final(self).same_block_as(old(self)),
            old(self).state().leads_to(
                old(self).state().scheduled(now),
                final(self).state(),
                old(self).compute(),
                now,
            ),
    {
        self.cache.update_at(now);
    }

    /// Updates the block immediately, ignoring the timer. While a job is
    /// outstanding this does nothing.
    pub fn update_now(&mut self)
        requires
            old(self).wf(),
        ensures
            final(self).wf(),
            final(self).forced_from(old(self)),
            old(self).state().pending ==> final(self).state() == old(self).state(),
    {
        self.cache.update_now();
    }

    /// The text the block shows as it stands, without a refresh.
    pub fn current(&self) -> (shown: String)
        ensures
            shown@ == self.text(),
    {
        clamp_text(self.cache.value().as_str(), self.min_size, self.max_size)
    }

    /// Updates the block as `update` does and returns the text it then shows.
    pub fn to_string(&mut self) -> (shown: String)
        requires
            old(self).wf(),
        ensures
            final(self).wf(),
            final(self).scheduled_from(old(self)),
            shown@ == final(self).text(),
    {
        self.update();
        self.current()
    }
}

} // verus!
