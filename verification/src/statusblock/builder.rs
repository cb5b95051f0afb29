//! Putting a block together step by step.

use vstd::prelude::*;
use crate::statusblock::StatusBlock;

verus! {

/// The parts of a block that is yet to be built.
#[verifier::reject_recursive_types(F)]
pub struct StatusBlockBuilder<F> {
    pub name: Option<String>,
    pub min_size: Option<usize>,
    pub max_size: Option<usize>,
    pub function: Option<F>,
    pub update_interval: Option<u128>,
}

impl<F> Default for StatusBlockBuilder<F> {
    /// A builder with nothing set.
    fn default() -> (builder: Self)
        ensures
            builder.name is None,
            builder.min_size is None,
            builder.max_size is None,
            builder.function is None,
            builder.update_interval is None,
    {
        Self { name: None, min_size: None, max_size: None, function: None, update_interval: None }
    }
}

impl<F: Fn() -> String + Copy> StatusBlockBuilder<F> {
    /// The function, where one is set, may be called.
    pub open spec fn wf(&self) -> bool {
        self.function matches Some(f) ==> call_requires(f, ())
    }

    /// A builder with only the function set.
    pub fn new(f: F) -> (builder: Self)
        ensures
            builder.name is None,
            builder.min_size is None,
            builder.max_size is None,
            builder.function == Some(f),
            builder.update_interval is None,
    {
        Self { name: None, min_size: None, max_size: None, function: Some(f), update_interval: None }
    }

    /// The block with the parts that were set: never refreshed, without a
    /// pool, and with an empty text where no function was given.
    pub fn build(self) -> (block: StatusBlock<F>)
        requires
            self.wf(),
        ensures
            block.wf(),
            block.name == self.name,
            block.min_size == self.min_size,
            block.max_size == self.max_size,
            block.compute() == self.function,
            block.state().value@ == Seq::<char>::empty(),
            block.state().last_update is None,
            block.state().interval == self.update_interval,
            block.state().computed == self.function.is_some(),
            !block.state().pooled,
            !block.state().pending,
    {
        StatusBlock::from_parts(
            self.name,
            self.min_size,
            self.max_size,
            self.function,
            self.update_interval,
        )
    }

    /// Sets the name.
    pub fn name(self, name: String) -> (builder: Self)
        ensures
            builder == (Self { name: Some(name), ..self }),
    {
        let mut builder = self;
        builder.name = Some(name);
        builder
    }

    /// Sets the least width.
    pub fn min_size(self, min_size: usize) -> (builder: Self)
        ensures
            builder == (Self { min_size: Some(min_size), ..self }),
    {
        let mut builder = self;
        builder.min_size = Some(min_size);
        builder
    }

    /// Sets the greatest width.
    pub fn max_size(self, max_size: usize) -> (builder: Self)
        ensures
            builder == (Self { max_size: Some(max_size), ..self }),
    {
        let mut builder = self;
        builder.max_size = Some(max_size);
        builder
    }

    /// Sets the function that computes the text.
    pub fn function(self, f: F) -> (builder: Self)
        ensures
            builder == (Self { function: Some(f), ..self }),
    {
        let mut builder = self;
        builder.function = Some(f);
        builder
    }

    /// Sets the interval after which the text is stale, in nanoseconds.
    pub fn update_interval(self, interval: u128) -> (builder: Self)
        ensures
            builder == (Self { update_interval: Some(interval), ..self }),
    {
        let mut builder = self;
        builder.update_interval = Some(interval);
        builder
    }
}

} // verus!
