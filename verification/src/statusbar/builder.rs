//! Putting a bar together step by step.

use vstd::prelude::*;
use vstd::string::*;
use crate::statusbar::StatusBar;
use crate::statusblock::StatusBlock;

verus! {

/// The parts of a bar that is yet to be built.
#[verifier::reject_recursive_types(F)]
pub struct StatusBarBuilder<F> {
    pub blocks: Vec<StatusBlock<F>>,
    pub delimiter: String,
    pub left_buffer: String,
    pub right_buffer: String,
    pub hide_empty_modules: bool,
}

impl<F> Default for StatusBarBuilder<F> {
    /// A builder without blocks or text, which draws empty blocks.
    fn default() -> (builder: Self)
        ensures
            builder.blocks@.len() == 0,
            builder.delimiter@ == Seq::<char>::empty(),
            builder.left_buffer@ == Seq::<char>::empty(),
            builder.right_buffer@ == Seq::<char>::empty(),
            !builder.hide_empty_modules,
    {
        Self {
            blocks: Vec::new(),
            delimiter: String::new(),
            left_buffer: String::new(),
            right_buffer: String::new(),
            hide_empty_modules: false,
        }
    }
}

impl<F> From<StatusBarBuilder<F>> for StatusBar<F> {
    /// The bar with the parts that were set.
    fn from(builder: StatusBarBuilder<F>) -> (bar: Self) {
        StatusBar {
            blocks: builder.blocks,
            delimiter: builder.delimiter,
            left_buffer: builder.left_buffer,
            right_buffer: builder.right_buffer,
            hide_empty_modules: builder.hide_empty_modules,
        }
    }
}

impl<F> vstd::std_specs::convert::FromSpecImpl<StatusBarBuilder<F>> for StatusBar<F> {
    open spec fn obeys_from_spec() -> bool {
        true
    }

    open spec fn from_spec(builder: StatusBarBuilder<F>) -> Self {
        StatusBar {
            blocks: builder.blocks,
            delimiter: builder.delimiter,
            left_buffer: builder.left_buffer,
            right_buffer: builder.right_buffer,
            hide_empty_modules: builder.hide_empty_modules,
        }
    }
}

impl<F: Fn() -> String + Copy> StatusBarBuilder<F> {
    /// A builder with only the blocks set.
    pub fn new(blocks: Vec<StatusBlock<F>>) -> (builder: Self)
        ensures
            builder.blocks == blocks,
            builder.delimiter@ == Seq::<char>::empty(),
            builder.left_buffer@ == Seq::<char>::empty(),
            builder.right_buffer@ == Seq::<char>::empty(),
            !builder.hide_empty_modules,
    {
        Self {
            blocks,
            delimiter: String::new(),
            left_buffer: String::new(),
            right_buffer: String::new(),
            hide_empty_modules: false,
        }
    }

    /// The bar with the parts that were set.
    pub fn build(self) -> (bar: StatusBar<F>)
        ensures
            bar.blocks == self.blocks,
            bar.delimiter == self.delimiter,
            bar.left_buffer == self.left_buffer,
            bar.right_buffer == self.right_buffer,
            bar.hide_empty_modules == self.hide_empty_modules,
    {
        StatusBar::from(self)
    }

    /// Sets the blocks, in display order.
    pub fn blocks(self, blocks: Vec<StatusBlock<F>>) -> (builder: Self)
        ensures
            builder == (Self { blocks, ..self }),
    {
        let mut builder = self;
        builder.blocks = blocks;
        builder
    }

    /// Sets the text drawn between two blocks.
    pub fn delimiter(self, delimiter: &str) -> (builder: Self)
        ensures
            builder.delimiter@ == delimiter@,
            builder.blocks == self.blocks,
            builder.left_buffer == self.left_buffer,
            builder.right_buffer == self.right_buffer,
            builder.hide_empty_modules == self.hide_empty_modules,
    {
        let mut builder = self;
        builder.delimiter = String::from_str(delimiter);
        builder
    }

    /// Sets the text drawn before the first block.
    pub fn left_buffer(self, left_buffer: &str) -> (builder: Self)
        ensures
            builder.left_buffer@ == left_buffer@,
            builder.blocks == self.blocks,
            builder.delimiter == self.delimiter,
            builder.right_buffer == self.right_buffer,
            builder.hide_empty_modules == self.hide_empty_modules,
    {
        let mut builder = self;
        builder.left_buffer = String::from_str(left_buffer);
        builder
    }

    /// Sets the text drawn after the last block.
    pub fn right_buffer(self, right_buffer: &str) -> (builder: Self)
        ensures
            builder.right_buffer@ == right_buffer@,
            builder.blocks == self.blocks,
            builder.delimiter == self.delimiter,
            builder.left_buffer == self.left_buffer,
            builder.hide_empty_modules == self.hide_empty_modules,
    {
        let mut builder = self;
        builder.right_buffer = String::from_str(right_buffer);
        builder
    }

    /// Sets whether blocks with an empty text are left out of the line.
    pub fn hide_empty_modules(self, hide_empty_modules: bool) -> (builder: Self)
        ensures
            builder == (Self { hide_empty_modules, ..self }),
    {
        let mut builder = self;
        builder.hide_empty_modules = hide_empty_modules;
        builder
    }
}

} // verus!
