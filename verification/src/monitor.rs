//! The remote-control protocol: the commands the bar understands and the text
//! form in which they arrive.
//!
//! A message is one line of fields parted by single spaces. Its first field
//! says what is asked: `refresh`, `shutdown`, or `update` followed by the
//! names of the blocks to refresh. Anything else asks nothing.

use vstd::prelude::*;
use vstd::string::*;
use crate::text::{join, lemma_join_push};

verus! {

/// A command sent to the bar's main loop.
pub enum Command {
    /// Wake the loop; nothing is recomputed by force.
    Refresh,
    /// Leave the loop.
    Shutdown,
    /// Refresh the blocks with these names at once.
    Update(Vec<String>),
}

/// Where commands for the main loop are sent.
pub type MonitorSender = flume::Sender<Command>;

/// Where the main loop picks its commands up.
pub type MonitorReceiver = flume::Receiver<Command>;

/// A command with its names as plain text.
pub enum Order {
    Refresh,
    Shutdown,
    Update(Seq<Seq<char>>),
}

/// The texts of `names`, in order.
pub open spec fn texts_of(names: Seq<String>) -> Seq<Seq<char>> {
    Seq::new(names.len(), |i: int| names[i]@)
}

impl View for Command {
    type V = Order;

    open spec fn view(&self) -> Order {
        match self {
            Command::Refresh => Order::Refresh,
            Command::Shutdown => Order::Shutdown,
            Command::Update(names) => Order::Update(texts_of(names@)),
        }
    }
}

/// The fields of `text`: the stretches between its spaces, empty ones
/// included, so that a text with `n` spaces has `n + 1` fields.
pub open spec fn fields(text: Seq<char>) -> Seq<Seq<char>>
    decreases text.len(),
{
    if text.len() == 0 {
        seq![Seq::empty()]
    } else {
        let before = fields(text.drop_last());
        if text.last() == ' ' {
            before.push(Seq::empty())
        } else {
            before.drop_last().push(before.last().push(text.last()))
        }
    }
}

/// The word that asks for a refresh.
pub open spec fn refresh_word() -> Seq<char> {
    seq!['r', 'e', 'f', 'r', 'e', 's', 'h']
}

/// The word that asks for a shutdown.
pub open spec fn shutdown_word() -> Seq<char> {
    seq!['s', 'h', 'u', 't', 'd', 'o', 'w', 'n']
}

/// The word that asks for an update.
pub open spec fn update_word() -> Seq<char> {
    seq!['u', 'p', 'd', 'a', 't', 'e']
}

/// What a message asks: its first field names the command, and for an update
/// every further field is a name. A message whose first field is no command
/// asks nothing.
pub open spec fn parsed(text: Seq<char>) -> Option<Order> {
    let all = fields(text);
    if all[0] == refresh_word() {
        Some(Order::Refresh)
    } else if all[0] == shutdown_word() {
        Some(Order::Shutdown)
    } else if all[0] == update_word() {
        Some(Order::Update(all.skip(1)))
    } else {
        None
    }
}

/// A text always has a first field.
pub proof fn lemma_fields_nonempty(text: Seq<char>)
    ensures
        fields(text).len() >= 1,
    decreases text.len(),
{
    if text.len() > 0 {
        lemma_fields_nonempty(text.drop_last());
    }
}

/// Text without spaces behind a text only makes its last field longer.
pub proof fn lemma_fields_append(text: Seq<char>, word: Seq<char>)
    requires
        !word.contains(' '),
    ensures
        fields(text + word) == fields(text).drop_last().push(fields(text).last() + word),
    decreases word.len(),
{
    lemma_fields_nonempty(text);
    if word.len() == 0 {
        assert(text + word =~= text);
        assert(fields(text).last() + word =~= fields(text).last());
        assert(fields(text).drop_last().push(fields(text).last()) =~= fields(text));
    } else {
        let shorter = word.drop_last();
        assert(word[word.len() - 1] == word.last());
        assert(word.contains(word.last()));
        assert forall|c: char| shorter.contains(c) implies c != ' ' by {
            let i = choose|i: int| 0 <= i < shorter.len() && shorter[i] == c;
            assert(word[i] == c);
            assert(word.contains(c));
        }
        lemma_fields_append(text, shorter);
        lemma_fields_nonempty(text + shorter);
        assert((text + word).drop_last() =~= text + shorter);
        assert((text + word).last() == word.last());
        assert((fields(text).last() + shorter).push(word.last()) =~= fields(text).last() + word);
        assert(fields(text + shorter).drop_last() =~= fields(text).drop_last());
    }
}

/// A message put together from words that hold no space is taken apart into
/// the same words.
pub proof fn lemma_fields_of_joined(words: Seq<Seq<char>>)
    requires
        words.len() > 0,
        forall|i: int| 0 <= i < words.len() ==> !(#[trigger] words[i]).contains(' '),
    ensures
        fields(join(words, seq![' '])) == words,
    decreases words.len(),
{
    let space = seq![' '];
    let empty = Seq::<char>::empty();
    if words.len() == 1 {
        lemma_fields_append(empty, words[0]);
        assert(empty + words[0] =~= words[0]);
        assert(fields(empty) =~= seq![empty]);
        assert(seq![empty].drop_last().push(empty + words[0]) =~= words);
    } else {
        let earlier = words.drop_last();
        let row = join(earlier, space);
        lemma_fields_of_joined(earlier);
        assert((row + space).drop_last() =~= row);
        assert((row + space).last() == ' ');
        assert(fields(row + space) == earlier.push(empty));
        lemma_fields_append(row + space, words.last());
        assert(earlier.push(empty).drop_last().push(empty + words.last()) =~= words);
    }
}

/// Puts a message together: `words` in a row with one space between each two.
pub fn compose(words: &Vec<String>) -> (message: String)
    ensures
        message@ == join(texts_of(words@), seq![' ']),
{
    let mut message = String::new();
    let mut i: usize = 0;
    let ghost all = texts_of(words@);
    assert(all.take(0) =~= Seq::empty());
    while i < words.len()
        invariant
            i <= words.len(),
            all == texts_of(words@),
            message@ == join(all.take(i as int), seq![' ']),
        decreases words.len() - i,
    {
        proof {
            reveal_strlit(" ");
            assert(" "@ =~= seq![' ']);
            assert(all.take(i + 1) =~= all.take(i as int).push(words@[i as int]@));
            lemma_join_push(all.take(i as int), words@[i as int]@, seq![' ']);
        }
        if i > 0 {
            message.append(" ");
        }
        message.append(words[i].as_str());
        i = i + 1;
    }
    assert(all.take(i as int) =~= all);
    message
}

/// Splits `data` into its fields.
pub fn split_fields(data: &str) -> (all: Vec<String>)
    ensures
        texts_of(all@) == fields(data@),
{
    let length = data.unicode_len();
    let mut done: Vec<String> = Vec::new();
    let mut start: usize = 0;
    let mut i: usize = 0;
    assert(data@.take(0) =~= Seq::empty());
    assert(texts_of(done@).push(data@.subrange(0, 0)) =~= seq![Seq::empty()]);
    while i < length
        invariant
            length == data@.len(),
            start <= i <= length,
            fields(data@.take(i as int)) == texts_of(done@).push(data@.subrange(start as int, i as int)),
        decreases length - i,
    {
        let c = data.get_char(i);
        proof {
            assert(data@.take(i + 1).drop_last() =~= data@.take(i as int));
            assert(data@.take(i + 1).last() == c);
        }
        let ghost earlier = texts_of(done@);
        let ghost open = data@.subrange(start as int, i as int);
        if c == ' ' {
            done.push(String::from_str(data.substring_char(start, i)));
            start = i + 1;
            proof {
                assert(texts_of(done@) =~= earlier.push(open));
                assert(data@.subrange(start as int, i + 1) =~= Seq::empty());
            }
        } else {
            proof {
                assert(earlier.push(open).drop_last() =~= earlier);
                assert(open.push(c) =~= data@.subrange(start as int, i + 1));
            }
        }
        i = i + 1;
    }
    let ghost earlier = texts_of(done@);
    done.push(String::from_str(data.substring_char(start, length)));
    proof {
        assert(data@.take(length as int) =~= data@);
        assert(texts_of(done@) =~= earlier.push(data@.subrange(start as int, length as int)));
    }
    done
}

impl Command {
    /// Reads a message. `None` where it asks nothing.
    pub fn parse(data: &str) -> (command: Option<Command>)
        ensures
            match command {
                Some(read) => parsed(data@) == Some(read@),
                None => parsed(data@) is None,
            },
    {
        let mut all = split_fields(data);
        proof {
            lemma_fields_nonempty(data@);
            reveal_strlit("refresh");
            reveal_strlit("shutdown");
            reveal_strlit("update");
            assert("refresh"@ =~= refresh_word());
            assert("shutdown"@ =~= shutdown_word());
            assert("update"@ =~= update_word());
            assert(texts_of(all@)[0] == all@[0]@);
        }
        let ghost whole = texts_of(all@);
        let first = all.remove(0);
        if first == String::from_str("refresh") {
            Some(Command::Refresh)
        } else if first == String::from_str("shutdown") {
            Some(Command::Shutdown)
        } else if first == String::from_str("update") {
            assert(texts_of(all@) =~= whole.skip(1));
            Some(Command::Update(all))
        } else {
            None
        }
    }
}

} // verus!
