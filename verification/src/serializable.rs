//! Error stacks as plain strings.

use crate::format::{debug_string_of, debug_text};
use crate::strings::SharedString;
use crate::util::arc_share;
use std::sync::Arc;
use vstd::prelude::*;
use vstd::std_specs::cmp::PartialEqSpecImpl;
use vstd::string::StringExecFns;

verus! {

/// An error stack with all messages flattened into strings: a message and,
/// below it, the stack that caused it.
///
/// Unlike [`SharedString`], two stacks are equal (`==`) when they hold the
/// same messages in the same order, wherever those are stored.
#[derive(Debug)]
pub struct SerializableError {
    pub context: SharedString,
    pub cause: Option<Arc<SerializableError>>,
}

impl View for SerializableError {
    type V = Seq<Seq<char>>;

    /// The messages of the stack, from this one down to the root cause.
    open spec fn view(&self) -> Seq<Seq<char>> {
        self.messages()
    }
}

impl SerializableError {
    /// The messages of the stack, from this one down to the root cause.
    pub open spec fn messages(&self) -> Seq<Seq<char>>
        decreases self,
    {
        match self.cause {
            Some(cause) => seq![self.context@] + cause.messages(),
            None => seq![self.context@],
        }
    }

    /// Whether every message of the stack is a string behind a reference
    /// count, none of them static text.
    pub open spec fn is_owned(&self) -> bool
        decreases self,
    {
        self.context is Arc && match self.cause {
            Some(cause) => cause.is_owned(),
            None => true,
        }
    }

    /// A stack of one message.
    pub fn new(context: SharedString) -> (leaf: SerializableError)
        ensures
            leaf.context == context,
            leaf.cause is None,
            leaf@ == seq![context@],
    {
        SerializableError { context, cause: None }
    }

    /// The stack of the given messages, the first on top, each as a string of
    /// its own; `None` where there is no message.
    pub fn from_messages(messages: Vec<String>) -> (stack: Option<SerializableError>)
        ensures
            stack is None <==> messages@.len() == 0,
            stack matches Some(stack) ==> stack.messages() == message_texts(messages@)
                && stack.is_owned(),
    {
        let ghost all = messages@;
        let mut rest = messages;
        let mut cause: Option<Arc<SerializableError>> = None;
        while rest.len() > 1
            invariant
                rest@.len() <= all.len(),
                rest@ == all.take(rest@.len() as int),
                all.len() > 0 ==> rest@.len() > 0,
                messages_below(cause) == message_texts(all.skip(rest@.len() as int)),
                cause matches Some(below) ==> below.is_owned(),
            decreases rest@.len(),
        {
            let ghost done = rest@.len() as int;
            let context = match rest.pop() {
                Some(message) => SharedString::from_string(message),
                None => unreached(),
            };
            cause = Some(Arc::new(SerializableError { context, cause }));
            assert(message_texts(all.skip(done - 1)) =~= seq![all[done - 1]@] + message_texts(
                all.skip(done),
            ));
        }
        match rest.pop() {
            Some(message) => {
                let stack = SerializableError {
                    context: SharedString::from_string(message),
                    cause,
                };
                assert(stack.messages() =~= message_texts(all));
                Some(stack)
            },
            None => None,
        }
    }

    /// Converts an `anyhow::Error` into a stack of the display texts of the
    /// error and of its causes: see [`SerializableError::from_messages`].
    ///
    /// Whatever the errors hold besides their display texts is lost.
    #[must_use]
    pub fn from_anyhow(err: &::anyhow::Error) -> (stack: SerializableError)
        ensures
            stack.is_owned(),
    {
        match SerializableError::from_messages(anyhow_chain_texts(err)) {
            Some(stack) => stack,
            None => unreached(),
        }
    }

    /// The messages of the stack, from this one down to the root cause.
    pub fn message_list(&self) -> (list: Vec<&str>)
        ensures
            list@.len() == self.messages().len(),
            forall|i: int| 0 <= i < list@.len() ==> (#[trigger] list@[i])@ == self.messages()[i],
    {
        let mut list: Vec<&str> = Vec::new();
        let mut stack: &SerializableError = self;
        loop
            invariant_except_break
                self.messages() == Seq::new(list@.len(), |i: int| list@[i]@) + stack.messages(),
            ensures
                self.messages() == Seq::new(list@.len(), |i: int| list@[i]@),
            decreases stack,
        {
            let ghost before = list@;
            list.push(stack.context.as_str());
            match &stack.cause {
                Some(cause) => {
                    assert(Seq::new(before.len(), |i: int| before[i]@) + stack.messages()
                        =~= Seq::new(list@.len(), |i: int| list@[i]@) + cause.messages());
                    stack = &**cause;
                },
                None => {
                    assert(Seq::new(before.len(), |i: int| before[i]@) + stack.messages()
                        =~= Seq::new(list@.len(), |i: int| list@[i]@));
                    break;
                },
            }
        }
        list
    }

    /// The display text of the stack: its top message.
    pub fn to_string(&self) -> (text: String)
        ensures
            text@ == self.context@,
    {
        String::from_str(self.context.as_str())
    }

    /// The text of the stack with its causes: see [`debug_text`].
    pub fn debug_string(&self) -> (text: String)
        ensures
            text@ == debug_text(self.messages()),
    {
        let list = self.message_list();
        proof {
            lemma_messages(self);
            assert(self.messages() =~= Seq::new(list@.len(), |i: int| list@[i]@));
        }
        match debug_string_of(&list) {
            Some(text) => text,
            None => unreached(),
        }
    }

    /// The message on top of the stack.
    pub fn message(&self) -> (text: &str)
        ensures
            text@ == self.context@,
            text@ == self@[0],
    {
        self.context.as_str()
    }
}

/// The texts of `messages`, in order.
pub open spec fn message_texts(messages: Seq<String>) -> Seq<Seq<char>> {
    Seq::new(messages.len(), |i: int| messages[i]@)
}

/// The messages of `cause`, where no cause has no messages.
pub open spec fn messages_below(cause: Option<Arc<SerializableError>>) -> Seq<Seq<char>> {
    match cause {
        Some(stack) => stack.messages(),
        None => Seq::empty(),
    }
}

/// `anyhow::Error`: an error of any type with its chain of causes.
#[verifier::external_type_specification]
#[verifier::external_body]
pub struct ExAnyhowError(::anyhow::Error);

/// `anyhow::Error::chain` and `ToString::to_string` on each error that it
/// yields: the display texts of an error and of its causes, from the error
/// down to the root cause.
///
/// Nothing is proved of this function. What the texts are is up to the errors
/// in the chain. The contract claims that there is at least one: the chain
/// starts with the error itself.
#[verifier::external_body]
fn anyhow_chain_texts(err: &::anyhow::Error) -> (messages: Vec<String>)
    ensures
        messages@.len() > 0,
{
    let mut messages = Vec::new();
    for cause in err.chain() {
        messages.push(cause.to_string());
    }
    messages
}

/// A stack holds at least its own message, and its messages are its own
/// followed by those of its cause.
pub proof fn lemma_messages(stack: &SerializableError)
    ensures
        stack.messages().len() >= 1,
        stack.messages()[0] == stack.context@,
        stack.cause matches Some(cause) ==> stack.messages().skip(1) == cause.messages(),
        stack.cause is None ==> stack.messages().len() == 1,
{
}

/// Two stacks hold the same messages exactly when their top messages are the
/// same text and their causes, if any, hold the same messages.
pub proof fn lemma_messages_equal(a: &SerializableError, b: &SerializableError)
    ensures
        a.messages() == b.messages() <==> a.context@ == b.context@ && match (a.cause, b.cause) {
            (Some(x), Some(y)) => x.messages() == y.messages(),
            (None, None) => true,
            _ => false,
        },
{
    lemma_messages(a);
    lemma_messages(b);
    if let Some(x) = &a.cause {
        lemma_messages(&**x);
    }
    if let Some(y) = &b.cause {
        lemma_messages(&**y);
    }
}

impl Clone for SerializableError {
    /// Another handle to the same stack: the message and the cause are
    /// shared, not copied.
    fn clone(&self) -> (copy: SerializableError)
        ensures
            copy == *self,
    {
        let cause = match &self.cause {
            Some(cause) => Some(arc_share(cause)),
            None => None,
        };
        SerializableError { context: self.context.clone(), cause }
    }
}

impl PartialEq for SerializableError {
    /// Whether the two stacks hold the same messages in the same order.
    fn eq(&self, other: &SerializableError) -> (same: bool) {
        let mut this: &SerializableError = self;
        let mut that: &SerializableError = other;
        loop
            invariant
                (self.messages() == other.messages()) == (this.messages() == that.messages()),
            decreases this,
        {
            proof {
                lemma_messages_equal(this, that);
            }
            if !(*this.context.as_str() == *that.context.as_str()) {
                return false;
            }
            match (&this.cause, &that.cause) {
                (Some(x), Some(y)) => {
                    this = &**x;
                    that = &**y;
                },
                (None, None) => {
                    return true;
                },
                _ => {
                    return false;
                },
            }
        }
    }
}

impl Eq for SerializableError {}

impl PartialEqSpecImpl for SerializableError {
    open spec fn obeys_eq_spec() -> bool {
        true
    }

    open spec fn eq_spec(&self, other: &SerializableError) -> bool {
        self.messages() == other.messages()
    }
}

} // verus!
