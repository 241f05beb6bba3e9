//! Typed command bus: modules register a handler for a concrete command
//! type; callers dispatch that concrete type and get its typed output back.
//! There is no stringly-typed routing: handlers are keyed by the command's
//! `TypeId`, and every call site is typed by the compiler.
//!
//! Internally the handlers are stored type-erased: commands and outputs
//! travel to a handler as `Box<dyn Any>` values (see `crate::erased`).

use crate::erased::{erase, held_type, held_value, recover, same_key, type_id_of, type_key, AnyBox};
use std::any::TypeId;
use std::marker::PhantomData;
use vstd::prelude::*;

verus! {

/// Marker for anything that can travel through the bus. `Output` is the
/// concrete response type for that specific command.
pub trait Command: Send + 'static {
    type Output: Send + 'static;

    /// A readable name of the command, used in error reports. Commands
    /// that do not name themselves are reported as `unnamed command`.
    fn name() -> (r: &'static str)
        default_ensures
            r@ == "unnamed command"@,
    {
        "unnamed command"
    }
}

#[derive(Debug, PartialEq, Eq)]
pub enum BusError {
    NoHandler { command: &'static str },
}

/// The human-readable text of a bus error.
pub open spec fn bus_error_text(command: Seq<char>) -> Seq<char> {
    "no handler registered for command '"@ + command + "'"@
}

impl BusError {
    /// The human-readable text of this error.
    pub fn message(&self) -> (r: String)
        ensures
            match self {
                BusError::NoHandler { command } => r@ == bus_error_text(command@),
            },
    {
        match self {
            BusError::NoHandler { command } => {
                let mut s = String::from_str("no handler registered for command '");
                s.append(command);
                s.append("'");
                s
            },
        }
    }
}

/// The key under which the bus files the handler of the command type `C`:
/// the identifiers of `C` and of its output type.
pub open spec fn command_key<C: Command>() -> (TypeId, TypeId) {
    (type_key::<C>(), type_key::<C::Output>())
}

/// The key of `C`, computed.
fn key_of<C: Command>() -> (k: (TypeId, TypeId))
    ensures
        k == command_key::<C>(),
{
    (type_id_of::<C>(), type_id_of::<C::Output>())
}

/// Whether two keys are equal.
fn same_command_key(a: &(TypeId, TypeId), b: &(TypeId, TypeId)) -> (r: bool)
    ensures
        r == (*a == *b),
{
    same_key(&a.0, &b.0) && same_key(&a.1, &b.1)
}

/// A handler with its command type erased.
trait ErasedHandler: Send {
    /// The identifier of the command type the handler takes.
    spec fn input_type(&self) -> TypeId;

    /// The identifier of the output type the handler gives.
    spec fn output_type(&self) -> TypeId;

    /// The handler accepts every command of its type.
    spec fn ready(&self) -> bool;

    /// Whether the handler may answer the boxed command `input` with the
    /// boxed output `output`.
    spec fn relates(&self, input: AnyBox, output: AnyBox) -> bool;

    fn call_erased(&self, input: AnyBox) -> (output: AnyBox)
        requires
            self.ready(),
            held_type(input) == self.input_type(),
        ensures
            held_type(output) == self.output_type(),
            self.relates(input, output),
    ;
}

struct TypedHandler<C, F> {
    handler: F,
    marker: PhantomData<C>,
}

impl<C: Command, F: Fn(C) -> C::Output + Send + Sync + 'static> ErasedHandler for TypedHandler<
    C,
    F,
> {
    spec fn input_type(&self) -> TypeId {
        type_key::<C>()
    }

    spec fn output_type(&self) -> TypeId {
        type_key::<C::Output>()
    }

    spec fn ready(&self) -> bool {
        forall|c: C| #[trigger] call_requires(self.handler, (c,))
    }

    spec fn relates(&self, input: AnyBox, output: AnyBox) -> bool {
        call_ensures(self.handler, (held_value::<C>(input),), held_value::<C::Output>(output))
    }

    fn call_erased(&self, input: AnyBox) -> (output: AnyBox) {
        let command: C = recover::<C>(input);
        let answer: C::Output = (self.handler)(command);
        erase::<C::Output>(answer)
    }
}

/// A registered handler with the key of its command type.
struct HandlerEntry {
    key: (TypeId, TypeId),
    handler: Box<dyn ErasedHandler>,
}

impl HandlerEntry {
    /// Puts a typed handler behind the erased interface.
    fn typed<C: Command, F: Fn(C) -> C::Output + Send + Sync + 'static>(
        key: (TypeId, TypeId),
        handler: F,
    ) -> (e: Self)
        requires
            key == command_key::<C>(),
            forall|c: C| #[trigger] call_requires(handler, (c,)),
        ensures
            e.key == key,
            e.handler.input_type() == key.0,
            e.handler.output_type() == key.1,
            e.handler.ready(),
            forall|input: AnyBox, output: AnyBox| #[trigger]
                e.handler.relates(input, output) == call_ensures(
                    handler,
                    (held_value::<C>(input),),
                    held_value::<C::Output>(output),
                ),
    {
        HandlerEntry {
            key,
            handler: Box::new(TypedHandler::<C, F> { handler, marker: PhantomData }),
        }
    }
}

pub struct CommandBus {
    handlers: Vec<HandlerEntry>,
}

/// The keys of a list of handler entries, in order.
spec fn entry_keys(entries: Seq<HandlerEntry>) -> Seq<(TypeId, TypeId)> {
    entries.map_values(|e: HandlerEntry| e.key)
}

/// Each entry's handler takes and gives the types its key names, and
/// accepts every command of its type.
spec fn entries_sound(entries: Seq<HandlerEntry>) -> bool {
    forall|i: int|
        0 <= i < entries.len() ==> {
            &&& (#[trigger] entries[i]).handler.input_type() == entries[i].key.0
            &&& entries[i].handler.output_type() == entries[i].key.1
            &&& entries[i].handler.ready()
        }
}

/// Whether the entry at `j` is filed under `key` and its handler may answer
/// `input` with `output`.
spec fn entry_answers(entries: Seq<HandlerEntry>, j: int, key: (TypeId, TypeId), input: AnyBox, output: AnyBox) -> bool {
    &&& 0 <= j < entries.len()
    &&& entries[j].key == key
    &&& entries[j].handler.relates(input, output)
}

/// Whether some entry filed under `key` may answer `input` with `output`.
spec fn answers_in(entries: Seq<HandlerEntry>, key: (TypeId, TypeId), input: AnyBox, output: AnyBox) -> bool {
    exists|j: int| #[trigger] entry_answers(entries, j, key, input, output)
}

impl CommandBus {
    /// No command type has two handlers, and every entry is sound.
    #[verifier::type_invariant]
    spec fn well_formed(&self) -> bool {
        &&& entry_keys(self.handlers@).no_duplicates()
        &&& entries_sound(self.handlers@)
    }

    /// The keys of the command types that have a handler.
    pub closed spec fn registered(&self) -> Set<(TypeId, TypeId)> {
        entry_keys(self.handlers@).to_set()
    }

    /// How many handlers the bus holds.
    pub closed spec fn handler_count(&self) -> nat {
        self.handlers@.len()
    }

    /// Whether the handler filed under `key` may answer the boxed command
    /// `input` with the boxed output `output`.
    pub closed spec fn answers_at(&self, key: (TypeId, TypeId), input: AnyBox, output: AnyBox) -> bool {
        answers_in(self.handlers@, key, input, output)
    }

    /// Whether the handler the bus holds for `C` may answer `command` with
    /// `output`.
    pub open spec fn answers<C: Command>(&self, command: C, output: C::Output) -> bool {
        exists|input: AnyBox, out: AnyBox|
            #![trigger self.answers_at(command_key::<C>(), input, out)]
            held_value::<C>(input) == command && held_value::<C::Output>(out) == output
                && self.answers_at(command_key::<C>(), input, out)
    }

    pub fn new() -> (bus: Self)
        ensures
            bus.registered() == Set::<(TypeId, TypeId)>::empty(),
            bus.handler_count() == 0,
    {
        let bus = CommandBus { handlers: Vec::new() };
        assert(entry_keys(bus.handlers@) =~= Seq::<(TypeId, TypeId)>::empty());
        bus
    }

    /// The position of the handler for `key`, if there is one.
    fn position(&self, key: &(TypeId, TypeId)) -> (i: Option<usize>)
        ensures
            match i {
                Some(i) => i < self.handlers@.len() && self.handlers@[i as int].key == *key,
                None => !self.registered().contains(*key),
            },
    {
        let mut i: usize = 0;
        while i < self.handlers.len()
            invariant
                i <= self.handlers@.len(),
                forall|j: int| 0 <= j < i ==> self.handlers@[j].key != *key,
            decreases self.handlers@.len() - i,
        {
            if same_command_key(&self.handlers[i].key, key) {
                return Some(i);
            }
            i = i + 1;
        }
        proof {
            if self.registered().contains(*key) {
                let j = choose|j: int|
                    0 <= j < entry_keys(self.handlers@).len() && entry_keys(self.handlers@)[j]
                        == *key;
                assert(self.handlers@[j].key == *key);
            }
        }
        None
    }

    /// Registers the handler a module exposes for `C`. Re-registering the
    /// same command type replaces the previous handler, so the bus never
    /// holds two handlers for one command type; the handlers of other
    /// command types stay as they were.
    pub fn register<C, F>(&mut self, handler: F)
        where
            C: Command,
            F: Fn(C) -> C::Output + Send + Sync + 'static,
        requires
            forall|c: C| #[trigger] call_requires(handler, (c,)),
        ensures
            final(self).registered() == old(self).registered().insert(command_key::<C>()),
            final(self).handler_count() == final(self).registered().len(),
            forall|c: C, o: C::Output|
                #[trigger] final(self).answers::<C>(c, o) ==> call_ensures(handler, (c,), o),
            forall|k: (TypeId, TypeId), input: AnyBox, output: AnyBox|
                k != command_key::<C>() ==> (#[trigger] final(self).answers_at(k, input, output)
                    == old(self).answers_at(k, input, output)),
    {
        proof { use_type_invariant(&*self); }
        let key = key_of::<C>();
        let entry = HandlerEntry::typed::<C, F>(key, handler);
        let ghost added = entry;
        let ghost old_entries = self.handlers@;
        let mut handlers: Vec<HandlerEntry> = Vec::new();
        match self.position(&key) {
            Some(i) => {
                std::mem::swap(&mut handlers, &mut self.handlers);
                assert(handlers@ == old_entries);
                handlers.set(i, entry);
                assert forall|j: int| 0 <= j < old_entries.len() implies #[trigger] entry_keys(handlers@)[j]
                    == entry_keys(old_entries)[j] by {
                    if j != i {
                        assert(handlers@[j] == old_entries[j]);
                    }
                }
                assert(entry_keys(handlers@) =~= entry_keys(old_entries));
                proof {
                    assert(entry_keys(old_entries)[i as int] == key);
                    assert(entry_keys(old_entries).to_set().contains(key));
                    assert(entry_keys(old_entries).to_set().insert(key) =~= entry_keys(old_entries).to_set());
                    assert forall|j: int| 0 <= j < old_entries.len() && j != i implies old_entries[j].key != key by {
                        assert(entry_keys(old_entries)[j] == old_entries[j].key);
                    }
                    lemma_replaced_entry(old_entries, handlers@, added);
                }
            },
            None => {
                std::mem::swap(&mut handlers, &mut self.handlers);
                assert(handlers@ == old_entries);
                handlers.push(entry);
                assert forall|j: int| 0 <= j < old_entries.len() + 1 implies #[trigger] entry_keys(handlers@)[j]
                    == entry_keys(old_entries).push(key)[j] by {
                    if j < old_entries.len() {
                        assert(handlers@[j] == old_entries[j]);
                    }
                }
                assert(entry_keys(handlers@) =~= entry_keys(old_entries).push(key));
                proof {
                    assert(!entry_keys(old_entries).contains(key));
                    entry_keys(old_entries).lemma_push_to_set_commute(key);
                    assert forall|j: int| 0 <= j < old_entries.len() implies old_entries[j].key != key by {
                        assert(entry_keys(old_entries)[j] == old_entries[j].key);
                    }
                    lemma_replaced_entry(old_entries, handlers@, added);
                }
            },
        }
        proof {
            assert forall|j: int| 0 <= j < handlers@.len() implies (#[trigger] handlers@[j]).handler.input_type()
                == handlers@[j].key.0 && handlers@[j].handler.output_type() == handlers@[j].key.1
                && handlers@[j].handler.ready() by {
                if handlers@[j].key != key {
                    assert(handlers@[j] == old_entries[j]);
                }
            }
        }
        *self = CommandBus { handlers };
        proof {
            use_type_invariant(&*self);
            entry_keys(self.handlers@).unique_seq_to_set();
            assert forall|c: C, o: C::Output| #[trigger] self.answers::<C>(c, o) implies call_ensures(handler, (c,), o) by {
                let (input, out) = choose|input: AnyBox, out: AnyBox|
                    held_value::<C>(input) == c && held_value::<C::Output>(out) == o
                        && self.answers_at(command_key::<C>(), input, out);
                let j = choose|j: int| #[trigger] entry_answers(self.handlers@, j, key, input, out);
                assert(entry_answers(self.handlers@, j, key, input, out));
            }
        }
    }

    /// Hands `command` to the handler registered for `C` and returns its
    /// output; fails with `NoHandler` exactly when `C` has no handler.
    pub fn dispatch<C: Command>(&self, command: C) -> (r: Result<C::Output, BusError>)
        ensures
            r is Err <==> !self.registered().contains(command_key::<C>()),
            r matches Ok(output) ==> self.answers::<C>(command, output),
            r matches Err(BusError::NoHandler { command: name }) ==> call_ensures(C::name, (), name),
    {
        proof { use_type_invariant(self); }
        let key = key_of::<C>();
        match self.position(&key) {
            Some(i) => {
                assert(entry_keys(self.handlers@)[i as int] == key);
                assert(self.registered().contains(key));
                let ghost sent = command;
                let input = erase::<C>(command);
                let entry = &self.handlers[i];
                assert(entry.handler.input_type() == key.0);
                let output = entry.handler.call_erased(input);
                let answer = recover::<C::Output>(output);
                proof {
                    assert(entry_answers(self.handlers@, i as int, key, input, output));
                    assert(self.answers_at(key, input, output));
                    assert(held_value::<C>(input) == sent);
                }
                Ok(answer)
            },
            None => {
                assert(!self.registered().contains(key));
                Err(BusError::NoHandler { command: C::name() })
            },
        }
    }
}

/// `new` differs from `old` only in the entries filed under `added.key`,
/// which are all `added`: then under every other key the two answer
/// alike, and under `added.key` only `added` answers.
proof fn lemma_replaced_entry(old: Seq<HandlerEntry>, new: Seq<HandlerEntry>, added: HandlerEntry)
    requires
        forall|j: int| 0 <= j < new.len() && new[j].key == added.key ==> new[j] == added,
        forall|j: int| 0 <= j < new.len() && new[j].key != added.key ==> j < old.len() && new[j] == old[j],
        forall|j: int| 0 <= j < old.len() && old[j].key != added.key ==> j < new.len() && new[j] == old[j],
    ensures
        forall|k: (TypeId, TypeId), input: AnyBox, output: AnyBox|
            k != added.key ==> (#[trigger] answers_in(new, k, input, output) == answers_in(old, k, input, output)),
        forall|j: int, input: AnyBox, output: AnyBox|
            #[trigger] entry_answers(new, j, added.key, input, output) ==> added.handler.relates(input, output),
{
    assert forall|k: (TypeId, TypeId), input: AnyBox, output: AnyBox|
        k != added.key implies (#[trigger] answers_in(new, k, input, output) == answers_in(old, k, input, output)) by {
        if exists|j: int| #[trigger] entry_answers(new, j, k, input, output) {
            let j = choose|j: int| #[trigger] entry_answers(new, j, k, input, output);
            assert(entry_answers(old, j, k, input, output));
        }
        if exists|j: int| #[trigger] entry_answers(old, j, k, input, output) {
            let j = choose|j: int| #[trigger] entry_answers(old, j, k, input, output);
            assert(entry_answers(new, j, k, input, output));
        }
    }
}

/// Registering a command type makes it dispatchable: once `register::<C>`
/// has run, `dispatch::<C>` does not fail with `NoHandler`, and command
/// types registered before stay registered.
pub proof fn lemma_registered_command_is_dispatchable<C: Command>(
    before: CommandBus,
    after: CommandBus,
)
    requires
        after.registered() == before.registered().insert(command_key::<C>()),
    ensures
        after.registered().contains(command_key::<C>()),
        forall|k: (TypeId, TypeId)| #[trigger] before.registered().contains(k) ==> after.registered().contains(k),
{
}

/// Dispatch runs the handler registered last for the command type: when
/// the bus holds `handler` for `C`, as `register::<C>(handler)` leaves it,
/// every output `dispatch::<C>` gives for a command is one `handler` may
/// return for that command.
pub proof fn lemma_dispatch_answers_with_registered_handler<C: Command, F: Fn(C) -> C::Output>(
    bus: CommandBus,
    handler: F,
    command: C,
    output: C::Output,
)
    requires
        forall|c: C, o: C::Output| #[trigger] bus.answers::<C>(c, o) ==> call_ensures(handler, (c,), o),
        bus.answers::<C>(command, output),
    ensures
        call_ensures(handler, (command,), output),
{
}

impl Default for CommandBus {
    fn default() -> (bus: Self)
        ensures
            bus.registered() == Set::<(TypeId, TypeId)>::empty(),
            bus.handler_count() == 0,
    {
        Self::new()
    }
}

} // verus!
