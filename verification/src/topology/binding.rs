//! Bindings: directed routing rules from a source exchange to a target
//! exchange or queue, and their removal.

use vstd::prelude::*;
use vstd::string::StringExecFns;
use std::marker::PhantomData;
use lapin::types::FieldTable;
use crate::arguments::{entries_debug_text, no_entries, table_clone, table_debug, table_entries, table_new, Entries};
use crate::topology::exchange::Exchange;
use crate::topology::queue::Queue;
use crate::topology::{CanBound, Command, CommandView, Topology};

verus! {

/// A routing rule `source -> target`. The kind of the target, an exchange
/// or a queue, is fixed by the type parameter.
#[derive(Debug)]
pub struct Binding<T: CanBound> {
    source: String,
    target: String,
    routing_key: Option<String>,
    arguments: Option<FieldTable>,
    kind: PhantomData<T>,
}

/// Mathematical value of a binding or of its removal.
pub struct BindingView {
    pub source: Seq<char>,
    pub target: Seq<char>,
    pub routing_key: Option<Seq<char>>,
    pub arguments: Option<Entries>,
}

impl BindingView {
    /// The routing key that calls carry: the empty text where none was set.
    pub open spec fn key(self) -> Seq<char> {
        match self.routing_key {
            Some(key) => key,
            None => Seq::empty(),
        }
    }

    /// The arguments that calls carry: the empty table where none was set.
    pub open spec fn table(self) -> Entries {
        match self.arguments {
            Some(entries) => entries,
            None => no_entries(),
        }
    }

    /// The description of the rule, `bound` being the word for the kind of
    /// its target.
    pub open spec fn text(self, bound: Seq<char>) -> Seq<char> {
        self.source + " -> "@ + bound + "("@ + self.target + ")"@ + (match self.routing_key {
            Some(key) => ", routing key: "@ + key,
            None => Seq::empty(),
        }) + (match self.arguments {
            Some(entries) => ", arguments: "@ + entries_debug_text(entries),
            None => Seq::empty(),
        })
    }
}

impl<T: CanBound> View for Binding<T> {
    type V = BindingView;

    closed spec fn view(&self) -> BindingView {
        BindingView {
            source: self.source@,
            target: self.target@,
            routing_key: match self.routing_key {
                Some(key) => Some(key@),
                None => None,
            },
            arguments: match self.arguments {
                Some(table) => Some(table_entries(table)),
                None => None,
            },
        }
    }
}

impl<T: CanBound> Binding<T> {
    /// A rule from `source` to `target`, without routing key or arguments.
    pub fn new(source: &str, target: &str) -> (binding: Self)
        ensures
            binding@ == (BindingView {
                source: source@,
                target: target@,
                routing_key: None,
                arguments: None,
            }),
    {
        Binding {
            source: String::from_str(source),
            target: String::from_str(target),
            routing_key: None,
            arguments: None,
            kind: PhantomData,
        }
    }

    /// Sets the routing key.
    pub fn routing_key(self, routing_key: &str) -> (binding: Self)
        ensures
            binding@ == (BindingView { routing_key: Some(routing_key@), ..self@ }),
    {
        Binding {
            source: self.source,
            target: self.target,
            routing_key: Some(String::from_str(routing_key)),
            arguments: self.arguments,
            kind: PhantomData,
        }
    }

    /// Sets the arguments.
    pub fn arguments(self, arguments: FieldTable) -> (binding: Self)
        ensures
            binding@ == (BindingView { arguments: Some(table_entries(arguments)), ..self@ }),
    {
        Binding {
            source: self.source,
            target: self.target,
            routing_key: self.routing_key,
            arguments: Some(arguments),
            kind: PhantomData,
        }
    }

    /// The removal of this rule.
    pub fn unbind(self) -> (removal: Unbind<T>)
        ensures
            removal@ == self@,
    {
        Unbind(self)
    }

    /// The same rule with `target` as its target.
    pub(crate) fn aimed_at(self, target: &str) -> (binding: Self)
        ensures
            binding@ == (BindingView { target: target@, ..self@ }),
    {
        Binding {
            source: self.source,
            target: String::from_str(target),
            routing_key: self.routing_key,
            arguments: self.arguments,
            kind: PhantomData,
        }
    }

    /// Renders the description of the rule.
    pub fn describe(&self) -> (text: String)
        ensures
            text@ == self@.text(T::bound_text()),
    {
        let mut text = self.source.clone();
        text.append(" -> ");
        text.append(T::bound_type());
        text.append("(");
        text.append(self.target.as_str());
        text.append(")");
        if let Some(key) = &self.routing_key {
            text.append(", routing key: ");
            text.append(key.as_str());
        }
        if let Some(table) = &self.arguments {
            text.append(", arguments: ");
            let rendered = table_debug(table);
            text.append(rendered.as_str());
        }
        assert(text@ =~= self@.text(T::bound_text()));
        text
    }

    /// The routing key that calls carry.
    fn key_text(&self) -> (key: String)
        ensures
            key@ == self@.key(),
    {
        match &self.routing_key {
            Some(key) => key.clone(),
            None => String::new(),
        }
    }

    /// The arguments that calls carry.
    fn argument_table(&self) -> (table: FieldTable)
        ensures
            table_entries(table) == self@.table(),
    {
        match &self.arguments {
            Some(table) => table_clone(table),
            None => table_new(),
        }
    }
}

impl<T: CanBound> Clone for Binding<T> {
    fn clone(&self) -> (copy: Self)
        ensures
            copy@ == self@,
    {
        Binding {
            source: self.source.clone(),
            target: self.target.clone(),
            routing_key: match &self.routing_key {
                Some(key) => Some(key.clone()),
                None => None,
            },
            arguments: match &self.arguments {
                Some(table) => Some(table_clone(table)),
                None => None,
            },
            kind: PhantomData,
        }
    }
}

/// The call that binds an exchange as the rule says.
pub open spec fn exchange_bind(rule: BindingView) -> CommandView {
    CommandView::ExchangeBind {
        destination: rule.target,
        source: rule.source,
        routing_key: rule.key(),
        arguments: rule.table(),
    }
}

/// The call that binds a queue as the rule says.
pub open spec fn queue_bind(rule: BindingView) -> CommandView {
    CommandView::QueueBind {
        queue: rule.target,
        exchange: rule.source,
        routing_key: rule.key(),
        arguments: rule.table(),
    }
}

/// The call that removes the rule from an exchange.
pub open spec fn exchange_unbind(rule: BindingView) -> CommandView {
    CommandView::ExchangeUnbind {
        destination: rule.target,
        source: rule.source,
        routing_key: rule.key(),
        arguments: rule.table(),
    }
}

/// The call that removes the rule from a queue.
pub open spec fn queue_unbind(rule: BindingView) -> CommandView {
    CommandView::QueueUnbind {
        queue: rule.target,
        exchange: rule.source,
        routing_key: rule.key(),
        arguments: rule.table(),
    }
}

impl Topology for Binding<Exchange> {
    open spec fn description(&self) -> Seq<char> {
        self@.text(Exchange::bound_text())
    }

    open spec fn plan(&self) -> Seq<CommandView> {
        seq![exchange_bind(self@)]
    }

    fn name(&self) -> (text: String) {
        self.describe()
    }

    proof fn plan_is_bounded(&self) {
    }

    fn command(&self, step: usize) -> (command: Option<Command>) {
        if step == 0 {
            Some(
                Command::ExchangeBind {
                    destination: self.target.clone(),
                    source: self.source.clone(),
                    routing_key: self.key_text(),
                    arguments: self.argument_table(),
                },
            )
        } else {
            None
        }
    }
}

impl Topology for Binding<Queue> {
    open spec fn description(&self) -> Seq<char> {
        self@.text(Queue::bound_text())
    }

    open spec fn plan(&self) -> Seq<CommandView> {
        seq![queue_bind(self@)]
    }

    fn name(&self) -> (text: String) {
        self.describe()
    }

    proof fn plan_is_bounded(&self) {
    }

    fn command(&self, step: usize) -> (command: Option<Command>) {
        if step == 0 {
            Some(
                Command::QueueBind {
                    queue: self.target.clone(),
                    exchange: self.source.clone(),
                    routing_key: self.key_text(),
                    arguments: self.argument_table(),
                },
            )
        } else {
            None
        }
    }
}

/// The removal of a routing rule.
#[derive(Debug)]
pub struct Unbind<T: CanBound>(Binding<T>);

impl<T: CanBound> View for Unbind<T> {
    type V = BindingView;

    closed spec fn view(&self) -> BindingView {
        self.0@
    }
}

impl<T: CanBound> Unbind<T> {
    /// Renders the description of the rule that is removed.
    pub fn describe(&self) -> (text: String)
        ensures
            text@ == self@.text(T::bound_text()),
    {
        self.0.describe()
    }
}

impl<T: CanBound> Clone for Unbind<T> {
    fn clone(&self) -> (copy: Self)
        ensures
            copy@ == self@,
    {
        Unbind(self.0.clone())
    }
}

impl Topology for Unbind<Exchange> {
    open spec fn description(&self) -> Seq<char> {
        "unbind: "@ + self@.text(Exchange::bound_text())
    }

    open spec fn plan(&self) -> Seq<CommandView> {
        seq![exchange_unbind(self@)]
    }

    fn name(&self) -> (text: String) {
        let rule = self.0.describe();
        String::from_str("unbind: ").concat(rule.as_str())
    }

    proof fn plan_is_bounded(&self) {
    }

    fn command(&self, step: usize) -> (command: Option<Command>) {
        if step == 0 {
            Some(
                Command::ExchangeUnbind {
                    destination: self.0.target.clone(),
                    source: self.0.source.clone(),
                    routing_key: self.0.key_text(),
                    arguments: self.0.argument_table(),
                },
            )
        } else {
            None
        }
    }
}

impl Topology for Unbind<Queue> {
    open spec fn description(&self) -> Seq<char> {
        "unbind: "@ + self@.text(Queue::bound_text())
    }

    open spec fn plan(&self) -> Seq<CommandView> {
        seq![queue_unbind(self@)]
    }

    fn name(&self) -> (text: String) {
        let rule = self.0.describe();
        String::from_str("unbind: ").concat(rule.as_str())
    }

    proof fn plan_is_bounded(&self) {
    }

    fn command(&self, step: usize) -> (command: Option<Command>) {
        if step == 0 {
            Some(
                Command::QueueUnbind {
                    queue: self.0.target.clone(),
                    exchange: self.0.source.clone(),
                    routing_key: self.0.key_text(),
                    arguments: self.0.argument_table(),
                },
            )
        } else {
            None
        }
    }
}

} // verus!
