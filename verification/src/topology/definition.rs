//! Exchanges in the shape in which the AMQP client records a topology: every
//! setting optional, bindings by source and routing key.

use vstd::prelude::*;
use vstd::string::StringExecFns;
use lapin::types::FieldTable;
use crate::arguments::{no_entries, table_clone, table_entries, table_new, Entries};
use crate::topology::{kind_text, Command, CommandView, ExchangeKind, ExchangeOptions, KindView, Topology};

verus! {

/// A rule that binds the exchange that holds it to a source exchange.
#[derive(Debug)]
pub struct BindingDefinition {
    pub source: String,
    pub routing_key: String,
    pub arguments: FieldTable,
}

/// Mathematical value of a [`BindingDefinition`].
pub struct BindingDefinitionView {
    pub source: Seq<char>,
    pub routing_key: Seq<char>,
    pub arguments: Entries,
}

impl View for BindingDefinition {
    type V = BindingDefinitionView;

    open spec fn view(&self) -> BindingDefinitionView {
        BindingDefinitionView {
            source: self.source@,
            routing_key: self.routing_key@,
            arguments: table_entries(self.arguments),
        }
    }
}

/// An exchange as a recorded topology holds it.
#[derive(Debug)]
pub struct ExchangeDefinition {
    pub name: String,
    pub kind: Option<ExchangeKind>,
    pub options: Option<ExchangeOptions>,
    pub arguments: Option<FieldTable>,
    pub bindings: Vec<BindingDefinition>,
}

/// Mathematical value of an [`ExchangeDefinition`].
pub struct DefinitionView {
    pub name: Seq<char>,
    pub kind: Option<KindView>,
    pub options: Option<ExchangeOptions>,
    pub arguments: Option<Entries>,
    pub bindings: Seq<BindingDefinitionView>,
}

/// The flags of a declaration for which none were recorded: all off.
pub open spec fn no_options() -> ExchangeOptions {
    ExchangeOptions { passive: false, durable: false, auto_delete: false, internal: false }
}

impl DefinitionView {
    /// The declaration of the exchange. What was not recorded takes its
    /// default: the direct kind, no flags, no arguments.
    pub open spec fn declaration(self) -> CommandView {
        CommandView::ExchangeDeclare {
            exchange: self.name,
            kind: match self.kind {
                Some(kind) => kind,
                None => KindView::Direct,
            },
            options: match self.options {
                Some(options) => options,
                None => no_options(),
            },
            arguments: match self.arguments {
                Some(entries) => entries,
                None => no_entries(),
            },
        }
    }

    /// The call that binds the exchange as `rule` says.
    pub open spec fn bind(self, rule: BindingDefinitionView) -> CommandView {
        CommandView::ExchangeBind {
            destination: self.name,
            source: rule.source,
            routing_key: rule.routing_key,
            arguments: rule.arguments,
        }
    }

    /// The calls that apply the exchange: its declaration, then one bind
    /// call for each binding, in order.
    pub open spec fn plan(self) -> Seq<CommandView> {
        seq![self.declaration()] + self.bindings.map_values(
            |rule: BindingDefinitionView| self.bind(rule),
        )
    }

    /// The description of the exchange.
    pub open spec fn text(self) -> Seq<char> {
        "Exchange("@ + self.name + (match self.kind {
            Some(kind) => ", "@ + kind_text(kind),
            None => Seq::empty(),
        }) + ")"@
    }
}

impl View for ExchangeDefinition {
    type V = DefinitionView;

    open spec fn view(&self) -> DefinitionView {
        DefinitionView {
            name: self.name@,
            kind: match self.kind {
                Some(kind) => Some(kind@),
                None => None,
            },
            options: self.options,
            arguments: match self.arguments {
                Some(table) => Some(table_entries(table)),
                None => None,
            },
            bindings: self.bindings@.map_values(|b: BindingDefinition| b@),
        }
    }
}

impl Topology for ExchangeDefinition {
    open spec fn description(&self) -> Seq<char> {
        self@.text()
    }

    open spec fn plan(&self) -> Seq<CommandView> {
        self@.plan()
    }

    fn name(&self) -> (text: String) {
        let mut text = String::from_str("Exchange(");
        text.append(self.name.as_str());
        if let Some(kind) = &self.kind {
            text.append(", ");
            let kind = kind.to_text();
            text.append(kind.as_str());
        }
        text.append(")");
        assert(text@ =~= self@.text());
        text
    }

    proof fn plan_is_bounded(&self) {
        assert(self.bindings.len() == self.bindings@.len());
    }

    fn command(&self, step: usize) -> (command: Option<Command>) {
        if step == 0 {
            Some(
                Command::ExchangeDeclare {
                    exchange: self.name.clone(),
                    kind: match &self.kind {
                        Some(kind) => kind.clone(),
                        None => ExchangeKind::default(),
                    },
                    options: match self.options {
                        Some(options) => options,
                        None => ExchangeOptions {
                            passive: false,
                            durable: false,
                            auto_delete: false,
                            internal: false,
                        },
                    },
                    arguments: match &self.arguments {
                        Some(table) => table_clone(table),
                        None => table_new(),
                    },
                },
            )
        } else if step - 1 < self.bindings.len() {
            let rule = &self.bindings[step - 1];
            Some(
                Command::ExchangeBind {
                    destination: self.name.clone(),
                    source: rule.source.clone(),
                    routing_key: rule.routing_key.clone(),
                    arguments: table_clone(&rule.arguments),
                },
            )
        } else {
            None
        }
    }
}

} // verus!
