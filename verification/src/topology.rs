//! Declarative broker topology: exchanges, queues and bindings as values,
//! and the declare calls that applying each of them makes on a channel.

use vstd::prelude::*;
use vstd::string::StringExecFns;
use lapin::types::FieldTable;
use crate::arguments::{table_entries, Entries};
use crate::text::{quoted, quoted_text};
use crate::topology::binding::{Binding, Unbind};
use crate::topology::definition::ExchangeDefinition;
use crate::topology::exchange::{Exchange, ExchangePassive};
use crate::topology::queue::{Queue, QueuePassive};

pub mod applier;
pub mod binding;
pub mod definition;
pub mod exchange;
pub mod queue;

verus! {

/// Routing discipline of an exchange.
#[derive(Debug)]
pub enum ExchangeKind {
    /// A kind that a broker plugin provides, by name.
    Custom(String),
    Direct,
    Fanout,
    Headers,
    Topic,
}

/// Mathematical value of an [`ExchangeKind`].
pub enum KindView {
    Custom(Seq<char>),
    Direct,
    Fanout,
    Headers,
    Topic,
}

impl View for ExchangeKind {
    type V = KindView;

    open spec fn view(&self) -> KindView {
        match self {
            ExchangeKind::Custom(name) => KindView::Custom(name@),
            ExchangeKind::Direct => KindView::Direct,
            ExchangeKind::Fanout => KindView::Fanout,
            ExchangeKind::Headers => KindView::Headers,
            ExchangeKind::Topic => KindView::Topic,
        }
    }
}

/// How a kind is written in descriptions: the variant's name, and for a
/// custom kind its name in quotes behind it.
pub open spec fn kind_text(kind: KindView) -> Seq<char> {
    match kind {
        KindView::Custom(name) => "Custom("@ + quoted_text(name) + ")"@,
        KindView::Direct => "Direct"@,
        KindView::Fanout => "Fanout"@,
        KindView::Headers => "Headers"@,
        KindView::Topic => "Topic"@,
    }
}

impl ExchangeKind {
    /// Renders the kind as descriptions show it.
    pub fn to_text(&self) -> (text: String)
        ensures
            text@ == kind_text(self@),
    {
        match self {
            ExchangeKind::Custom(name) => {
                let mut text = String::from_str("Custom(");
                let inner = quoted(name.as_str());
                text.append(inner.as_str());
                text.append(")");
                text
            },
            ExchangeKind::Direct => String::from_str("Direct"),
            ExchangeKind::Fanout => String::from_str("Fanout"),
            ExchangeKind::Headers => String::from_str("Headers"),
            ExchangeKind::Topic => String::from_str("Topic"),
        }
    }
}

impl Clone for ExchangeKind {
    fn clone(&self) -> (copy: ExchangeKind)
        ensures
            copy@ == self@,
    {
        match self {
            ExchangeKind::Custom(name) => ExchangeKind::Custom(name.clone()),
            ExchangeKind::Direct => ExchangeKind::Direct,
            ExchangeKind::Fanout => ExchangeKind::Fanout,
            ExchangeKind::Headers => ExchangeKind::Headers,
            ExchangeKind::Topic => ExchangeKind::Topic,
        }
    }
}

impl Default for ExchangeKind {
    fn default() -> (kind: ExchangeKind)
        ensures
            kind@ == KindView::Direct,
    {
        ExchangeKind::Direct
    }
}

/// Flags of an exchange declaration.
#[derive(Debug, Clone, Copy, PartialEq, Eq, Structural)]
pub struct ExchangeOptions {
    pub passive: bool,
    pub durable: bool,
    pub auto_delete: bool,
    pub internal: bool,
}

/// Flags of a queue declaration.
#[derive(Debug, Clone, Copy, PartialEq, Eq, Structural)]
pub struct QueueOptions {
    pub passive: bool,
    pub durable: bool,
    pub exclusive: bool,
    pub auto_delete: bool,
}

/// One call on a broker channel. The caller that owns the channel makes the
/// call, waits for the broker's answer, and reports whether it succeeded.
#[derive(Debug)]
#[allow(inconsistent_fields)]
pub enum Command {
    ExchangeDeclare { exchange: String, kind: ExchangeKind, options: ExchangeOptions, arguments: FieldTable },
    QueueDeclare { queue: String, options: QueueOptions, arguments: FieldTable },
    ExchangeBind { destination: String, source: String, routing_key: String, arguments: FieldTable },
    QueueBind { queue: String, exchange: String, routing_key: String, arguments: FieldTable },
    ExchangeUnbind { destination: String, source: String, routing_key: String, arguments: FieldTable },
    QueueUnbind { queue: String, exchange: String, routing_key: String, arguments: FieldTable },
}

/// Mathematical value of a [`Command`]: names as texts, an argument table as
/// its entries.
#[allow(inconsistent_fields)]
pub enum CommandView {
    ExchangeDeclare { exchange: Seq<char>, kind: KindView, options: ExchangeOptions, arguments: Entries },
    QueueDeclare { queue: Seq<char>, options: QueueOptions, arguments: Entries },
    ExchangeBind { destination: Seq<char>, source: Seq<char>, routing_key: Seq<char>, arguments: Entries },
    QueueBind { queue: Seq<char>, exchange: Seq<char>, routing_key: Seq<char>, arguments: Entries },
    ExchangeUnbind { destination: Seq<char>, source: Seq<char>, routing_key: Seq<char>, arguments: Entries },
    QueueUnbind { queue: Seq<char>, exchange: Seq<char>, routing_key: Seq<char>, arguments: Entries },
}

impl View for Command {
    type V = CommandView;

    open spec fn view(&self) -> CommandView {
        match self {
            Command::ExchangeDeclare { exchange, kind, options, arguments } => CommandView::ExchangeDeclare {
                exchange: exchange@,
                kind: kind@,
                options: *options,
                arguments: table_entries(*arguments),
            },
            Command::QueueDeclare { queue, options, arguments } => CommandView::QueueDeclare {
                queue: queue@,
                options: *options,
                arguments: table_entries(*arguments),
            },
            Command::ExchangeBind { destination, source, routing_key, arguments } => CommandView::ExchangeBind {
                destination: destination@,
                source: source@,
                routing_key: routing_key@,
                arguments: table_entries(*arguments),
            },
            Command::QueueBind { queue, exchange, routing_key, arguments } => CommandView::QueueBind {
                queue: queue@,
                exchange: exchange@,
                routing_key: routing_key@,
                arguments: table_entries(*arguments),
            },
            Command::ExchangeUnbind { destination, source, routing_key, arguments } => CommandView::ExchangeUnbind {
                destination: destination@,
                source: source@,
                routing_key: routing_key@,
                arguments: table_entries(*arguments),
            },
            Command::QueueUnbind { queue, exchange, routing_key, arguments } => CommandView::QueueUnbind {
                queue: queue@,
                exchange: exchange@,
                routing_key: routing_key@,
                arguments: table_entries(*arguments),
            },
        }
    }
}

/// What every topology item can do: describe itself, and say which calls
/// applying it makes on a channel.
pub trait Topology: Send + Sync {
    /// The description that [`Topology::name`] renders.
    spec fn description(&self) -> Seq<char>;

    /// The calls that applying the item makes, in order. The item counts as
    /// applied when all of them succeeded; the first failure ends it.
    spec fn plan(&self) -> Seq<CommandView>;

    /// Renders a description of the item.
    fn name(&self) -> (text: String)
        ensures
            text@ == self.description(),
    ;

    /// The call at position `step` of the plan; `None` past its end.
    fn command(&self, step: usize) -> (command: Option<Command>)
        ensures
            match command {
                Some(c) => step < self.plan().len() && c@ == self.plan()[step as int],
                None => step >= self.plan().len(),
            },
    ;

    /// A plan holds at least one call, and none at a position that a machine
    /// integer could not reach.
    proof fn plan_is_bounded(&self)
        ensures
            1 <= self.plan().len() <= usize::MAX + 1,
    ;
}

/// A kind of broker object that a binding can lead to.
pub trait CanBound: Send + Sync {
    /// The word that [`CanBound::bound_type`] returns.
    spec fn bound_text() -> Seq<char>;

    /// The word that names this kind of target in descriptions.
    fn bound_type() -> (word: &'static str)
        ensures
            word@ == Self::bound_text(),
    ;
}

/// One item of a topology: any of the kinds of item that the library knows.
#[derive(Debug)]
pub enum TopologyItem {
    Exchange(Exchange),
    ExchangePassive(ExchangePassive),
    ExchangeDefinition(ExchangeDefinition),
    Queue(Queue),
    QueuePassive(QueuePassive),
    ExchangeBinding(Binding<Exchange>),
    QueueBinding(Binding<Queue>),
    ExchangeUnbind(Unbind<Exchange>),
    QueueUnbind(Unbind<Queue>),
}

impl Topology for TopologyItem {
    open spec fn description(&self) -> Seq<char> {
        match self {
            TopologyItem::Exchange(item) => item.description(),
            TopologyItem::ExchangePassive(item) => item.description(),
            TopologyItem::ExchangeDefinition(item) => item.description(),
            TopologyItem::Queue(item) => item.description(),
            TopologyItem::QueuePassive(item) => item.description(),
            TopologyItem::ExchangeBinding(item) => item.description(),
            TopologyItem::QueueBinding(item) => item.description(),
            TopologyItem::ExchangeUnbind(item) => item.description(),
            TopologyItem::QueueUnbind(item) => item.description(),
        }
    }

    open spec fn plan(&self) -> Seq<CommandView> {
        match self {
            TopologyItem::Exchange(item) => item.plan(),
            TopologyItem::ExchangePassive(item) => item.plan(),
            TopologyItem::ExchangeDefinition(item) => item.plan(),
            TopologyItem::Queue(item) => item.plan(),
            TopologyItem::QueuePassive(item) => item.plan(),
            TopologyItem::ExchangeBinding(item) => item.plan(),
            TopologyItem::QueueBinding(item) => item.plan(),
            TopologyItem::ExchangeUnbind(item) => item.plan(),
            TopologyItem::QueueUnbind(item) => item.plan(),
        }
    }

    fn name(&self) -> (text: String) {
        match self {
            TopologyItem::Exchange(item) => item.name(),
            TopologyItem::ExchangePassive(item) => item.name(),
            TopologyItem::ExchangeDefinition(item) => item.name(),
            TopologyItem::Queue(item) => item.name(),
            TopologyItem::QueuePassive(item) => item.name(),
            TopologyItem::ExchangeBinding(item) => item.name(),
            TopologyItem::QueueBinding(item) => item.name(),
            TopologyItem::ExchangeUnbind(item) => item.name(),
            TopologyItem::QueueUnbind(item) => item.name(),
        }
    }

    proof fn plan_is_bounded(&self) {
        match self {
            TopologyItem::Exchange(item) => item.plan_is_bounded(),
            TopologyItem::ExchangePassive(item) => item.plan_is_bounded(),
            TopologyItem::ExchangeDefinition(item) => item.plan_is_bounded(),
            TopologyItem::Queue(item) => item.plan_is_bounded(),
            TopologyItem::QueuePassive(item) => item.plan_is_bounded(),
            TopologyItem::ExchangeBinding(item) => item.plan_is_bounded(),
            TopologyItem::QueueBinding(item) => item.plan_is_bounded(),
            TopologyItem::ExchangeUnbind(item) => item.plan_is_bounded(),
            TopologyItem::QueueUnbind(item) => item.plan_is_bounded(),
        }
    }

    fn command(&self, step: usize) -> (command: Option<Command>) {
        match self {
            TopologyItem::Exchange(item) => item.command(step),
            TopologyItem::ExchangePassive(item) => item.command(step),
            TopologyItem::ExchangeDefinition(item) => item.command(step),
            TopologyItem::Queue(item) => item.command(step),
            TopologyItem::QueuePassive(item) => item.command(step),
            TopologyItem::ExchangeBinding(item) => item.command(step),
            TopologyItem::QueueBinding(item) => item.command(step),
            TopologyItem::ExchangeUnbind(item) => item.command(step),
            TopologyItem::QueueUnbind(item) => item.command(step),
        }
    }
}

} // verus!
