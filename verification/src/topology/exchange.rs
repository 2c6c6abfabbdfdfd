//! Exchanges.

use vstd::prelude::*;
use vstd::string::StringExecFns;
use lapin::types::FieldTable;
use crate::arguments::{no_entries, table_entries, table_insert, table_new, ArgumentValue, ArgumentView, Entries};
use crate::text::{decimal, decimal_text};
use crate::topology::binding::{exchange_bind, Binding, BindingView};
use crate::topology::queue::{fresh_rule, text_of};
use crate::topology::{kind_text, CanBound, Command, CommandView, ExchangeKind, ExchangeOptions, KindView, Topology};

verus! {

/// Asserts that an exchange exists, without creating or changing it.
#[derive(Debug)]
pub struct ExchangePassive(String);

impl View for ExchangePassive {
    type V = Seq<char>;

    /// The name of the exchange.
    closed spec fn view(&self) -> Seq<char> {
        self.0@
    }
}

/// The flags of a declaration that only checks existence.
pub open spec fn passive_exchange_options() -> ExchangeOptions {
    ExchangeOptions { passive: true, durable: false, auto_delete: false, internal: false }
}

impl ExchangePassive {
    /// The assertion that the exchange `name` exists.
    pub fn new(name: &str) -> (item: Self)
        ensures
            item@ == name@,
    {
        ExchangePassive(String::from_str(name))
    }
}

impl Clone for ExchangePassive {
    fn clone(&self) -> (copy: Self)
        ensures
            copy@ == self@,
    {
        ExchangePassive(self.0.clone())
    }
}

impl Topology for ExchangePassive {
    open spec fn description(&self) -> Seq<char> {
        "Exchange("@ + self@ + ") as passive"@
    }

    /// A passive declaration names no kind: it carries the custom kind with
    /// the empty name.
    open spec fn plan(&self) -> Seq<CommandView> {
        seq![
            CommandView::ExchangeDeclare {
                exchange: self@,
                kind: KindView::Custom(Seq::empty()),
                options: passive_exchange_options(),
                arguments: no_entries(),
            },
        ]
    }

    fn name(&self) -> (text: String) {
        let mut text = String::from_str("Exchange(");
        text.append(self.0.as_str());
        text.append(") as passive");
        text
    }

    proof fn plan_is_bounded(&self) {
    }

    fn command(&self, step: usize) -> (command: Option<Command>) {
        if step == 0 {
            Some(
                Command::ExchangeDeclare {
                    exchange: self.0.clone(),
                    kind: ExchangeKind::Custom(String::new()),
                    options: ExchangeOptions {
                        passive: true,
                        durable: false,
                        auto_delete: false,
                        internal: false,
                    },
                    arguments: table_new(),
                },
            )
        } else {
            None
        }
    }
}

/// An exchange to declare, with the rules that bind it to its sources.
#[derive(Debug)]
pub struct Exchange {
    name: String,
    kind: ExchangeKind,
    auto_delete: bool,
    durable: bool,
    internal: bool,
    alternate_exchange: Option<String>,
    bindings: Vec<Binding<Exchange>>,
}

/// Mathematical value of an [`Exchange`].
pub struct ExchangeView {
    pub name: Seq<char>,
    pub kind: KindView,
    pub auto_delete: bool,
    pub durable: bool,
    pub internal: bool,
    pub alternate_exchange: Option<Seq<char>>,
    pub bindings: Seq<BindingView>,
}

impl ExchangeView {
    /// A durable exchange of that name and kind with nothing else set.
    pub open spec fn plain(name: Seq<char>, kind: KindView) -> ExchangeView {
        ExchangeView {
            name,
            kind,
            auto_delete: false,
            durable: true,
            internal: false,
            alternate_exchange: None,
            bindings: Seq::empty(),
        }
    }

    /// Every rule of the exchange leads to the exchange itself.
    pub open spec fn well_formed(self) -> bool {
        forall|i: int| 0 <= i < self.bindings.len() ==> (#[trigger] self.bindings[i]).target == self.name
    }

    /// The flags that the declaration carries.
    pub open spec fn options(self) -> ExchangeOptions {
        ExchangeOptions {
            passive: false,
            durable: self.durable,
            auto_delete: self.auto_delete,
            internal: self.internal,
        }
    }

    /// The arguments that the declaration carries: the alternate exchange,
    /// where one is set.
    pub open spec fn declare_arguments(self) -> Entries {
        match self.alternate_exchange {
            Some(alternate) => no_entries().insert(
                "alternate-exchange"@,
                ArgumentView::ShortString(alternate),
            ),
            None => no_entries(),
        }
    }

    /// The declaration of the exchange.
    pub open spec fn declaration(self) -> CommandView {
        CommandView::ExchangeDeclare {
            exchange: self.name,
            kind: self.kind,
            options: self.options(),
            arguments: self.declare_arguments(),
        }
    }

    /// The calls that apply the exchange: its declaration, then one bind
    /// call for each rule, in the order in which the rules were added.
    pub open spec fn plan(self) -> Seq<CommandView> {
        seq![self.declaration()] + self.bindings.map_values(|rule: BindingView| exchange_bind(rule))
    }

    /// The description of the exchange.
    pub open spec fn text(self) -> Seq<char> {
        "Exchange("@ + self.name + ", "@ + kind_text(self.kind) + (if self.durable {
            ", durable"@
        } else {
            Seq::empty()
        }) + (if self.auto_delete {
            ", auto-delete"@
        } else {
            Seq::empty()
        }) + (if self.internal {
            ", internal"@
        } else {
            Seq::empty()
        }) + (match self.alternate_exchange {
            Some(alternate) => ", alternate-exchange = "@ + alternate,
            None => Seq::empty(),
        }) + (if self.bindings.len() > 0 {
            ", bound to "@ + decimal_text(self.bindings.len())
        } else {
            Seq::empty()
        }) + ")"@
    }

    /// The exchange with one more rule, which is made to lead to the
    /// exchange.
    pub open spec fn with_binding(self, made: BindingView) -> ExchangeView {
        ExchangeView { bindings: self.bindings.push(BindingView { target: self.name, ..made }), ..self }
    }
}

impl View for Exchange {
    type V = ExchangeView;

    closed spec fn view(&self) -> ExchangeView {
        ExchangeView {
            name: self.name@,
            kind: self.kind@,
            auto_delete: self.auto_delete,
            durable: self.durable,
            internal: self.internal,
            alternate_exchange: text_of(self.alternate_exchange),
            bindings: self.bindings@.map_values(|b: Binding<Exchange>| b@),
        }
    }
}

impl CanBound for Exchange {
    open spec fn bound_text() -> Seq<char> {
        "exchange"@
    }

    fn bound_type() -> (word: &'static str) {
        "exchange"
    }
}

impl Exchange {
    #[verifier::type_invariant]
    spec fn rules_lead_here(self) -> bool {
        self@.well_formed()
    }

    /// A durable exchange of that name and kind, with nothing else set.
    pub fn new(name: &str, kind: ExchangeKind) -> (exchange: Self)
        ensures
            exchange@ == ExchangeView::plain(name@, kind@),
    {
        let exchange = Exchange {
            name: String::from_str(name),
            kind,
            auto_delete: false,
            durable: true,
            internal: false,
            alternate_exchange: None,
            bindings: Vec::new(),
        };
        assert(exchange@.bindings =~= Seq::empty());
        exchange
    }

    /// Makes the exchange transient.
    pub fn non_durable(self) -> (exchange: Self)
        ensures
            exchange@ == (ExchangeView { durable: false, ..self@ }),
    {
        proof {
            use_type_invariant(&self);
        }
        let mut exchange = self;
        exchange.durable = false;
        exchange
    }

    /// Lets the broker delete the exchange when its last queue is unbound.
    pub fn auto_delete(self) -> (exchange: Self)
        ensures
            exchange@ == (ExchangeView { auto_delete: true, ..self@ }),
    {
        proof {
            use_type_invariant(&self);
        }
        let mut exchange = self;
        exchange.auto_delete = true;
        exchange
    }

    /// Closes the exchange to publishers: only other exchanges feed it.
    pub fn internal(self) -> (exchange: Self)
        ensures
            exchange@ == (ExchangeView { internal: true, ..self@ }),
    {
        proof {
            use_type_invariant(&self);
        }
        let mut exchange = self;
        exchange.internal = true;
        exchange
    }

    /// Sets the exchange that takes the messages that this one cannot route.
    pub fn alternate_exchange(self, alternate_exchange: &str) -> (exchange: Self)
        ensures
            exchange@ == (ExchangeView { alternate_exchange: Some(alternate_exchange@), ..self@ }),
    {
        proof {
            use_type_invariant(&self);
        }
        let mut exchange = self;
        exchange.alternate_exchange = Some(String::from_str(alternate_exchange));
        exchange
    }

    /// Adds a rule that binds the exchange to the exchange `source`. The
    /// closure receives the plain rule and returns it with what it wants
    /// set; whatever it returns is made to lead to this exchange.
    pub fn add_binding<F>(self, source: &str, f: F) -> (exchange: Self) where
        F: FnOnce(Binding<Exchange>) -> Binding<Exchange>,

        requires
            forall|fresh: Binding<Exchange>|
                fresh@ == fresh_rule(source@, self@.name) ==> f.requires((fresh,)),
        ensures
            exists|fresh: Binding<Exchange>, made: Binding<Exchange>|
                fresh@ == fresh_rule(source@, self@.name) && #[trigger] f.ensures((fresh,), made)
                    && exchange@ == self@.with_binding(made@),
    {
        proof {
            use_type_invariant(&self);
        }
        let fresh = Binding::<Exchange>::new(source, self.name.as_str());
        let made = f(fresh);
        let rule = made.aimed_at(self.name.as_str());
        let ghost before = self@;
        let mut rules = self.bindings;
        rules.push(rule);
        let ghost views = rules@.map_values(|b: Binding<Exchange>| b@);
        assert forall|i: int| 0 <= i < views.len() implies (#[trigger] views[i]).target
            == self.name@ by {
            if i < before.bindings.len() {
                assert(views[i] == before.bindings[i]);
            }
        }
        let exchange = Exchange {
            name: self.name,
            kind: self.kind,
            auto_delete: self.auto_delete,
            durable: self.durable,
            internal: self.internal,
            alternate_exchange: self.alternate_exchange,
            bindings: rules,
        };
        assert(exchange@.bindings =~= before.with_binding(made@).bindings);
        exchange
    }

    /// The rules that bind the exchange, in the order in which they were
    /// added. Each of them leads to this exchange.
    pub fn bindings(&self) -> (rules: &Vec<Binding<Exchange>>)
        ensures
            rules@.map_values(|b: Binding<Exchange>| b@) == self@.bindings,
            self@.well_formed(),
    {
        proof {
            use_type_invariant(self);
        }
        &self.bindings
    }

    /// Builds the arguments that the declaration of the exchange carries.
    pub fn declare_arguments(&self) -> (table: FieldTable)
        ensures
            table_entries(table) == self@.declare_arguments(),
    {
        let mut arguments = table_new();
        if let Some(alternate) = &self.alternate_exchange {
            table_insert(
                &mut arguments,
                "alternate-exchange",
                ArgumentValue::ShortString(alternate.clone()),
            );
        }
        arguments
    }
}

impl Topology for Exchange {
    open spec fn description(&self) -> Seq<char> {
        self@.text()
    }

    open spec fn plan(&self) -> Seq<CommandView> {
        self@.plan()
    }

    fn name(&self) -> (text: String) {
        let mut text = String::from_str("Exchange(");
        text.append(self.name.as_str());
        text.append(", ");
        let kind = self.kind.to_text();
        text.append(kind.as_str());
        if self.durable {
            text.append(", durable");
        }
        if self.auto_delete {
            text.append(", auto-delete");
        }
        if self.internal {
            text.append(", internal");
        }
        if let Some(alternate) = &self.alternate_exchange {
            text.append(", alternate-exchange = ");
            text.append(alternate.as_str());
        }
        if self.bindings.len() > 0 {
            text.append(", bound to ");
            let count = decimal(self.bindings.len());
            text.append(count.as_str());
        }
        text.append(")");
        assert(text@ =~= self@.text());
        text
    }

    proof fn plan_is_bounded(&self) {
        assert(self.bindings.len() == self.bindings@.len());
    }

    fn command(&self, step: usize) -> (command: Option<Command>) {
        if step == 0 {
            Some(
                Command::ExchangeDeclare {
                    exchange: self.name.clone(),
                    kind: self.kind.clone(),
                    options: ExchangeOptions {
                        passive: false,
                        durable: self.durable,
                        auto_delete: self.auto_delete,
                        internal: self.internal,
                    },
                    arguments: self.declare_arguments(),
                },
            )
        } else if step - 1 < self.bindings.len() {
            self.bindings[step - 1].command(0)
        } else {
            None
        }
    }
}

/// The rules of an exchange lead to the exchange: a plain exchange has no
/// rule, and adding one keeps the exchange well formed whatever rule the
/// closure made. So every bind call of the plan of a well-formed exchange
/// has the exchange itself as its destination.
pub proof fn lemma_rules_lead_to_the_exchange(exchange: ExchangeView, made: BindingView, i: int)
    requires
        exchange.well_formed(),
        1 <= i < exchange.plan().len(),
    ensures
        ExchangeView::plain(exchange.name, exchange.kind).well_formed(),
        exchange.with_binding(made).well_formed(),
        exchange.plan()[i] matches CommandView::ExchangeBind { destination, .. } && destination
            == exchange.name,
{
    assert(exchange.plan()[i] == exchange_bind(exchange.bindings[i - 1]));
}

} // verus!
