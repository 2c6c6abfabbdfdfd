//! Queues.

use vstd::prelude::*;
use vstd::string::StringExecFns;
use std::time::Duration;
use lapin::types::FieldTable;
use crate::arguments::{no_entries, table_entries, table_insert, table_new, ArgumentValue, ArgumentView, Entries};
use crate::timing::{millis_of, whole_millis};
use crate::topology::binding::{Binding, BindingView};
use crate::topology::{CanBound, Command, CommandView, QueueOptions, Topology};

verus! {

/// Asserts that a queue exists, without creating or changing it.
#[derive(Debug)]
pub struct QueuePassive(String);

impl View for QueuePassive {
    type V = Seq<char>;

    /// The name of the queue.
    closed spec fn view(&self) -> Seq<char> {
        self.0@
    }
}

/// The flags of a declaration that only checks existence.
pub open spec fn passive_queue_options() -> QueueOptions {
    QueueOptions { passive: true, durable: false, exclusive: false, auto_delete: false }
}

impl QueuePassive {
    /// The assertion that the queue `name` exists.
    pub fn new(name: &str) -> (item: Self)
        ensures
            item@ == name@,
    {
        QueuePassive(String::from_str(name))
    }
}

impl Clone for QueuePassive {
    fn clone(&self) -> (copy: Self)
        ensures
            copy@ == self@,
    {
        QueuePassive(self.0.clone())
    }
}

impl Topology for QueuePassive {
    open spec fn description(&self) -> Seq<char> {
        "queue("@ + self@ + ", passive)"@
    }

    open spec fn plan(&self) -> Seq<CommandView> {
        seq![
            CommandView::QueueDeclare {
                queue: self@,
                options: passive_queue_options(),
                arguments: no_entries(),
            },
        ]
    }

    fn name(&self) -> (text: String) {
        let mut text = String::from_str("queue(");
        text.append(self.0.as_str());
        text.append(", passive)");
        text
    }

    proof fn plan_is_bounded(&self) {
    }

    fn command(&self, step: usize) -> (command: Option<Command>) {
        if step == 0 {
            Some(
                Command::QueueDeclare {
                    queue: self.0.clone(),
                    options: QueueOptions {
                        passive: true,
                        durable: false,
                        exclusive: false,
                        auto_delete: false,
                    },
                    arguments: table_new(),
                },
            )
        } else {
            None
        }
    }
}

/// A queue to declare, with the rules that bind it to its sources.
#[derive(Debug)]
pub struct Queue {
    name: String,
    durable: bool,
    exclusive: bool,
    auto_delete: bool,
    message_ttl: Option<Duration>,
    expires: Option<Duration>,
    max_priority: Option<u8>,
    max_length: Option<i64>,
    dead_letter_exchange: Option<String>,
    dead_letter_routing_key: Option<String>,
    bindings: Vec<Binding<Queue>>,
}

/// Mathematical value of a [`Queue`]. Time spans stand by their whole
/// milliseconds.
pub struct QueueView {
    pub name: Seq<char>,
    pub durable: bool,
    pub exclusive: bool,
    pub auto_delete: bool,
    pub message_ttl: Option<nat>,
    pub expires: Option<nat>,
    pub max_priority: Option<u8>,
    pub max_length: Option<i64>,
    pub dead_letter_exchange: Option<Seq<char>>,
    pub dead_letter_routing_key: Option<Seq<char>>,
    pub bindings: Seq<BindingView>,
}

/// `entries` with a time span of `millis` milliseconds under `key`, where a
/// span is given and its milliseconds fit the protocol's signed 64-bit
/// integer; `entries` unchanged otherwise.
pub open spec fn with_span(entries: Entries, key: Seq<char>, millis: Option<nat>) -> Entries {
    match millis {
        Some(ms) => if ms <= i64::MAX {
            entries.insert(key, ArgumentView::LongLongInt(ms as i64))
        } else {
            entries
        },
        None => entries,
    }
}

/// `entries` with the dead-letter settings of the queue. They are written
/// only where a dead-letter exchange is set; a dead-letter routing key then
/// goes under the very key of the exchange and takes its place.
pub open spec fn with_dead_letter(
    entries: Entries,
    exchange: Option<Seq<char>>,
    routing_key: Option<Seq<char>>,
) -> Entries {
    match exchange {
        Some(dlx) => entries.insert(
            "x-dead-letter-exchange"@,
            ArgumentView::ShortString(
                match routing_key {
                    Some(key) => key,
                    None => dlx,
                },
            ),
        ),
        None => entries,
    }
}

impl QueueView {
    /// A durable queue of that name with nothing else set.
    pub open spec fn plain(name: Seq<char>) -> QueueView {
        QueueView {
            name,
            durable: true,
            exclusive: false,
            auto_delete: false,
            message_ttl: None,
            expires: None,
            max_priority: None,
            max_length: None,
            dead_letter_exchange: None,
            dead_letter_routing_key: None,
            bindings: Seq::empty(),
        }
    }

    /// Every rule of the queue leads to the queue itself.
    pub open spec fn well_formed(self) -> bool {
        forall|i: int| 0 <= i < self.bindings.len() ==> (#[trigger] self.bindings[i]).target == self.name
    }

    /// The flags that the declaration carries.
    pub open spec fn options(self) -> QueueOptions {
        QueueOptions {
            passive: false,
            durable: self.durable,
            exclusive: self.exclusive,
            auto_delete: self.auto_delete,
        }
    }

    /// The arguments that the declaration carries.
    pub open spec fn declare_arguments(self) -> Entries {
        let timed = with_span(
            with_span(no_entries(), "x-message-ttl"@, self.message_ttl),
            "x-expires"@,
            self.expires,
        );
        let prioritized = match self.max_priority {
            Some(priority) => timed.insert("x-max-priority"@, ArgumentView::ShortShortUInt(priority)),
            None => timed,
        };
        let limited = match self.max_length {
            Some(length) => prioritized.insert(
                "x-max-length-bytes"@,
                ArgumentView::LongLongInt(length),
            ),
            None => prioritized,
        };
        with_dead_letter(limited, self.dead_letter_exchange, self.dead_letter_routing_key)
    }

    /// The declaration of the queue.
    pub open spec fn declaration(self) -> CommandView {
        CommandView::QueueDeclare {
            queue: self.name,
            options: self.options(),
            arguments: self.declare_arguments(),
        }
    }

    /// The description of the queue.
    pub open spec fn text(self) -> Seq<char> {
        "queue("@ + self.name + (if self.durable {
            ", durable"@
        } else {
            Seq::empty()
        }) + ")"@
    }

    /// The queue with one more rule, which is made to lead to the queue.
    pub open spec fn with_binding(self, made: BindingView) -> QueueView {
        QueueView { bindings: self.bindings.push(BindingView { target: self.name, ..made }), ..self }
    }
}

/// The milliseconds of an optional span.
pub open spec fn span_millis(span: Option<Duration>) -> Option<nat> {
    match span {
        Some(d) => Some(whole_millis(d)),
        None => None,
    }
}

/// The text of an optional string.
pub open spec fn text_of(text: Option<String>) -> Option<Seq<char>> {
    match text {
        Some(t) => Some(t@),
        None => None,
    }
}

/// The rule that `add_binding` hands to its closure: from `source` to the
/// item `target`, nothing else set.
pub open spec fn fresh_rule(source: Seq<char>, target: Seq<char>) -> BindingView {
    BindingView { source, target, routing_key: None, arguments: None }
}

impl View for Queue {
    type V = QueueView;

    closed spec fn view(&self) -> QueueView {
        QueueView {
            name: self.name@,
            durable: self.durable,
            exclusive: self.exclusive,
            auto_delete: self.auto_delete,
            message_ttl: span_millis(self.message_ttl),
            expires: span_millis(self.expires),
            max_priority: self.max_priority,
            max_length: self.max_length,
            dead_letter_exchange: text_of(self.dead_letter_exchange),
            dead_letter_routing_key: text_of(self.dead_letter_routing_key),
            bindings: self.bindings@.map_values(|b: Binding<Queue>| b@),
        }
    }
}

impl CanBound for Queue {
    open spec fn bound_text() -> Seq<char> {
        "queue"@
    }

    fn bound_type() -> (word: &'static str) {
        "queue"
    }
}

impl Queue {
    #[verifier::type_invariant]
    spec fn rules_lead_here(self) -> bool {
        self@.well_formed()
    }

    /// A durable queue of that name, with nothing else set.
    pub fn new(name: &str) -> (queue: Self)
        ensures
            queue@ == QueueView::plain(name@),
    {
        let queue = Queue {
            name: String::from_str(name),
            durable: true,
            exclusive: false,
            auto_delete: false,
            message_ttl: None,
            expires: None,
            max_priority: None,
            max_length: None,
            dead_letter_exchange: None,
            dead_letter_routing_key: None,
            bindings: Vec::new(),
        };
        assert(queue@.bindings =~= Seq::empty());
        queue
    }

    /// Makes the queue transient.
    pub fn non_durable(self) -> (queue: Self)
        ensures
            queue@ == (QueueView { durable: false, ..self@ }),
    {
        proof {
            use_type_invariant(&self);
        }
        let mut queue = self;
        queue.durable = false;
        queue
    }

    /// Makes the queue exclusive to its connection.
    pub fn exclusive(self) -> (queue: Self)
        ensures
            queue@ == (QueueView { exclusive: true, ..self@ }),
    {
        proof {
            use_type_invariant(&self);
        }
        let mut queue = self;
        queue.exclusive = true;
        queue
    }

    /// Lets the broker delete the queue when its last consumer leaves.
    pub fn auto_delete(self) -> (queue: Self)
        ensures
            queue@ == (QueueView { auto_delete: true, ..self@ }),
    {
        proof {
            use_type_invariant(&self);
        }
        let mut queue = self;
        queue.auto_delete = true;
        queue
    }

    /// Sets how long a message may stay in the queue.
    pub fn message_ttl(self, message_ttl: Duration) -> (queue: Self)
        ensures
            queue@ == (QueueView { message_ttl: Some(whole_millis(message_ttl)), ..self@ }),
    {
        proof {
            use_type_invariant(&self);
        }
        let mut queue = self;
        queue.message_ttl = Some(message_ttl);
        queue
    }

    /// Sets how long the queue may stay unused before the broker deletes it.
    pub fn expires(self, expires: Duration) -> (queue: Self)
        ensures
            queue@ == (QueueView { expires: Some(whole_millis(expires)), ..self@ }),
    {
        proof {
            use_type_invariant(&self);
        }
        let mut queue = self;
        queue.expires = Some(expires);
        queue
    }

    /// Sets the highest message priority that the queue supports.
    pub fn max_priority(self, max_priority: u8) -> (queue: Self)
        ensures
            queue@ == (QueueView { max_priority: Some(max_priority), ..self@ }),
    {
        proof {
            use_type_invariant(&self);
        }
        let mut queue = self;
        queue.max_priority = Some(max_priority);
        queue
    }

    /// Sets the size limit of the queue.
    pub fn max_length(self, max_length: i64) -> (queue: Self)
        ensures
            queue@ == (QueueView { max_length: Some(max_length), ..self@ }),
    {
        proof {
            use_type_invariant(&self);
        }
        let mut queue = self;
        queue.max_length = Some(max_length);
        queue
    }

    /// Sets the exchange that dead letters go to.
    pub fn dead_letter_exchange(self, dead_letter_exchange: &str) -> (queue: Self)
        ensures
            queue@ == (QueueView { dead_letter_exchange: Some(dead_letter_exchange@), ..self@ }),
    {
        proof {
            use_type_invariant(&self);
        }
        let mut queue = self;
        queue.dead_letter_exchange = Some(String::from_str(dead_letter_exchange));
        queue
    }

    /// Sets the routing key that dead letters carry.
    pub fn dead_letter_routing_key(self, dead_letter_routing_key: &str) -> (queue: Self)
        ensures
            queue@ == (QueueView { dead_letter_routing_key: Some(dead_letter_routing_key@), ..self@ }),
    {
        proof {
            use_type_invariant(&self);
        }
        let mut queue = self;
        queue.dead_letter_routing_key = Some(String::from_str(dead_letter_routing_key));
        queue
    }

    /// Adds a rule that binds the queue to the exchange `source`. The
    /// closure receives the plain rule and returns it with what it wants
    /// set; whatever it returns is made to lead to this queue.
    pub fn add_binding<F>(self, source: &str, f: F) -> (queue: Self) where
        F: FnOnce(Binding<Queue>) -> Binding<Queue>,

        requires
            forall|fresh: Binding<Queue>|
                fresh@ == fresh_rule(source@, self@.name) ==> f.requires((fresh,)),
        ensures
            exists|fresh: Binding<Queue>, made: Binding<Queue>|
                fresh@ == fresh_rule(source@, self@.name) && #[trigger] f.ensures((fresh,), made)
                    && queue@ == self@.with_binding(made@),
    {
        proof {
            use_type_invariant(&self);
        }
        let fresh = Binding::<Queue>::new(source, self.name.as_str());
        let made = f(fresh);
        let rule = made.aimed_at(self.name.as_str());
        let ghost before = self@;
        let mut rules = self.bindings;
        rules.push(rule);
        let ghost views = rules@.map_values(|b: Binding<Queue>| b@);
        assert forall|i: int| 0 <= i < views.len() implies (#[trigger] views[i]).target
            == self.name@ by {
            if i < before.bindings.len() {
                assert(views[i] == before.bindings[i]);
            }
        }
        let queue = Queue {
            name: self.name,
            durable: self.durable,
            exclusive: self.exclusive,
            auto_delete: self.auto_delete,
            message_ttl: self.message_ttl,
            expires: self.expires,
            max_priority: self.max_priority,
            max_length: self.max_length,
            dead_letter_exchange: self.dead_letter_exchange,
            dead_letter_routing_key: self.dead_letter_routing_key,
            bindings: rules,
        };
        assert(queue@.bindings =~= before.with_binding(made@).bindings);
        queue
    }

    /// The rules that bind the queue, in the order in which they were added.
    /// Each of them leads to this queue.
    pub fn bindings(&self) -> (rules: &Vec<Binding<Queue>>)
        ensures
            rules@.map_values(|b: Binding<Queue>| b@) == self@.bindings,
            self@.well_formed(),
    {
        proof {
            use_type_invariant(self);
        }
        &self.bindings
    }

    /// Builds the arguments that the declaration of the queue carries.
    pub fn declare_arguments(&self) -> (table: FieldTable)
        ensures
            table_entries(table) == self@.declare_arguments(),
    {
        let mut arguments = table_new();
        if let Some(ttl) = &self.message_ttl {
            let millis: u128 = millis_of(ttl);
            if millis <= 0x7fff_ffff_ffff_ffff {
                table_insert(&mut arguments, "x-message-ttl", ArgumentValue::LongLongInt(millis as i64));
            }
        }
        if let Some(expires) = &self.expires {
            let millis: u128 = millis_of(expires);
            if millis <= 0x7fff_ffff_ffff_ffff {
                table_insert(&mut arguments, "x-expires", ArgumentValue::LongLongInt(millis as i64));
            }
        }
        if let Some(priority) = self.max_priority {
            table_insert(&mut arguments, "x-max-priority", ArgumentValue::ShortShortUInt(priority));
        }
        if let Some(length) = self.max_length {
            table_insert(&mut arguments, "x-max-length-bytes", ArgumentValue::LongLongInt(length));
        }
        if let Some(dlx) = &self.dead_letter_exchange {
            match &self.dead_letter_routing_key {
                Some(key) => {
                    table_insert(
                        &mut arguments,
                        "x-dead-letter-exchange",
                        ArgumentValue::ShortString(key.clone()),
                    );
                },
                None => {
                    table_insert(
                        &mut arguments,
                        "x-dead-letter-exchange",
                        ArgumentValue::ShortString(dlx.clone()),
                    );
                },
            }
        }
        arguments
    }
}

impl Topology for Queue {
    open spec fn description(&self) -> Seq<char> {
        self@.text()
    }

    /// Applying a queue declares it. Its rules are not applied with it.
    open spec fn plan(&self) -> Seq<CommandView> {
        seq![self@.declaration()]
    }

    fn name(&self) -> (text: String) {
        let mut text = String::from_str("queue(");
        text.append(self.name.as_str());
        if self.durable {
            text.append(", durable");
        }
        text.append(")");
        text
    }

    proof fn plan_is_bounded(&self) {
    }

    fn command(&self, step: usize) -> (command: Option<Command>) {
        if step == 0 {
            Some(
                Command::QueueDeclare {
                    queue: self.name.clone(),
                    options: QueueOptions {
                        passive: false,
                        durable: self.durable,
                        exclusive: self.exclusive,
                        auto_delete: self.auto_delete,
                    },
                    arguments: self.declare_arguments(),
                },
            )
        } else {
            None
        }
    }
}

/// The rules of a queue lead to the queue: a plain queue has no rule, and
/// adding one keeps the queue well formed whatever rule the closure made.
pub proof fn lemma_rules_lead_to_the_queue(queue: QueueView, made: BindingView)
    requires
        queue.well_formed(),
    ensures
        QueueView::plain(queue.name).well_formed(),
        queue.with_binding(made).well_formed(),
{
}

} // verus!
