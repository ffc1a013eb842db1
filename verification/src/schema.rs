//! From a declaration to what the mailbox works with: the state's fields, the
//! closed set of message variants with their priorities, and the handler that
//! each variant is dispatched to.

use crate::declaration::{
    lemma_valid, priority_of_tag, spec_priority_of_tag, stop_name, tag_stop, text_view, ActorDef,
    ActorDefView, DeclarationError, FieldDef, FieldView, MethodDef, MethodView, ParamDef,
    ParamView,
};
use crate::priority::Priority;
use crate::text::{copy_text, same_text};
use vstd::prelude::*;

verus! {

/// One variant of the message set: its name, the types of its payload in
/// order, and its priority.
#[derive(Debug)]
pub struct VariantDef {
    pub name: Vec<u8>,
    pub payload: Vec<Vec<u8>>,
    pub priority: Priority,
}

/// One handler: an operation on the state that can be called directly.
#[derive(Debug)]
pub struct HandlerDef {
    pub name: Vec<u8>,
    /// The arguments after the state, each a name with a type.
    pub params: Vec<FieldDef>,
    /// Whether the body may suspend.
    pub is_async: bool,
    /// The text of the result type, where one is declared.
    pub output: Option<Vec<u8>>,
    /// The text of the body.
    pub body: Vec<u8>,
}

/// What a variant says.
pub struct VariantView {
    pub name: Seq<u8>,
    pub payload: Seq<Seq<u8>>,
    pub priority: Priority,
}

/// What a handler says.
pub struct HandlerView {
    pub name: Seq<u8>,
    pub params: Seq<FieldView>,
    pub is_async: bool,
    pub output: Option<Seq<u8>>,
    pub body: Seq<u8>,
}

/// What a schema says.
pub struct ActorSchemaView {
    /// The name of the state.
    pub actor_name: Seq<u8>,
    /// The fields of the state.
    pub fields: Seq<FieldView>,
    /// The name of the message set.
    pub msg_name: Seq<u8>,
    /// The variants of the message set: one for each operation, in declared
    /// order, and last the one that stops the actor.
    pub variants: Seq<VariantView>,
    /// The handlers: the `i`-th is the one that the `i`-th variant is
    /// dispatched to.
    pub handlers: Seq<HandlerView>,
}

impl View for VariantDef {
    type V = VariantView;

    open spec fn view(&self) -> VariantView {
        VariantView {
            name: self.name@,
            payload: self.payload@.map_values(|t: Vec<u8>| t@),
            priority: self.priority,
        }
    }
}

impl View for HandlerDef {
    type V = HandlerView;

    open spec fn view(&self) -> HandlerView {
        HandlerView {
            name: self.name@,
            params: self.params@.map_values(|p: FieldDef| p@),
            is_async: self.is_async,
            output: text_view(self.output),
            body: self.body@,
        }
    }
}

/// The type of an argument.
pub open spec fn argument_type(p: ParamView) -> Seq<u8> {
    match p {
        ParamView::Typed { ty, .. } => ty,
        _ => Seq::empty(),
    }
}

/// An argument as a name with a type.
pub open spec fn argument(p: ParamView) -> FieldView {
    match p {
        ParamView::Typed { name, ty } => FieldView { name, ty },
        _ => FieldView { name: Seq::empty(), ty: Seq::empty() },
    }
}

/// The variant that stops the actor: named `Stop`, without payload, of the
/// highest priority.
pub open spec fn stop_variant() -> VariantView {
    VariantView { name: tag_stop(), payload: Seq::empty(), priority: Priority::Stop }
}

/// The variant of an operation: its name, the types of its arguments after
/// the state, and the priority that its tag names.
pub open spec fn variant_of(m: MethodView) -> VariantView {
    VariantView {
        name: m.name,
        payload: m.inputs.drop_first().map_values(|p: ParamView| argument_type(p)),
        priority: spec_priority_of_tag(m.priority).unwrap(),
    }
}

/// The handler of an operation: its name, its arguments after the state,
/// whether it suspends, its result type and its body.
pub open spec fn handler_of(m: MethodView) -> HandlerView {
    HandlerView {
        name: m.name,
        params: m.inputs.drop_first().map_values(|p: ParamView| argument(p)),
        is_async: m.is_async,
        output: m.output,
        body: m.body,
    }
}

/// The schema of the actor that `d` declares.
pub open spec fn schema_of(d: ActorDefView) -> ActorSchemaView {
    ActorSchemaView {
        actor_name: d.actor_name,
        fields: d.fields,
        msg_name: d.msg_name,
        variants: d.methods.map_values(|m: MethodView| variant_of(m)).push(stop_variant()),
        handlers: d.methods.map_values(|m: MethodView| handler_of(m)),
    }
}

impl ActorSchemaView {
    /// The position of the variant that stops the actor: the last.
    pub open spec fn stop_index(self) -> int {
        self.variants.len() - 1
    }

    /// What holds of every schema: there is one variant for each handler, with
    /// the handler's name and the types of its arguments, and one more, which
    /// stops the actor; no two variants have the same name.
    pub open spec fn wf(self) -> bool {
        &&& self.variants.len() == self.handlers.len() + 1
        &&& self.variants.last() == stop_variant()
        &&& forall|i: int|
            0 <= i < self.handlers.len() ==> {
                &&& (#[trigger] self.variants[i]).name == self.handlers[i].name
                &&& self.variants[i].payload == self.handlers[i].params.map_values(
                    |p: FieldView| p.ty,
                )
            }
        &&& forall|i: int, j: int|
            0 <= i < j < self.variants.len() ==> (#[trigger] self.variants[i]).name != (
            #[trigger] self.variants[j]).name
    }

    /// Whether `i` is the position of the variant named `name`.
    pub open spec fn names(self, name: Seq<u8>, i: int) -> bool {
        0 <= i < self.variants.len() && self.variants[i].name == name
    }
}

/// The schema of a declaration that is in order is a schema in order: its
/// variants are those of the operations, in declared order and each with the
/// priority that its tag names, followed by the one that stops the actor.
pub proof fn lemma_schema_wf(d: ActorDefView)
    requires
        d.valid(),
    ensures
        schema_of(d).wf(),
        schema_of(d).variants.len() == d.methods.len() + 1,
        forall|i: int|
            0 <= i < d.methods.len() ==> {
                &&& (#[trigger] schema_of(d).variants[i]).name == d.methods[i].name
                &&& Some(schema_of(d).variants[i].priority) == spec_priority_of_tag(
                    d.methods[i].priority,
                )
                &&& schema_of(d).variants[i].payload.len() == d.methods[i].inputs.len() - 1
            },
        forall|i: int|
            0 <= i < schema_of(d).variants.len() ==> (#[trigger] schema_of(d).variants[i]).priority.rank()
                <= schema_of(d).variants[schema_of(d).stop_index()].priority.rank(),
{
    lemma_valid(d);
    let s = schema_of(d);
    assert forall|i: int| 0 <= i < s.handlers.len() implies {
        &&& (#[trigger] s.variants[i]).name == s.handlers[i].name
        &&& s.variants[i].payload == s.handlers[i].params.map_values(|p: FieldView| p.ty)
    } by {
        let m = d.methods[i];
        assert(d.method_fault(i) is None);
        assert(s.variants[i] == variant_of(m));
        assert(s.handlers[i] == handler_of(m));
        assert(s.variants[i].payload =~= s.handlers[i].params.map_values(|p: FieldView| p.ty));
    }
    assert forall|i: int, j: int| 0 <= i < j < s.variants.len() implies (#[trigger] s.variants[i]).name
        != (#[trigger] s.variants[j]).name by {
        assert(d.method_fault(i) is None);
        if j < d.methods.len() {
            assert(d.method_fault(j) is None);
            assert(d.method_is_new(j));
            assert(d.methods[i].name != d.methods[j].name);
        } else {
            assert(d.method_is_new(i));
        }
    }
    assert forall|i: int| 0 <= i < d.methods.len() implies {
        &&& (#[trigger] schema_of(d).variants[i]).name == d.methods[i].name
        &&& Some(schema_of(d).variants[i].priority) == spec_priority_of_tag(d.methods[i].priority)
        &&& schema_of(d).variants[i].payload.len() == d.methods[i].inputs.len() - 1
    } by {
        assert(d.method_fault(i) is None);
    }
}

/// What an actor's declaration comes to.
pub struct ActorSchema {
    actor_name: Vec<u8>,
    fields: Vec<FieldDef>,
    msg_name: Vec<u8>,
    variants: Vec<VariantDef>,
    handlers: Vec<HandlerDef>,
}

impl View for ActorSchema {
    type V = ActorSchemaView;

    closed spec fn view(&self) -> ActorSchemaView {
        ActorSchemaView {
            actor_name: self.actor_name@,
            fields: self.fields@.map_values(|f: FieldDef| f@),
            msg_name: self.msg_name@,
            variants: self.variants@.map_values(|v: VariantDef| v@),
            handlers: self.handlers@.map_values(|h: HandlerDef| h@),
        }
    }
}

/// A copy of a field.
fn copy_field(f: &FieldDef) -> (r: FieldDef)
    ensures
        r@ == f@,
{
    FieldDef { name: copy_text(f.name.as_slice()), ty: copy_text(f.ty.as_slice()) }
}

/// A copy of an optional piece of text.
fn copy_optional(text: &Option<Vec<u8>>) -> (r: Option<Vec<u8>>)
    ensures
        text_view(r) == text_view(*text),
{
    match text {
        Some(t) => Some(copy_text(t.as_slice())),
        None => None,
    }
}

/// The types of the arguments of an operation, in declared order.
fn payload_of(m: &MethodDef) -> (r: Vec<Vec<u8>>)
    requires
        m@.has_receiver(),
        m@.arguments_ok(),
    ensures
        r@.map_values(|t: Vec<u8>| t@) == variant_of(m@).payload,
{
    let n: usize = m.inputs.len();
    let mut r: Vec<Vec<u8>> = Vec::new();
    let mut k: usize = 1;
    while k < n
        invariant
            n == m.inputs@.len(),
            m@.arguments_ok(),
            1 <= k <= n,
            r@.len() == k - 1,
            forall|j: int| 0 <= j < r@.len() ==> (#[trigger] r@[j])@ == argument_type(m@.inputs[j + 1]),
        decreases n - k,
    {
        assert(m@.inputs[k as int].is_argument());
        match &m.inputs[k] {
            ParamDef::Typed { ty, .. } => {
                r.push(copy_text(ty.as_slice()));
            },
            ParamDef::Receiver { .. } => {
                assert(false);
            },
        }
        k = k + 1;
    }
    assert(r@.map_values(|t: Vec<u8>| t@) =~= variant_of(m@).payload);
    r
}

/// The arguments of an operation, in declared order.
fn params_of(m: &MethodDef) -> (r: Vec<FieldDef>)
    requires
        m@.has_receiver(),
        m@.arguments_ok(),
    ensures
        r@.map_values(|p: FieldDef| p@) == handler_of(m@).params,
{
    let n: usize = m.inputs.len();
    let mut r: Vec<FieldDef> = Vec::new();
    let mut k: usize = 1;
    while k < n
        invariant
            n == m.inputs@.len(),
            m@.arguments_ok(),
            1 <= k <= n,
            r@.len() == k - 1,
            forall|j: int| 0 <= j < r@.len() ==> (#[trigger] r@[j])@ == argument(m@.inputs[j + 1]),
        decreases n - k,
    {
        assert(m@.inputs[k as int].is_argument());
        match &m.inputs[k] {
            ParamDef::Typed { name, ty } => {
                r.push(FieldDef { name: copy_text(name.as_slice()), ty: copy_text(ty.as_slice()) });
            },
            ParamDef::Receiver { .. } => {
                assert(false);
            },
        }
        k = k + 1;
    }
    assert(r@.map_values(|p: FieldDef| p@) =~= handler_of(m@).params);
    r
}

/// Builds the schema of the actor that `def` declares: the state's fields as
/// declared; one message variant for each operation, in declared order, with
/// the types of the operation's arguments as payload and the priority that
/// its tag names; one more variant, `Stop`, last, without payload and of the
/// highest priority; and for each operation its handler. A declaration that
/// is not in order is refused, with the reason.
pub fn define_actor(def: &ActorDef) -> (r: Result<ActorSchema, DeclarationError>)
    ensures
        match r {
            Ok(schema) => def@.valid() && schema@ == schema_of(def@) && schema@.wf(),
            Err(e) => def@.fault() == Some(e),
        },
{
    match def.validate() {
        Err(e) => {
            return Err(e);
        },
        Ok(_) => {},
    }
    proof {
        lemma_valid(def@);
        lemma_schema_wf(def@);
    }
    let mut fields: Vec<FieldDef> = Vec::new();
    let mut i: usize = 0;
    while i < def.fields.len()
        invariant
            i <= def.fields@.len(),
            fields@.len() == i,
            forall|j: int| 0 <= j < i ==> (#[trigger] fields@[j])@ == def@.fields[j],
        decreases def.fields@.len() - i,
    {
        fields.push(copy_field(&def.fields[i]));
        i = i + 1;
    }
    let mut variants: Vec<VariantDef> = Vec::new();
    let mut handlers: Vec<HandlerDef> = Vec::new();
    let mut k: usize = 0;
    while k < def.methods.len()
        invariant
            k <= def.methods@.len(),
            forall|j: int| 0 <= j < def.methods@.len() ==> def@.method_fault(j) is None,
            variants@.len() == k,
            handlers@.len() == k,
            forall|j: int| 0 <= j < k ==> (#[trigger] variants@[j])@ == variant_of(def@.methods[j]),
            forall|j: int| 0 <= j < k ==> (#[trigger] handlers@[j])@ == handler_of(def@.methods[j]),
        decreases def.methods@.len() - k,
    {
        let m = &def.methods[k];
        assert(m@ == def@.methods[k as int]);
        assert(def@.method_fault(k as int) is None);
        let priority = match priority_of_tag(m.priority.as_slice()) {
            Some(p) => p,
            None => {
                assert(false);
                Priority::Medium
            },
        };
        variants.push(
            VariantDef { name: copy_text(m.name.as_slice()), payload: payload_of(m), priority },
        );
        handlers.push(
            HandlerDef {
                name: copy_text(m.name.as_slice()),
                params: params_of(m),
                is_async: m.is_async,
                output: copy_optional(&m.output),
                body: copy_text(m.body.as_slice()),
            },
        );
        k = k + 1;
    }
    variants.push(VariantDef { name: stop_name(), payload: Vec::new(), priority: Priority::Stop });
    let actor_name = copy_text(def.actor_name.as_slice());
    let msg_name = copy_text(def.msg_name.as_slice());
    proof {
        let t = schema_of(def@);
        assert(fields@.map_values(|f: FieldDef| f@) =~= t.fields);
        assert(variants@.last()@.payload =~= stop_variant().payload);
        assert(variants@.map_values(|v: VariantDef| v@) =~= t.variants);
        assert(handlers@.map_values(|h: HandlerDef| h@) =~= t.handlers);
    }
    Ok(ActorSchema { actor_name, fields, msg_name, variants, handlers })
}

impl ActorSchema {
    #[verifier::type_invariant]
    pub open spec fn inv(self) -> bool {
        self@.wf()
    }

    /// The name of the state.
    pub fn actor_name(&self) -> (r: &Vec<u8>)
        ensures
            r@ == self@.actor_name,
    {
        &self.actor_name
    }

    /// The name of the message set.
    pub fn msg_name(&self) -> (r: &Vec<u8>)
        ensures
            r@ == self@.msg_name,
    {
        &self.msg_name
    }

    /// The fields of the state, each of them public.
    pub fn fields(&self) -> (r: &Vec<FieldDef>)
        ensures
            r@.map_values(|f: FieldDef| f@) == self@.fields,
    {
        &self.fields
    }

    /// The variants of the message set.
    pub fn variants(&self) -> (r: &Vec<VariantDef>)
        ensures
            r@.map_values(|v: VariantDef| v@) == self@.variants,
    {
        &self.variants
    }

    /// The handlers.
    pub fn handlers(&self) -> (r: &Vec<HandlerDef>)
        ensures
            r@.map_values(|h: HandlerDef| h@) == self@.handlers,
    {
        &self.handlers
    }

    /// The number of variants of the message set.
    pub fn variant_count(&self) -> (n: usize)
        ensures
            n == self@.variants.len(),
    {
        self.variants.len()
    }

    /// The priority of the variant at `variant`, if there is one.
    pub fn priority_of(&self, variant: usize) -> (r: Option<Priority>)
        ensures
            variant < self@.variants.len() ==> r == Some(self@.variants[variant as int].priority),
            variant >= self@.variants.len() ==> r is None,
    {
        if variant < self.variants.len() {
            Some(self.variants[variant].priority)
        } else {
            None
        }
    }

    /// The position of the variant named `name`, if there is one.
    pub fn find_variant(&self, name: &[u8]) -> (r: Option<usize>)
        ensures
            match r {
                Some(i) => self@.names(name@, i as int) && forall|j: int|
                    0 <= j < i ==> !self@.names(name@, j),
                None => forall|j: int| !self@.names(name@, j),
            },
    {
        let mut i: usize = 0;
        while i < self.variants.len()
            invariant
                i <= self.variants@.len(),
                forall|j: int| 0 <= j < i ==> !self@.names(name@, j),
            decreases self.variants@.len() - i,
        {
            if same_text(self.variants[i].name.as_slice(), name) {
                assert(self@.variants[i as int] == self.variants@[i as int]@);
                return Some(i);
            }
            assert(self@.variants[i as int] == self.variants@[i as int]@);
            i = i + 1;
        }
        None
    }

    /// The position of the handler that the variant at `variant` is
    /// dispatched to: its own position. The variant that stops the actor has
    /// none, and neither has a position beyond the variants.
    pub fn handler_for(&self, variant: usize) -> (r: Option<usize>)
        ensures
            variant < self@.handlers.len() ==> r == Some(variant),
            variant >= self@.handlers.len() ==> r is None,
    {
        if variant < self.handlers.len() {
            Some(variant)
        } else {
            None
        }
    }
}

} // verus!
