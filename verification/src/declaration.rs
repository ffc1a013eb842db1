//! The declaration of an actor: its state, the name of its message set, and
//! its operations, each with a priority tag, a parameter list and a body.
//!
//! A declaration is plain data. Whether it is one that an actor can be built
//! from is decided here, before any actor exists.

use crate::priority::Priority;
use crate::text::{is_identifier, same_text, spec_is_identifier};
use vstd::prelude::*;

verus! {

/// One field of the state: a name and the text of its type.
#[derive(Debug)]
pub struct FieldDef {
    pub name: Vec<u8>,
    pub ty: Vec<u8>,
}

/// One parameter of an operation.
#[derive(Debug)]
pub enum ParamDef {
    /// The state itself: `self`, by reference or not, mutable or not.
    Receiver { reference: bool, mutable: bool },
    /// An argument: a name and the text of its type.
    Typed { name: Vec<u8>, ty: Vec<u8> },
}

/// One operation: its priority tag, its signature and its body.
#[derive(Debug)]
pub struct MethodDef {
    /// The tag that names the priority of the operation's messages.
    pub priority: Vec<u8>,
    /// The name of the operation, and of its message.
    pub name: Vec<u8>,
    /// Whether the body may suspend.
    pub is_async: bool,
    /// The parameters as written, the receiver among them.
    pub inputs: Vec<ParamDef>,
    /// The text of the result type, where one is declared.
    pub output: Option<Vec<u8>>,
    /// The text of the body.
    pub body: Vec<u8>,
}

/// The declaration of an actor.
#[derive(Debug)]
pub struct ActorDef {
    /// The name of the state.
    pub actor_name: Vec<u8>,
    /// The fields of the state.
    pub fields: Vec<FieldDef>,
    /// The name of the message set.
    pub msg_name: Vec<u8>,
    /// The operations, in declared order.
    pub methods: Vec<MethodDef>,
}

/// Why a declaration was refused. A number is the position of the field or
/// operation at fault.
#[derive(Debug, Clone, Copy, PartialEq, Eq, Structural)]
pub enum DeclarationError {
    /// The tokens are not those of a written declaration.
    Malformed,
    /// The name of the state or of the message set is not an identifier, or
    /// the two are the same.
    InvalidName,
    /// The field has no identifier for a name, has no type, or repeats the
    /// name of an earlier field.
    InvalidField(usize),
    /// The operation has no identifier for a name, or one of its arguments
    /// is not a name with a type.
    InvalidOperation(usize),
    /// The operation's priority tag names no priority level.
    UnknownPriority(usize),
    /// The operation's first parameter is not the state, mutably borrowed.
    MissingReceiver(usize),
    /// The operation's name is that of an earlier operation or of the
    /// message that stops the actor.
    DuplicateOperation(usize),
}

/// What a field declares.
pub struct FieldView {
    pub name: Seq<u8>,
    pub ty: Seq<u8>,
}

/// What a parameter declares.
pub enum ParamView {
    Receiver { reference: bool, mutable: bool },
    Typed { name: Seq<u8>, ty: Seq<u8> },
}

/// What an operation declares.
pub struct MethodView {
    pub priority: Seq<u8>,
    pub name: Seq<u8>,
    pub is_async: bool,
    pub inputs: Seq<ParamView>,
    pub output: Option<Seq<u8>>,
    pub body: Seq<u8>,
}

/// What an actor's declaration says.
pub struct ActorDefView {
    pub actor_name: Seq<u8>,
    pub fields: Seq<FieldView>,
    pub msg_name: Seq<u8>,
    pub methods: Seq<MethodView>,
}

impl View for FieldDef {
    type V = FieldView;

    open spec fn view(&self) -> FieldView {
        FieldView { name: self.name@, ty: self.ty@ }
    }
}

impl View for ParamDef {
    type V = ParamView;

    open spec fn view(&self) -> ParamView {
        match *self {
            ParamDef::Receiver { reference, mutable } => ParamView::Receiver { reference, mutable },
            ParamDef::Typed { name, ty } => ParamView::Typed { name: name@, ty: ty@ },
        }
    }
}

/// What an optional piece of text holds.
pub open spec fn text_view(text: Option<Vec<u8>>) -> Option<Seq<u8>> {
    match text {
        Some(t) => Some(t@),
        None => None,
    }
}

impl View for MethodDef {
    type V = MethodView;

    open spec fn view(&self) -> MethodView {
        MethodView {
            priority: self.priority@,
            name: self.name@,
            is_async: self.is_async,
            inputs: self.inputs@.map_values(|p: ParamDef| p@),
            output: text_view(self.output),
            body: self.body@,
        }
    }
}

impl View for ActorDef {
    type V = ActorDefView;

    open spec fn view(&self) -> ActorDefView {
        ActorDefView {
            actor_name: self.actor_name@,
            fields: self.fields@.map_values(|f: FieldDef| f@),
            msg_name: self.msg_name@,
            methods: self.methods@.map_values(|m: MethodDef| m@),
        }
    }
}

/// The tag of the lowest priority: `Low`.
pub open spec fn tag_low() -> Seq<u8> {
    seq!['L' as u8, 'o' as u8, 'w' as u8]
}

/// The tag of the middle priority: `Medium`.
pub open spec fn tag_medium() -> Seq<u8> {
    seq!['M' as u8, 'e' as u8, 'd' as u8, 'i' as u8, 'u' as u8, 'm' as u8]
}

/// The tag of the highest priority of ordinary work: `High`.
pub open spec fn tag_high() -> Seq<u8> {
    seq!['H' as u8, 'i' as u8, 'g' as u8, 'h' as u8]
}

/// The tag of the priority above all others, and the name of the message
/// that stops the actor: `Stop`.
pub open spec fn tag_stop() -> Seq<u8> {
    seq!['S' as u8, 't' as u8, 'o' as u8, 'p' as u8]
}

/// The priority level that `tag` names, if it names one.
pub open spec fn spec_priority_of_tag(tag: Seq<u8>) -> Option<Priority> {
    if tag == tag_low() {
        Some(Priority::Low)
    } else if tag == tag_medium() {
        Some(Priority::Medium)
    } else if tag == tag_high() {
        Some(Priority::High)
    } else if tag == tag_stop() {
        Some(Priority::Stop)
    } else {
        None
    }
}

/// The text `Stop`.
pub fn stop_name() -> (v: Vec<u8>)
    ensures
        v@ == tag_stop(),
{
    let v = vec!['S' as u8, 't' as u8, 'o' as u8, 'p' as u8];
    assert(v@ =~= tag_stop());
    v
}

/// The tag that names `priority`.
pub fn tag_of_priority(priority: Priority) -> (v: Vec<u8>)
    ensures
        spec_priority_of_tag(v@) == Some(priority),
        v@ == match priority {
            Priority::Low => tag_low(),
            Priority::Medium => tag_medium(),
            Priority::High => tag_high(),
            Priority::Stop => tag_stop(),
        },
{
    match priority {
        Priority::Low => {
            let v = vec!['L' as u8, 'o' as u8, 'w' as u8];
            assert(v@ =~= tag_low());
            v
        },
        Priority::Medium => {
            let v = vec!['M' as u8, 'e' as u8, 'd' as u8, 'i' as u8, 'u' as u8, 'm' as u8];
            assert(v@ =~= tag_medium());
            assert(v@.len() != tag_low().len());
            v
        },
        Priority::High => {
            let v = vec!['H' as u8, 'i' as u8, 'g' as u8, 'h' as u8];
            assert(v@ =~= tag_high());
            assert(v@.len() != tag_low().len());
            assert(v@.len() != tag_medium().len());
            v
        },
        Priority::Stop => {
            let v = stop_name();
            assert(v@.len() != tag_low().len());
            assert(v@.len() != tag_medium().len());
            assert(v@[0] != tag_high()[0]);
            v
        },
    }
}

/// The priority level that `tag` names, if it names one: `Low`, `Medium`,
/// `High` or `Stop`, written exactly so.
pub fn priority_of_tag(tag: &[u8]) -> (r: Option<Priority>)
    ensures
        r == spec_priority_of_tag(tag@),
{
    if same_text(tag, tag_of_priority(Priority::Low).as_slice()) {
        Some(Priority::Low)
    } else if same_text(tag, tag_of_priority(Priority::Medium).as_slice()) {
        Some(Priority::Medium)
    } else if same_text(tag, tag_of_priority(Priority::High).as_slice()) {
        Some(Priority::High)
    } else if same_text(tag, tag_of_priority(Priority::Stop).as_slice()) {
        Some(Priority::Stop)
    } else {
        None
    }
}

impl ParamView {
    /// Whether this is the state, mutably borrowed: `&mut self`.
    pub open spec fn is_state(self) -> bool {
        self == (ParamView::Receiver { reference: true, mutable: true })
    }

    /// Whether this is an argument: an identifier with a type.
    pub open spec fn is_argument(self) -> bool {
        match self {
            ParamView::Typed { name, ty } => spec_is_identifier(name) && ty.len() > 0,
            _ => false,
        }
    }
}

impl MethodView {
    /// Whether the first parameter is the state, mutably borrowed.
    pub open spec fn has_receiver(self) -> bool {
        self.inputs.len() > 0 && self.inputs[0].is_state()
    }

    /// Whether every parameter after the first is an argument.
    pub open spec fn arguments_ok(self) -> bool {
        forall|k: int| 1 <= k < self.inputs.len() ==> (#[trigger] self.inputs[k]).is_argument()
    }
}

impl ActorDefView {
    /// Whether the state and the message set have names, and different ones.
    pub open spec fn names_ok(self) -> bool {
        &&& spec_is_identifier(self.actor_name)
        &&& spec_is_identifier(self.msg_name)
        &&& self.actor_name != self.msg_name
    }

    /// Whether no field before the `i`-th has its name.
    pub open spec fn field_is_new(self, i: int) -> bool {
        forall|j: int| 0 <= j < i ==> (#[trigger] self.fields[j]).name != self.fields[i].name
    }

    /// Whether the `i`-th field is in order.
    pub open spec fn field_ok(self, i: int) -> bool {
        &&& spec_is_identifier(self.fields[i].name)
        &&& self.fields[i].ty.len() > 0
        &&& self.field_is_new(i)
    }

    /// Whether the `i`-th field is the first that is not in order.
    pub open spec fn first_bad_field(self, i: int) -> bool {
        &&& 0 <= i < self.fields.len()
        &&& !self.field_ok(i)
        &&& forall|j: int| 0 <= j < i ==> self.field_ok(j)
    }

    /// Whether no operation before the `i`-th has its name, and the message
    /// that stops the actor has not either.
    pub open spec fn method_is_new(self, i: int) -> bool {
        &&& self.methods[i].name != tag_stop()
        &&& forall|j: int| 0 <= j < i ==> (#[trigger] self.methods[j]).name != self.methods[i].name
    }

    /// What is wrong with the `i`-th operation, if anything: the first of its
    /// name, its priority tag, its receiver, its arguments, and the newness of
    /// its name that is not in order.
    pub open spec fn method_fault(self, i: int) -> Option<DeclarationError> {
        let m = self.methods[i];
        if !spec_is_identifier(m.name) {
            Some(DeclarationError::InvalidOperation(i as usize))
        } else if spec_priority_of_tag(m.priority) is None {
            Some(DeclarationError::UnknownPriority(i as usize))
        } else if !m.has_receiver() {
            Some(DeclarationError::MissingReceiver(i as usize))
        } else if !m.arguments_ok() {
            Some(DeclarationError::InvalidOperation(i as usize))
        } else if !self.method_is_new(i) {
            Some(DeclarationError::DuplicateOperation(i as usize))
        } else {
            None
        }
    }

    /// Whether the `i`-th operation is the first that is not in order.
    pub open spec fn first_bad_method(self, i: int) -> bool {
        &&& 0 <= i < self.methods.len()
        &&& self.method_fault(i) is Some
        &&& forall|j: int| 0 <= j < i ==> self.method_fault(j) is None
    }

    /// Why the declaration is refused, if it is: for its names; else for its
    /// first field that is not in order; else for its first operation that is
    /// not.
    pub open spec fn fault(self) -> Option<DeclarationError> {
        if !self.names_ok() {
            Some(DeclarationError::InvalidName)
        } else if exists|i: int| self.first_bad_field(i) {
            Some(DeclarationError::InvalidField((choose|i: int| self.first_bad_field(i)) as usize))
        } else if exists|i: int| self.first_bad_method(i) {
            self.method_fault(choose|i: int| self.first_bad_method(i))
        } else {
            None
        }
    }

    /// Whether an actor can be built from the declaration.
    pub open spec fn valid(self) -> bool {
        self.fault() is None
    }
}

/// A declaration has at most one first field that is not in order.
pub proof fn lemma_first_bad_field_unique(d: ActorDefView, i: int, j: int)
    requires
        d.first_bad_field(i),
        d.first_bad_field(j),
    ensures
        i == j,
{
    if i < j {
        assert(d.field_ok(i));
    } else if j < i {
        assert(d.field_ok(j));
    }
}

/// A declaration has at most one first operation that is not in order.
pub proof fn lemma_first_bad_method_unique(d: ActorDefView, i: int, j: int)
    requires
        d.first_bad_method(i),
        d.first_bad_method(j),
    ensures
        i == j,
{
    if i < j {
        assert(d.method_fault(i) is None);
    } else if j < i {
        assert(d.method_fault(j) is None);
    }
}

/// Where every field is in order, none is the first that is not.
proof fn lemma_no_bad_field(d: ActorDefView)
    requires
        forall|j: int| 0 <= j < d.fields.len() ==> d.field_ok(j),
    ensures
        !exists|i: int| d.first_bad_field(i),
{
}

/// A declaration from which an actor can be built is in order in every part.
pub proof fn lemma_valid(d: ActorDefView)
    requires
        d.valid(),
    ensures
        d.names_ok(),
        forall|i: int| 0 <= i < d.fields.len() ==> d.field_ok(i),
        forall|i: int| 0 <= i < d.methods.len() ==> d.method_fault(i) is None,
{
    assert forall|i: int| 0 <= i < d.fields.len() implies d.field_ok(i) by {
        lemma_fields_upto(d, i);
    }
    assert forall|i: int| 0 <= i < d.methods.len() implies d.method_fault(i) is None by {
        lemma_methods_upto(d, i);
    }
}

/// Without a first field that is not in order, every field is in order.
proof fn lemma_fields_upto(d: ActorDefView, i: int)
    requires
        !exists|k: int| d.first_bad_field(k),
        0 <= i < d.fields.len(),
    ensures
        d.field_ok(i),
    decreases i,
{
    assert forall|j: int| 0 <= j < i implies d.field_ok(j) by {
        lemma_fields_upto(d, j);
    }
    if !d.field_ok(i) {
        assert(d.first_bad_field(i));
    }
}

/// Without a first operation that is not in order, every operation is in order.
proof fn lemma_methods_upto(d: ActorDefView, i: int)
    requires
        !exists|k: int| d.first_bad_method(k),
        0 <= i < d.methods.len(),
    ensures
        d.method_fault(i) is None,
    decreases i,
{
    assert forall|j: int| 0 <= j < i implies d.method_fault(j) is None by {
        lemma_methods_upto(d, j);
    }
    if d.method_fault(i) is Some {
        assert(d.first_bad_method(i));
    }
}

impl ActorDef {
    /// Whether no field before the `i`-th has its name.
    fn field_is_new(&self, i: usize) -> (r: bool)
        requires
            i < self.fields@.len(),
        ensures
            r == self@.field_is_new(i as int),
    {
        let mut j: usize = 0;
        while j < i
            invariant
                j <= i,
                i < self.fields@.len(),
                forall|k: int| 0 <= k < j ==> (#[trigger] self@.fields[k]).name != self@.fields[i as int].name,
            decreases i - j,
        {
            if same_text(self.fields[j].name.as_slice(), self.fields[i].name.as_slice()) {
                assert(self@.fields[j as int].name == self@.fields[i as int].name);
                return false;
            }
            j = j + 1;
        }
        true
    }

    /// Whether the `i`-th field is in order.
    fn field_ok(&self, i: usize) -> (r: bool)
        requires
            i < self.fields@.len(),
        ensures
            r == self@.field_ok(i as int),
    {
        is_identifier(self.fields[i].name.as_slice()) && self.fields[i].ty.len() > 0
            && self.field_is_new(i)
    }

    /// Whether no operation before the `i`-th has its name, nor the message
    /// that stops the actor.
    fn method_is_new(&self, i: usize) -> (r: bool)
        requires
            i < self.methods@.len(),
        ensures
            r == self@.method_is_new(i as int),
    {
        if same_text(self.methods[i].name.as_slice(), stop_name().as_slice()) {
            return false;
        }
        let mut j: usize = 0;
        while j < i
            invariant
                j <= i,
                i < self.methods@.len(),
                self@.methods[i as int].name != tag_stop(),
                forall|k: int| 0 <= k < j ==> (#[trigger] self@.methods[k]).name != self@.methods[i as int].name,
            decreases i - j,
        {
            if same_text(self.methods[j].name.as_slice(), self.methods[i].name.as_slice()) {
                assert(self@.methods[j as int].name == self@.methods[i as int].name);
                return false;
            }
            j = j + 1;
        }
        true
    }

    /// What is wrong with the `i`-th operation, if anything.
    fn method_fault(&self, i: usize) -> (r: Option<DeclarationError>)
        requires
            i < self.methods@.len(),
        ensures
            r == self@.method_fault(i as int),
    {
        let m = &self.methods[i];
        assert(m@ == self@.methods[i as int]);
        if !is_identifier(m.name.as_slice()) {
            Some(DeclarationError::InvalidOperation(i))
        } else if priority_of_tag(m.priority.as_slice()).is_none() {
            Some(DeclarationError::UnknownPriority(i))
        } else if !m.has_receiver() {
            Some(DeclarationError::MissingReceiver(i))
        } else if !m.arguments_ok() {
            Some(DeclarationError::InvalidOperation(i))
        } else if !self.method_is_new(i) {
            Some(DeclarationError::DuplicateOperation(i))
        } else {
            None
        }
    }

    /// Decides whether an actor can be built from the declaration, and says
    /// why not where it cannot.
    pub fn validate(&self) -> (r: Result<(), DeclarationError>)
        ensures
            r == match self@.fault() {
                None => Ok::<(), DeclarationError>(()),
                Some(e) => Err::<(), DeclarationError>(e),
            },
    {
        if !is_identifier(self.actor_name.as_slice()) || !is_identifier(self.msg_name.as_slice())
            || same_text(self.actor_name.as_slice(), self.msg_name.as_slice()) {
            return Err(DeclarationError::InvalidName);
        }
        let mut i: usize = 0;
        while i < self.fields.len()
            invariant
                self@.names_ok(),
                i <= self.fields@.len(),
                forall|j: int| 0 <= j < i ==> self@.field_ok(j),
            decreases self.fields@.len() - i,
        {
            if !self.field_ok(i) {
                proof {
                    assert(self@.first_bad_field(i as int));
                    lemma_first_bad_field_unique(
                        self@,
                        i as int,
                        choose|k: int| self@.first_bad_field(k),
                    );
                }
                return Err(DeclarationError::InvalidField(i));
            }
            i = i + 1;
        }
        proof {
            lemma_no_bad_field(self@);
        }
        let mut k: usize = 0;
        while k < self.methods.len()
            invariant
                self@.names_ok(),
                !exists|i: int| self@.first_bad_field(i),
                k <= self.methods@.len(),
                forall|j: int| 0 <= j < k ==> self@.method_fault(j) is None,
            decreases self.methods@.len() - k,
        {
            let fault = self.method_fault(k);
            if fault.is_some() {
                proof {
                    assert(self@.first_bad_method(k as int));
                    lemma_first_bad_method_unique(
                        self@,
                        k as int,
                        choose|j: int| self@.first_bad_method(j),
                    );
                }
                return Err(fault.unwrap());
            }
            k = k + 1;
        }
        Ok(())
    }
}

impl ParamDef {
    /// Whether this is the state, mutably borrowed.
    pub fn is_state(&self) -> (r: bool)
        ensures
            r == self@.is_state(),
    {
        match self {
            ParamDef::Receiver { reference, mutable } => *reference && *mutable,
            ParamDef::Typed { .. } => false,
        }
    }

    /// Whether this is an argument: an identifier with a type.
    pub fn is_argument(&self) -> (r: bool)
        ensures
            r == self@.is_argument(),
    {
        match self {
            ParamDef::Receiver { .. } => false,
            ParamDef::Typed { name, ty } => is_identifier(name.as_slice()) && ty.len() > 0,
        }
    }
}

impl MethodDef {
    /// Whether the first parameter is the state, mutably borrowed.
    pub fn has_receiver(&self) -> (r: bool)
        ensures
            r == self@.has_receiver(),
    {
        self.inputs.len() > 0 && self.inputs[0].is_state()
    }

    /// Whether every parameter after the first is an argument.
    pub fn arguments_ok(&self) -> (r: bool)
        ensures
            r == self@.arguments_ok(),
    {
        let n: usize = self.inputs.len();
        let mut k: usize = 1;
        while k < n
            invariant
                n == self.inputs@.len(),
                1 <= k,
                forall|j: int| 1 <= j < k && j < n ==> (#[trigger] self@.inputs[j]).is_argument(),
            decreases n - k,
        {
            if !self.inputs[k].is_argument() {
                assert(!self@.inputs[k as int].is_argument());
                return false;
            }
            k = k + 1;
        }
        true
    }
}

} // verus!
