use priority_actor::declaration::{
    priority_of_tag, stop_name, tag_of_priority, ActorDef, DeclarationError, FieldDef, MethodDef,
    ParamDef,
};
use priority_actor::dispatch::{dispatch, DeclaredActor, Message, Operations};
use priority_actor::inbox::Phase;
use priority_actor::mailbox::spawn_actor;
use priority_actor::priority::{Prioritized, Priority};
use priority_actor::schema::define_actor;
use priority_actor::text::{copy_text, is_identifier, same_text};

fn text(s: &str) -> Vec<u8> {
    s.as_bytes().to_vec()
}

fn state() -> ParamDef {
    ParamDef::Receiver { reference: true, mutable: true }
}

fn arg(name: &str, ty: &str) -> ParamDef {
    ParamDef::Typed { name: text(name), ty: text(ty) }
}

fn method(priority: &str, name: &str, inputs: Vec<ParamDef>) -> MethodDef {
    MethodDef {
        priority: text(priority),
        name: text(name),
        is_async: false,
        inputs,
        output: None,
        body: text("{ }"),
    }
}

fn counter_def() -> ActorDef {
    ActorDef {
        actor_name: text("TestCounter"),
        fields: vec![FieldDef { name: text("count"), ty: text("i32") }],
        msg_name: text("TestCounterMsg"),
        methods: vec![
            method("High", "GetValue", vec![state(), arg("tx", "Sender<i32>")]),
            method("Low", "Increment", vec![state(), arg("by", "i32"), arg("ack", "Sender<()>")]),
            MethodDef {
                priority: text("Medium"),
                name: text("DecrementAsync"),
                is_async: true,
                inputs: vec![state()],
                output: Some(text("i32")),
                body: text("{ self.count -= 1; self.count }"),
            },
        ],
    }
}

#[test]
fn identifiers_are_recognised() {
    assert!(is_identifier(b"count"));
    assert!(is_identifier(b"_count2"));
    assert!(is_identifier(b"TestCounterMsg"));
    assert!(is_identifier(b"a"));
    assert!(!is_identifier(b""));
    assert!(!is_identifier(b"_"));
    assert!(!is_identifier(b"2count"));
    assert!(!is_identifier(b"count-1"));
    assert!(!is_identifier(b"co unt"));
    assert!(!is_identifier("zähler".as_bytes()));
}

#[test]
fn texts_are_compared_byte_by_byte() {
    assert!(same_text(b"Stop", b"Stop"));
    assert!(same_text(b"", b""));
    assert!(!same_text(b"Stop", b"stop"));
    assert!(!same_text(b"Stop", b"Stop "));
    assert_eq!(copy_text(b"Increment"), b"Increment".to_vec());
}

#[test]
fn tags_name_the_four_levels() {
    assert_eq!(priority_of_tag(b"Low"), Some(Priority::Low));
    assert_eq!(priority_of_tag(b"Medium"), Some(Priority::Medium));
    assert_eq!(priority_of_tag(b"High"), Some(Priority::High));
    assert_eq!(priority_of_tag(b"Stop"), Some(Priority::Stop));
    assert_eq!(priority_of_tag(b"low"), None);
    assert_eq!(priority_of_tag(b"Urgent"), None);
    assert_eq!(priority_of_tag(b""), None);
    assert_eq!(tag_of_priority(Priority::Low), b"Low".to_vec());
    assert_eq!(tag_of_priority(Priority::Medium), b"Medium".to_vec());
    assert_eq!(tag_of_priority(Priority::High), b"High".to_vec());
    assert_eq!(tag_of_priority(Priority::Stop), b"Stop".to_vec());
    assert_eq!(stop_name(), b"Stop".to_vec());
}

#[test]
fn counter_declaration_is_in_order() {
    assert_eq!(counter_def().validate(), Ok(()));
}

#[test]
fn schema_has_one_variant_per_operation_and_stop_last() {
    let schema = define_actor(&counter_def()).unwrap();
    assert_eq!(schema.actor_name(), &text("TestCounter"));
    assert_eq!(schema.msg_name(), &text("TestCounterMsg"));
    assert_eq!(schema.fields().len(), 1);
    assert_eq!(schema.fields()[0].name, text("count"));
    assert_eq!(schema.fields()[0].ty, text("i32"));
    assert_eq!(schema.variant_count(), 4);
    let variants = schema.variants();
    assert_eq!(variants[0].name, text("GetValue"));
    assert_eq!(variants[0].payload, vec![text("Sender<i32>")]);
    assert_eq!(variants[0].priority, Priority::High);
    assert_eq!(variants[1].name, text("Increment"));
    assert_eq!(variants[1].payload, vec![text("i32"), text("Sender<()>")]);
    assert_eq!(variants[1].priority, Priority::Low);
    assert_eq!(variants[2].name, text("DecrementAsync"));
    assert!(variants[2].payload.is_empty());
    assert_eq!(variants[2].priority, Priority::Medium);
    assert_eq!(variants[3].name, text("Stop"));
    assert!(variants[3].payload.is_empty());
    assert_eq!(variants[3].priority, Priority::Stop);
}

#[test]
fn schema_keeps_each_handler_as_declared() {
    let schema = define_actor(&counter_def()).unwrap();
    let handlers = schema.handlers();
    assert_eq!(handlers.len(), 3);
    assert_eq!(handlers[1].name, text("Increment"));
    assert_eq!(handlers[1].params.len(), 2);
    assert_eq!(handlers[1].params[0].name, text("by"));
    assert_eq!(handlers[1].params[0].ty, text("i32"));
    assert_eq!(handlers[1].params[1].name, text("ack"));
    assert!(!handlers[1].is_async);
    assert_eq!(handlers[1].output, None);
    assert_eq!(handlers[1].body, text("{ }"));
    assert_eq!(handlers[2].name, text("DecrementAsync"));
    assert!(handlers[2].params.is_empty());
    assert!(handlers[2].is_async);
    assert_eq!(handlers[2].output, Some(text("i32")));
    assert_eq!(handlers[2].body, text("{ self.count -= 1; self.count }"));
}

#[test]
fn schema_looks_up_priorities_and_variants() {
    let schema = define_actor(&counter_def()).unwrap();
    assert_eq!(schema.priority_of(0), Some(Priority::High));
    assert_eq!(schema.priority_of(1), Some(Priority::Low));
    assert_eq!(schema.priority_of(2), Some(Priority::Medium));
    assert_eq!(schema.priority_of(3), Some(Priority::Stop));
    assert_eq!(schema.priority_of(4), None);
    assert_eq!(schema.find_variant(b"Increment"), Some(1));
    assert_eq!(schema.find_variant(b"Stop"), Some(3));
    assert_eq!(schema.find_variant(b"Reset"), None);
    assert_eq!(schema.handler_for(0), Some(0));
    assert_eq!(schema.handler_for(2), Some(2));
    assert_eq!(schema.handler_for(3), None);
    assert_eq!(schema.handler_for(9), None);
}

#[test]
fn declaration_without_operations_still_has_stop() {
    let def = ActorDef {
        actor_name: text("Idle"),
        fields: vec![],
        msg_name: text("IdleMsg"),
        methods: vec![],
    };
    let schema = define_actor(&def).unwrap();
    assert_eq!(schema.variant_count(), 1);
    assert_eq!(schema.variants()[0].name, text("Stop"));
    assert_eq!(schema.priority_of(0), Some(Priority::Stop));
    assert!(schema.handlers().is_empty());
}

#[test]
fn bad_names_are_refused() {
    let mut def = counter_def();
    def.actor_name = text("9Counter");
    assert_eq!(def.validate(), Err(DeclarationError::InvalidName));
    let mut def = counter_def();
    def.msg_name = text("");
    assert_eq!(define_actor(&def).err(), Some(DeclarationError::InvalidName));
    let mut def = counter_def();
    def.msg_name = text("TestCounter");
    assert_eq!(define_actor(&def).err(), Some(DeclarationError::InvalidName));
}

#[test]
fn bad_fields_are_refused() {
    let mut def = counter_def();
    def.fields.push(FieldDef { name: text("total"), ty: text("") });
    assert_eq!(define_actor(&def).err(), Some(DeclarationError::InvalidField(1)));
    let mut def = counter_def();
    def.fields.push(FieldDef { name: text("to tal"), ty: text("u8") });
    assert_eq!(define_actor(&def).err(), Some(DeclarationError::InvalidField(1)));
    let mut def = counter_def();
    def.fields.push(FieldDef { name: text("total"), ty: text("u8") });
    def.fields.push(FieldDef { name: text("count"), ty: text("u8") });
    assert_eq!(define_actor(&def).err(), Some(DeclarationError::InvalidField(2)));
}

#[test]
fn unknown_priority_is_refused() {
    let mut def = counter_def();
    def.methods[1].priority = text("Urgent");
    assert_eq!(define_actor(&def).err(), Some(DeclarationError::UnknownPriority(1)));
}

#[test]
fn missing_receiver_is_refused() {
    let mut def = counter_def();
    def.methods[2].inputs = vec![];
    assert_eq!(define_actor(&def).err(), Some(DeclarationError::MissingReceiver(2)));
    let mut def = counter_def();
    def.methods[0].inputs = vec![arg("tx", "Sender<i32>")];
    assert_eq!(define_actor(&def).err(), Some(DeclarationError::MissingReceiver(0)));
    let mut def = counter_def();
    def.methods[0].inputs[0] = ParamDef::Receiver { reference: true, mutable: false };
    assert_eq!(define_actor(&def).err(), Some(DeclarationError::MissingReceiver(0)));
    let mut def = counter_def();
    def.methods[0].inputs[0] = ParamDef::Receiver { reference: false, mutable: true };
    assert_eq!(define_actor(&def).err(), Some(DeclarationError::MissingReceiver(0)));
}

#[test]
fn bad_operations_are_refused() {
    let mut def = counter_def();
    def.methods[0].name = text("Get Value");
    assert_eq!(define_actor(&def).err(), Some(DeclarationError::InvalidOperation(0)));
    let mut def = counter_def();
    def.methods[1].inputs.push(state());
    assert_eq!(define_actor(&def).err(), Some(DeclarationError::InvalidOperation(1)));
    let mut def = counter_def();
    def.methods[1].inputs.push(arg("n", ""));
    assert_eq!(define_actor(&def).err(), Some(DeclarationError::InvalidOperation(1)));
    let mut def = counter_def();
    def.methods[1].inputs.push(arg("", "u8"));
    assert_eq!(define_actor(&def).err(), Some(DeclarationError::InvalidOperation(1)));
}

#[test]
fn repeated_operation_names_are_refused() {
    let mut def = counter_def();
    def.methods[2].name = text("GetValue");
    assert_eq!(define_actor(&def).err(), Some(DeclarationError::DuplicateOperation(2)));
    let mut def = counter_def();
    def.methods[0].name = text("Stop");
    assert_eq!(define_actor(&def).err(), Some(DeclarationError::DuplicateOperation(0)));
}

#[test]
fn first_fault_is_the_one_reported() {
    let mut def = counter_def();
    def.methods[0].inputs = vec![];
    def.methods[1].priority = text("Urgent");
    assert_eq!(define_actor(&def).err(), Some(DeclarationError::MissingReceiver(0)));
    def.methods[0].priority = text("Urgent");
    assert_eq!(define_actor(&def).err(), Some(DeclarationError::UnknownPriority(0)));
    def.fields[0].ty = text("");
    assert_eq!(define_actor(&def).err(), Some(DeclarationError::InvalidField(0)));
    def.actor_name = text("");
    assert_eq!(define_actor(&def).err(), Some(DeclarationError::InvalidName));
}

struct Tally {
    count: i32,
    reports: Vec<i32>,
}

impl Operations for Tally {
    type Args = i32;

    fn perform(&mut self, op: usize, args: i32) {
        match op {
            0 => self.reports.push(self.count),
            1 => self.count += args,
            _ => self.count -= 1,
        }
    }
}

#[test]
fn messages_take_the_priority_of_their_variant() {
    let schema = define_actor(&counter_def()).unwrap();
    let get = schema.call(0, 0).unwrap();
    let inc = schema.call(1, 5).unwrap();
    assert_eq!(get.priority(), Priority::High);
    assert_eq!(inc.priority(), Priority::Low);
    assert_eq!(Message::<i32>::Stop.priority(), Priority::Stop);
    assert!(matches!(inc, Message::Call { op: 1, priority: Priority::Low, args: 5 }));
    assert_eq!(schema.call(3, 7).err(), Some(7));
    assert_eq!(schema.call(8, 9).err(), Some(9));
}

#[test]
fn schema_admits_its_own_messages_only() {
    let schema = define_actor(&counter_def()).unwrap();
    assert!(schema.admits(&Message::<i32>::Stop));
    assert!(schema.admits(&schema.call(2, 0).unwrap()));
    assert!(!schema.admits(&Message::Call { op: 2, priority: Priority::High, args: 0 }));
    assert!(!schema.admits(&Message::Call { op: 3, priority: Priority::Stop, args: 0 }));
    assert_eq!(schema.variant_of(&Message::<i32>::Stop), Some(3));
    assert_eq!(schema.variant_of(&schema.call(1, 0).unwrap()), Some(1));
    assert_eq!(
        schema.variant_of(&Message::Call { op: 5, priority: Priority::Low, args: 0 }),
        None
    );
}

#[test]
fn dispatch_calls_the_handler_of_the_variant() {
    let mut tally = Tally { count: 0, reports: Vec::new() };
    assert!(dispatch(&mut tally, Message::Call { op: 1, priority: Priority::Low, args: 4 }));
    assert_eq!(tally.count, 4);
    assert!(dispatch(&mut tally, Message::Call { op: 0, priority: Priority::High, args: 0 }));
    assert_eq!(tally.reports, vec![4]);
    assert!(dispatch(&mut tally, Message::Call { op: 2, priority: Priority::Medium, args: 0 }));
    assert_eq!(tally.count, 3);
}

#[test]
fn dispatch_of_stop_calls_no_handler() {
    let mut tally = Tally { count: 7, reports: vec![1] };
    assert!(!dispatch(&mut tally, Message::Stop));
    assert_eq!(tally.count, 7);
    assert_eq!(tally.reports, vec![1]);
}

#[test]
fn declared_actor_runs_behind_a_mailbox() {
    let schema = define_actor(&counter_def()).unwrap();
    let mut mailbox = spawn_actor(DeclaredActor(Tally { count: 0, reports: Vec::new() }));
    for _ in 0..3 {
        assert!(mailbox.send(schema.call(1, 2).unwrap()).is_ok());
    }
    assert!(mailbox.send(schema.call(2, 0).unwrap()).is_ok());
    assert!(mailbox.send(schema.call(0, 0).unwrap()).is_ok());
    assert_eq!(mailbox.run(), Phase::Running);
    assert_eq!(mailbox.actor().0.reports, vec![0]);
    assert_eq!(mailbox.actor().0.count, 5);
    assert!(mailbox.send(schema.call(1, 1).unwrap()).is_ok());
    assert!(mailbox.send(Message::Stop).is_ok());
    assert_eq!(mailbox.run(), Phase::Terminated);
    assert_eq!(mailbox.actor().0.count, 5);
    assert!(mailbox.send(schema.call(0, 0).unwrap()).is_err());
}
