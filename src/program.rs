//! Programs: ordered inputs and commands, and a builder that assembles them.
//! The builder shares one input slot between equal pure values and between
//! uses of one object.
use vstd::prelude::*;
use crate::error::ObjectId;

verus! {

/// Type arguments that system programs pass: the native coin type.
#[derive(Debug, Clone, Copy, PartialEq, Eq, Structural)]
pub enum TypeTag {
    Sui,
}

/// The framework functions that system programs call.
#[derive(Debug, Clone, Copy, PartialEq, Eq, Structural)]
pub enum SystemFunction {
    BalanceCreateRewards,
    BalanceDestroyRebates,
    AdvanceEpoch,
    AdvanceEpochSafeMode,
    ConsensusCommitPrologue,
    AuthenticatorStateCreate,
    AuthenticatorStateUpdate,
    AuthenticatorStateExpireJwks,
    RandomnessStateCreate,
    RandomnessStateUpdate,
    DenyListCreate,
    BridgeCreate,
    BridgeInitCommittee,
    ValidatorVotingPowers,
    StoreExecutionTimeEstimates,
    AccumulatorRootCreate,
}

/// How a program refers to an object.
#[derive(Debug, Clone, Copy, PartialEq, Eq, Structural)]
pub enum ObjectArg {
    ImmOrOwnedObject { id: ObjectId, version: u64 },
    SharedObject { id: ObjectId, initial_shared_version: u64, mutable: bool },
}

impl ObjectArg {
    pub open spec fn spec_id(&self) -> ObjectId {
        match self {
            ObjectArg::ImmOrOwnedObject { id, .. } => *id,
            ObjectArg::SharedObject { id, .. } => *id,
        }
    }

    pub fn id(&self) -> (r: ObjectId)
        ensures
            r == self.spec_id(),
    {
        match self {
            ObjectArg::ImmOrOwnedObject { id, .. } => *id,
            ObjectArg::SharedObject { id, .. } => *id,
        }
    }
}

/// An input of a program: encoded bytes, or an object.
#[derive(Debug, Clone)]
pub enum CallArg {
    Pure(Vec<u8>),
    Object(ObjectArg),
}

/// A value a command consumes: an input slot or an earlier command's result.
#[derive(Debug, Clone, Copy, PartialEq, Eq, Structural)]
pub enum Argument {
    Input(usize),
    Output(usize),
}

#[derive(Debug, Clone)]
pub enum Command {
    MoveCall {
        package: ObjectId,
        function: SystemFunction,
        type_arguments: Vec<TypeTag>,
        arguments: Vec<Argument>,
    },
    Publish { modules: Vec<Vec<u8>>, dependencies: Vec<ObjectId> },
}

#[derive(Debug, Clone)]
pub struct ProgrammableTransaction {
    pub inputs: Vec<CallArg>,
    pub commands: Vec<Command>,
}

/// Why an input could not be added.
#[derive(Debug, Clone, Copy, PartialEq, Eq, Structural)]
pub enum BuildError {
    /// An object was used twice in ways that cannot be reconciled.
    MismatchedObjectArgument,
    /// A value is too long to encode.
    ValueTooLong,
}

/// Two inputs share a slot: pure values with equal bytes, or objects with
/// one identifier.
pub open spec fn same_slot(a: CallArg, b: CallArg) -> bool {
    match (a, b) {
        (CallArg::Pure(x), CallArg::Pure(y)) => x@ == y@,
        (CallArg::Object(o), CallArg::Object(p)) => o.spec_id() == p.spec_id(),
        _ => false,
    }
}

/// What a slot holds after a second use of its object: shared uses at one
/// initial version merge (mutable if either is); any other use must repeat
/// the first exactly.
pub open spec fn merge_object_arg(old: ObjectArg, new: ObjectArg) -> Option<ObjectArg> {
    match (old, new) {
        (
            ObjectArg::SharedObject { id: _, initial_shared_version: v1, mutable: m1 },
            ObjectArg::SharedObject { id, initial_shared_version: v2, mutable: m2 },
        ) if v1 == v2 => Some(ObjectArg::SharedObject { id, initial_shared_version: v2, mutable: m1 || m2 }),
        _ => if old == new {
            Some(new)
        } else {
            None
        },
    }
}

/// A slot that a later use may still change: a shared object taken read-only.
pub open spec fn may_widen(a: CallArg) -> bool {
    match a {
        CallArg::Object(ObjectArg::SharedObject { mutable, .. }) => !mutable,
        _ => false,
    }
}

/// `new` extends `old`: every slot stays, and only a read-only shared slot
/// may change.
pub open spec fn keeps_slots(old: Seq<CallArg>, new: Seq<CallArg>) -> bool {
    &&& old.len() <= new.len()
    &&& forall|i: int| 0 <= i < old.len() && !may_widen(#[trigger] old[i]) ==> new[i] == old[i]
}

/// A use of `o` is accepted: the first slot of its object, if there is one,
/// merges with it.
pub open spec fn accepts_object(inputs: Seq<CallArg>, o: ObjectArg) -> bool {
    forall|j: int|
        0 <= j < inputs.len() && same_slot(#[trigger] inputs[j], CallArg::Object(o)) && (forall|k: int|
            0 <= k < j ==> !same_slot(inputs[k], CallArg::Object(o))) ==> merge_object_arg(
            inputs[j]->Object_0,
            o,
        ) is Some
}

/// `a` names an input slot that holds exactly these bytes.
pub open spec fn pure_at(inputs: Seq<CallArg>, a: Argument, bytes: Seq<u8>) -> bool {
    &&& a is Input
    &&& a->Input_0 < inputs.len()
    &&& inputs[a->Input_0 as int] is Pure
    &&& inputs[a->Input_0 as int]->Pure_0@ == bytes
}

/// `a` names an input slot that holds this object use.
pub open spec fn object_at(inputs: Seq<CallArg>, a: Argument, o: ObjectArg) -> bool {
    &&& a is Input
    &&& a->Input_0 < inputs.len()
    &&& inputs[a->Input_0 as int] == CallArg::Object(o)
}

/// `c` calls `function` of `package` with these type arguments and arguments.
pub open spec fn is_call(
    c: Command,
    package: ObjectId,
    function: SystemFunction,
    type_arguments: Seq<TypeTag>,
    arguments: Seq<Argument>,
) -> bool {
    match c {
        Command::MoveCall { package: p, function: f, type_arguments: t, arguments: a } => {
            &&& p == package
            &&& f == function
            &&& t@ == type_arguments
            &&& a@ == arguments
        },
        _ => false,
    }
}

pub fn bytes_eq(a: &Vec<u8>, b: &Vec<u8>) -> (r: bool)
    ensures
        r == (a@ == b@),
{
    if a.len() != b.len() {
        return false;
    }
    let mut i: usize = 0;
    while i < a.len()
        invariant
            a@.len() == b@.len(),
            i <= a@.len(),
            forall|k: int| 0 <= k < i ==> a@[k] == b@[k],
        decreases a@.len() - i,
    {
        if a[i] != b[i] {
            return false;
        }
        i = i + 1;
    }
    assert(a@ =~= b@);
    true
}

/// Assembles a program one input and one command at a time.
pub struct ProgramBuilder {
    pub inputs: Vec<CallArg>,
    pub commands: Vec<Command>,
}

impl ProgramBuilder {
    pub fn new() -> (r: ProgramBuilder)
        ensures
            r.inputs@.len() == 0,
            r.commands@.len() == 0,
    {
        ProgramBuilder { inputs: Vec::new(), commands: Vec::new() }
    }

    fn slot_matches(held: &CallArg, arg: &CallArg) -> (r: bool)
        ensures
            r == same_slot(*held, *arg),
    {
        match (held, arg) {
            (CallArg::Pure(x), CallArg::Pure(y)) => bytes_eq(x, y),
            (CallArg::Object(o), CallArg::Object(p)) => o.id() == p.id(),
            _ => false,
        }
    }

    /// The first slot that `arg` shares, if any.
    pub fn find_slot(&self, arg: &CallArg) -> (r: Option<usize>)
        ensures
            r is Some ==> {
                let i = r->Some_0 as int;
                &&& i < self.inputs@.len()
                &&& same_slot(self.inputs@[i], *arg)
                &&& forall|j: int| 0 <= j < i ==> !same_slot(#[trigger] self.inputs@[j], *arg)
            },
            r is None ==> forall|j: int|
                0 <= j < self.inputs@.len() ==> !same_slot(#[trigger] self.inputs@[j], *arg),
    {
        let mut i: usize = 0;
        while i < self.inputs.len()
            invariant
                i <= self.inputs@.len(),
                forall|j: int| 0 <= j < i ==> !same_slot(#[trigger] self.inputs@[j], *arg),
            decreases self.inputs@.len() - i,
        {
            if Self::slot_matches(&self.inputs[i], arg) {
                return Some(i);
            }
            i = i + 1;
        }
        None
    }

    /// Adds encoded bytes as an input, sharing the slot of equal bytes.
    pub fn pure_bytes(&mut self, bytes: Vec<u8>) -> (r: Argument)
        ensures
            final(self).commands@ == old(self).commands@,
            keeps_slots(old(self).inputs@, final(self).inputs@),
            pure_at(final(self).inputs@, r, bytes@),
            r->Input_0 < old(self).inputs@.len() ==> final(self).inputs@ == old(self).inputs@,
            r->Input_0 == old(self).inputs@.len() ==> final(self).inputs@ == old(self).inputs@.push(
                CallArg::Pure(bytes),
            ),
            r->Input_0 <= old(self).inputs@.len(),
            forall|j: int|
                0 <= j < r->Input_0 ==> !same_slot(
                    #[trigger] old(self).inputs@[j],
                    CallArg::Pure(bytes),
                ),
    {
        let arg = CallArg::Pure(bytes);
        match self.find_slot(&arg) {
            Some(i) => Argument::Input(i),
            None => {
                let i = self.inputs.len();
                self.inputs.push(arg);
                Argument::Input(i)
            },
        }
    }

    /// Adds an object use as an input. A second use of one object shares its
    /// slot and is merged with the first; an irreconcilable use fails.
    pub fn obj(&mut self, obj_arg: ObjectArg) -> (r: Result<Argument, BuildError>)
        ensures
            final(self).commands@ == old(self).commands@,
            r is Err ==> final(self).inputs@ == old(self).inputs@,
            r is Ok ==> {
                let i = r->Ok_0->Input_0 as int;
                &&& r->Ok_0 is Input
                &&& keeps_slots(old(self).inputs@, final(self).inputs@)
                &&& i <= old(self).inputs@.len()
                &&& i == old(self).inputs@.len() ==> final(self).inputs@ == old(self).inputs@.push(
                    CallArg::Object(obj_arg),
                )
                &&& i < old(self).inputs@.len() ==> {
                    &&& old(self).inputs@[i] is Object
                    &&& merge_object_arg(old(self).inputs@[i]->Object_0, obj_arg) is Some
                    &&& final(self).inputs@ == old(self).inputs@.update(
                        i,
                        CallArg::Object(merge_object_arg(old(self).inputs@[i]->Object_0, obj_arg)->Some_0),
                    )
                }
            },
            r is Ok <==> accepts_object(old(self).inputs@, obj_arg),
            r is Ok && !may_widen(CallArg::Object(obj_arg)) ==> object_at(
                final(self).inputs@,
                r->Ok_0,
                obj_arg,
            ),
    {
        let arg = CallArg::Object(obj_arg);
        match self.find_slot(&arg) {
            None => {
                let i = self.inputs.len();
                self.inputs.push(arg);
                Ok(Argument::Input(i))
            },
            Some(i) => {
                let held = match &self.inputs[i] {
                    CallArg::Object(o) => *o,
                    CallArg::Pure(_) => {
                        return Err(BuildError::MismatchedObjectArgument);
                    },
                };
                let merged = match (held, obj_arg) {
                    (
                        ObjectArg::SharedObject { id: _, initial_shared_version: v1, mutable: m1 },
                        ObjectArg::SharedObject { id, initial_shared_version: v2, mutable: m2 },
                    ) if v1 == v2 => ObjectArg::SharedObject {
                        id,
                        initial_shared_version: v2,
                        mutable: m1 || m2,
                    },
                    _ => {
                        if held == obj_arg {
                            obj_arg
                        } else {
                            return Err(BuildError::MismatchedObjectArgument);
                        }
                    },
                };
                self.inputs.set(i, CallArg::Object(merged));
                Ok(Argument::Input(i))
            },
        }
    }

    /// Adds any input.
    pub fn input(&mut self, call_arg: CallArg) -> (r: Result<Argument, BuildError>)
        ensures
            final(self).commands@ == old(self).commands@,
            r is Err ==> final(self).inputs@ == old(self).inputs@,
            r is Ok ==> keeps_slots(old(self).inputs@, final(self).inputs@),
            call_arg is Pure ==> r is Ok && pure_at(final(self).inputs@, r->Ok_0, call_arg->Pure_0@),
    {
        match call_arg {
            CallArg::Pure(bytes) => Ok(self.pure_bytes(bytes)),
            CallArg::Object(o) => self.obj(o),
        }
    }

    /// Appends a command; its result is referred to by the returned argument.
    pub fn command(&mut self, c: Command) -> (r: Argument)
        ensures
            final(self).inputs@ == old(self).inputs@,
            final(self).commands@ == old(self).commands@.push(c),
            r == Argument::Output(old(self).commands@.len() as usize),
    {
        let i = self.commands.len();
        self.commands.push(c);
        Argument::Output(i)
    }

    /// Appends a call of a framework function.
    pub fn programmable_move_call(
        &mut self,
        package: ObjectId,
        function: SystemFunction,
        type_arguments: Vec<TypeTag>,
        arguments: Vec<Argument>,
    ) -> (r: Argument)
        ensures
            final(self).inputs@ == old(self).inputs@,
            final(self).commands@.len() == old(self).commands@.len() + 1,
            final(self).commands@.drop_last() == old(self).commands@,
            is_call(final(self).commands@.last(), package, function, type_arguments@, arguments@),
            r == Argument::Output(old(self).commands@.len() as usize),
    {
        let r = self.command(
            Command::MoveCall { package, function, type_arguments, arguments },
        );
        assert(self.commands@.drop_last() =~= old(self).commands@);
        r
    }

    pub fn finish(self) -> (r: ProgrammableTransaction)
        ensures
            r.inputs@ == self.inputs@,
            r.commands@ == self.commands@,
    {
        ProgrammableTransaction { inputs: self.inputs, commands: self.commands }
    }
}

} // verus!
