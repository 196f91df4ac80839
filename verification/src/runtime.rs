//! The runtime: it compiles scripts and runs them.
use crate::compilation::grammar::compile;
use crate::compilation::parser::Parser;
use crate::environment::Environment;
use crate::error::{Error, Failure};
use crate::execution::chunk::{Bytecode, Chunk};
use crate::execution::error::ExecutionError;
use crate::execution::machine::{resume, run, served, Halt, Machine, Reply, ReplyView, Step};
use crate::execution::vm::{answered, ends, VM};
use crate::script_enum::EnumTable;
use vstd::prelude::*;
use vstd::string::StringExecFns;

verus! {

/// What a [`Runtime`] holds, as plain values.
pub struct RuntimeState {
    /// The enum values that the host has registered.
    pub names: Map<Seq<char>, i8>,
    /// All that the scripts have printed and that is not cleared.
    pub out: Seq<u8>,
    /// The state of the machine.
    pub machine: Machine,
    /// The chunk of the script that was run last.
    pub script: Bytecode,
}

impl RuntimeState {
    /// The state after the output is cleared.
    pub open spec fn cleared(self) -> RuntimeState {
        RuntimeState { out: Seq::empty(), ..self }
    }

    /// The state after an enum value is registered.
    pub open spec fn registered(self, name: Seq<char>, value: i8) -> RuntimeState {
        RuntimeState { names: self.names.insert(name, value), ..self }
    }

    /// Clearing the output twice is clearing it once.
    pub proof fn law_clear_idempotent(self)
        ensures
            self.cleared().cleared() == self.cleared(),
    {
    }
}

/// Whether a run of the runtime ended as the definition of the machine
/// says: with what is printed, and with the step and the state of the
/// machine, or with the error.
pub open spec fn finishes(result: Result<Step, Error>, state: RuntimeState, halt: Halt) -> bool {
    &&& state.out == halt.out
    &&& match halt.result {
        Ok(step) => result matches Ok(s) && s@ == step && state.machine == halt.machine,
        Err(fault) => result matches Err(error) && error@ == (Failure::Execution { source: fault }),
    }
}

/// Whether a run ended as the run `first` of the machine ends in which a
/// store answers the requests for variables, and the store went from
/// `before` to `after` by it.
pub open spec fn finishes_served<E: Environment>(
    result: Result<Step, Error>,
    state: RuntimeState,
    chunk: Bytecode,
    first: Halt,
    before: E,
    after: E,
) -> bool {
    exists|replies: Seq<ReplyView>, stores: Seq<E>|
        {
            &&& #[trigger] answered(chunk, first, replies, stores)
            &&& stores.first() == before
            &&& stores.last() == after
            &&& finishes(result, state, served(chunk, first, replies))
        }
}

/// The runtime.
#[derive(Debug)]
pub struct Runtime {
    /// The parser.
    parser: Parser,
    /// The machine.
    vm: VM,
    /// The enum values that the host has registered.
    enums: EnumTable,
    /// All that the scripts have printed and that is not cleared.
    stdout: Vec<u8>,
    /// The chunk of the script that was run last.
    script: Chunk,
}

impl View for Runtime {
    type V = RuntimeState;

    closed spec fn view(&self) -> RuntimeState {
        RuntimeState {
            names: self.enums@,
            out: self.stdout@,
            machine: self.vm@,
            script: self.script@,
        }
    }
}

impl Default for Runtime {
    fn default() -> (runtime: Runtime)
        ensures
            runtime@ == (RuntimeState {
                names: Map::empty(),
                out: Seq::empty(),
                machine: Machine::start(),
                script: Bytecode::empty(),
            }),
    {
        Runtime {
            parser: Parser::new(),
            vm: VM::default(),
            enums: EnumTable::new(),
            stdout: Vec::new(),
            script: Chunk::default(),
        }
    }
}

impl Clone for Runtime {
    /// The copy has the enum values of the runtime, and nothing else of it.
    fn clone(&self) -> (runtime: Runtime)
        ensures
            runtime@ == (RuntimeState {
                names: self@.names,
                out: Seq::empty(),
                machine: Machine::start(),
                script: Bytecode::empty(),
            }),
    {
        Runtime {
            parser: Parser::new(),
            vm: VM::default(),
            enums: self.enums.clone(),
            stdout: Vec::new(),
            script: Chunk::default(),
        }
    }
}

/// The error of the runtime for an error of the machine.
fn lift(result: Result<Step, ExecutionError>) -> (lifted: Result<Step, Error>)
    ensures
        match result {
            Ok(step) => lifted == Ok::<Step, Error>(step),
            Err(source) => lifted == Err::<Step, Error>(Error::Execution { source }),
        },
{
    match result {
        Ok(step) => Ok(step),
        Err(source) => Err(Error::from(source)),
    }
}

impl Runtime {
    /// Registers an enum value: scripts may then write `key` for `value`.
    /// A name can be registered again with its number, and not with
    /// another.
    pub fn register_enum_tuple(&mut self, key: &str, value: i8) -> (result: Result<(), Error>)
        ensures
            match result {
                Ok(()) => {
                    &&& old(self)@.names.contains_key(key@) ==> old(self)@.names[key@] == value
                    &&& final(self)@ == old(self)@.registered(key@, value)
                },
                Err(error) => {
                    &&& old(self)@.names.contains_key(key@)
                    &&& old(self)@.names[key@] != value
                    &&& error@ == (Failure::DuplicateVariant {
                        name: key@,
                        old: old(self)@.names[key@],
                        new: value,
                    })
                    &&& final(self)@ == old(self)@
                },
            },
    {
        match self.enums.get(key) {
            Some(old_value) => {
                if old_value != value {
                    return Err(
                        Error::DuplicateVariant {
                            name: String::from_str(key),
                            old: old_value,
                            new: value,
                        },
                    );
                }
                assert(self@.names =~= self@.names.insert(key@, value));
                Ok(())
            },
            None => {
                self.enums.insert(String::from_str(key), value);
                Ok(())
            },
        }
    }

    /// The number that is registered under the name of an enum value.
    pub fn enum_discriminant(&self, name: &str) -> (value: Option<i8>)
        ensures
            value == if self@.names.contains_key(name@) {
                Some(self@.names[name@])
            } else {
                None
            },
    {
        self.enums.get(name)
    }

    /// Compiles a script.
    pub fn parse(&mut self, script: &str) -> (result: Result<Chunk, Error>)
        ensures
            final(self)@ == old(self)@,
            match compile(old(self)@.names, script@) {
                Ok(code) => result matches Ok(chunk) && chunk@ == code,
                Err(fault) => result matches Err(error) && error@ == (Failure::Compilation {
                    source: fault,
                }),
            },
    {
        match self.parser.parse(&self.enums, script) {
            Ok(chunk) => Ok(chunk),
            Err(source) => Err(Error::from(source)),
        }
    }

    /// Runs a chunk from its start, with the variables of `globals`, up to
    /// its end or to the first request that is not for the variables. What
    /// it prints is added to the output.
    pub fn execute<E: Environment>(&mut self, chunk: &Chunk, globals: &mut E) -> (result: Result<
        Step,
        Error,
    >)
        ensures
            final(self)@.names == old(self)@.names,
            final(self)@.script == old(self)@.script,
            finishes_served(
                result,
                final(self)@,
                chunk@,
                run(chunk@, old(self)@.out),
                *old(globals),
                *final(globals),
            ),
            result matches Ok(Step::Waiting(request)) ==> !request@.for_store(),
    {
        let result = self.vm.run(chunk, globals, &mut self.stdout);
        proof {
            let (replies, stores) = choose|replies: Seq<ReplyView>, stores: Seq<E>|
                {
                    &&& #[trigger] answered(chunk@, run(chunk@, old(self)@.out), replies, stores)
                    &&& stores.first() == *old(globals)
                    &&& stores.last() == *globals
                    &&& ends(result, self.vm@, self.stdout@, served(chunk@, run(chunk@, old(self)@.out), replies))
                };
            assert(finishes(lift_spec(result), self@, served(chunk@, run(chunk@, old(self)@.out), replies)));
            assert(answered(chunk@, run(chunk@, old(self)@.out), replies, stores));
        }
        lift(result)
    }

    /// Goes on with a chunk after the reply to the request that the run was
    /// stopped with.
    pub fn answer<E: Environment>(&mut self, chunk: &Chunk, globals: &mut E, reply: Reply) -> (result:
        Result<Step, Error>)
        ensures
            final(self)@.names == old(self)@.names,
            final(self)@.script == old(self)@.script,
            finishes_served(
                result,
                final(self)@,
                chunk@,
                resume(chunk@, old(self)@.machine, old(self)@.out, reply@),
                *old(globals),
                *final(globals),
            ),
            result matches Ok(Step::Waiting(request)) ==> !request@.for_store(),
    {
        let ghost first = resume(chunk@, self@.machine, self@.out, reply@);
        let result = self.vm.answer(chunk, globals, &mut self.stdout, reply);
        proof {
            let (replies, stores) = choose|replies: Seq<ReplyView>, stores: Seq<E>|
                {
                    &&& #[trigger] answered(chunk@, first, replies, stores)
                    &&& stores.first() == *old(globals)
                    &&& stores.last() == *globals
                    &&& ends(result, self.vm@, self.stdout@, served(chunk@, first, replies))
                };
            assert(finishes(lift_spec(result), self@, served(chunk@, first, replies)));
            assert(answered(chunk@, first, replies, stores));
        }
        lift(result)
    }

    /// Compiles a script and runs it, as [`Runtime::execute`] runs a chunk.
    /// The runtime keeps the chunk: where the run stops with a request,
    /// [`Runtime::reply`] goes on with it.
    pub fn continue_run<E: Environment>(&mut self, script: &str, globals: &mut E) -> (result: Result<
        Step,
        Error,
    >)
        ensures
            final(self)@.names == old(self)@.names,
            match compile(old(self)@.names, script@) {
                Ok(code) => {
                    &&& final(self)@.script == code
                    &&& finishes_served(
                        result,
                        final(self)@,
                        code,
                        run(code, old(self)@.out),
                        *old(globals),
                        *final(globals),
                    )
                },
                Err(fault) => {
                    &&& result matches Err(error) && error@ == (Failure::Compilation {
                        source: fault,
                    })
                    &&& final(self)@ == old(self)@
                    &&& *final(globals) == *old(globals)
                },
            },
            result matches Ok(Step::Waiting(request)) ==> !request@.for_store(),
    {
        match self.parser.parse(&self.enums, script) {
            Err(source) => Err(Error::from(source)),
            Ok(chunk) => {
                self.script = chunk;
                let ghost code = self.script@;
                let ghost first = run(code, self.stdout@);
                let result = self.vm.run(&self.script, globals, &mut self.stdout);
                proof {
                    let (replies, stores) = choose|replies: Seq<ReplyView>, stores: Seq<E>|
                        {
                            &&& #[trigger] answered(code, first, replies, stores)
                            &&& stores.first() == *old(globals)
                            &&& stores.last() == *globals
                            &&& ends(result, self.vm@, self.stdout@, served(code, first, replies))
                        };
                    assert(finishes(lift_spec(result), self@, served(code, first, replies)));
                    assert(answered(code, first, replies, stores));
                }
                lift(result)
            },
        }
    }

    /// Clears the output, then compiles a script and runs it, as
    /// [`Runtime::continue_run`] does.
    pub fn run<E: Environment>(&mut self, script: &str, globals: &mut E) -> (result: Result<
        Step,
        Error,
    >)
        ensures
            final(self)@.names == old(self)@.names,
            match compile(old(self)@.names, script@) {
                Ok(code) => {
                    &&& final(self)@.script == code
                    &&& finishes_served(
                        result,
                        final(self)@,
                        code,
                        run(code, Seq::empty()),
                        *old(globals),
                        *final(globals),
                    )
                },
                Err(fault) => {
                    &&& result matches Err(error) && error@ == (Failure::Compilation {
                        source: fault,
                    })
                    &&& final(self)@ == old(self)@.cleared()
                    &&& *final(globals) == *old(globals)
                },
            },
            result matches Ok(Step::Waiting(request)) ==> !request@.for_store(),
    {
        self.stdout.clear();
        self.continue_run(script, globals)
    }

    /// Goes on with the script of [`Runtime::run`] or
    /// [`Runtime::continue_run`] after the reply to the request that it was
    /// stopped with.
    pub fn reply<E: Environment>(&mut self, globals: &mut E, reply: Reply) -> (result: Result<
        Step,
        Error,
    >)
        ensures
            final(self)@.names == old(self)@.names,
            final(self)@.script == old(self)@.script,
            finishes_served(
                result,
                final(self)@,
                old(self)@.script,
                resume(old(self)@.script, old(self)@.machine, old(self)@.out, reply@),
                *old(globals),
                *final(globals),
            ),
            result matches Ok(Step::Waiting(request)) ==> !request@.for_store(),
    {
        let ghost code = self.script@;
        let ghost first = resume(code, self@.machine, self@.out, reply@);
        let result = self.vm.answer(&self.script, globals, &mut self.stdout, reply);
        proof {
            let (replies, stores) = choose|replies: Seq<ReplyView>, stores: Seq<E>|
                {
                    &&& #[trigger] answered(code, first, replies, stores)
                    &&& stores.first() == *old(globals)
                    &&& stores.last() == *globals
                    &&& ends(result, self.vm@, self.stdout@, served(code, first, replies))
                };
            assert(finishes(lift_spec(result), self@, served(code, first, replies)));
            assert(answered(code, first, replies, stores));
        }
        lift(result)
    }

    /// All that the scripts have printed and that is not cleared.
    pub fn stdout(&self) -> (out: &Vec<u8>)
        ensures
            out@ == self@.out,
    {
        &self.stdout
    }

    /// Clears the output.
    pub fn clear(&mut self)
        ensures
            final(self)@ == old(self)@.cleared(),
    {
        self.stdout.clear();
    }
}

/// The result of the runtime for a result of the machine.
pub open spec fn lift_spec(result: Result<Step, ExecutionError>) -> Result<Step, Error> {
    match result {
        Ok(step) => Ok(step),
        Err(source) => Err(Error::Execution { source }),
    }
}

} // verus!
