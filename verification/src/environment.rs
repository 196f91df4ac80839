//! The variable store that the host shares with its scripts.
use crate::execution::machine::{ReplyView, RequestView};
use crate::scripting_value::{ScriptingValue, Value};
use crate::table::{find, lookup, put};
use vstd::prelude::*;
use vstd::string::StringExecFns;

verus! {

/// What a variable store may answer in place of doing what it was asked.
#[derive(Debug)]
pub enum Error {
    /// The value is beyond the limits of the variable's type.
    EnvVarExceedsLimits { name: String },
    /// No variable of this name is defined.
    EnvVarNotDefined { name: String },
    /// The variable is of a type that the store does not know.
    EnvVarUnknownType { name: String },
    /// The variable is defined with another type.
    EnvVarWrongType { name: String },
    /// The store could not set the variable.
    EnvVarSet { name: String, cause: String },
    /// The value cannot be cast to the variable's type.
    EnvVarTypeCast { name: String, var_type: String },
}

/// What an [`Error`] of a store holds, as plain values.
pub enum Fault {
    EnvVarExceedsLimits { name: Seq<char> },
    EnvVarNotDefined { name: Seq<char> },
    EnvVarUnknownType { name: Seq<char> },
    EnvVarWrongType { name: Seq<char> },
    EnvVarSet { name: Seq<char>, cause: Seq<char> },
    EnvVarTypeCast { name: Seq<char>, var_type: Seq<char> },
}

impl View for Error {
    type V = Fault;

    open spec fn view(&self) -> Fault {
        match self {
            Error::EnvVarExceedsLimits { name } => Fault::EnvVarExceedsLimits { name: name@ },
            Error::EnvVarNotDefined { name } => Fault::EnvVarNotDefined { name: name@ },
            Error::EnvVarUnknownType { name } => Fault::EnvVarUnknownType { name: name@ },
            Error::EnvVarWrongType { name } => Fault::EnvVarWrongType { name: name@ },
            Error::EnvVarSet { name, cause } => Fault::EnvVarSet { name: name@, cause: cause@ },
            Error::EnvVarTypeCast { name, var_type } => Fault::EnvVarTypeCast {
                name: name@,
                var_type: var_type@,
            },
        }
    }
}

/// The reply that stands for what a store answers to a request to write a
/// variable.
pub open spec fn written(result: Result<(), Error>) -> ReplyView {
    match result {
        Ok(()) => ReplyView::Done,
        Err(error) => ReplyView::Failed(error@),
    }
}

/// The reply that stands for what a store answers to a request to read a
/// variable.
pub open spec fn read(result: Result<ScriptingValue, Error>) -> ReplyView {
    match result {
        Ok(value) => ReplyView::Value(value@),
        Err(error) => ReplyView::Failed(error@),
    }
}

/// A variable store of the host: names, each with a value.
///
/// The machine reads and writes the variables of a script through it. What
/// a store does with a request is the host's affair, and the store says it
/// itself, with [`Environment::serves`]; the machine hands on what the
/// store answers.
pub trait Environment {
    /// Whether the store may give this reply to this request, and be
    /// `after` thereafter. A store that does not say so may do either.
    open spec fn serves(&self, request: RequestView, reply: ReplyView, after: &Self) -> bool {
        true
    }

    /// Creates the variable `key` with `value`, or overwrites it.
    fn define_env(&mut self, key: &str, value: ScriptingValue) -> (result: Result<(), Error>)
        ensures
            old(self).serves(
                RequestView::Define { name: key@, value: value@ },
                written(result),
                final(self),
            ),
    ;

    /// The value of the variable `key`.
    fn get_env(&self, key: &str) -> (result: Result<ScriptingValue, Error>)
        ensures
            self.serves(RequestView::Get { name: key@ }, read(result), self),
    ;

    /// Overwrites the variable `key`, which has to exist, with `value`.
    fn set_env(&mut self, key: &str, value: ScriptingValue) -> (result: Result<(), Error>)
        ensures
            old(self).serves(
                RequestView::Assign { name: key@, value: value@ },
                written(result),
                final(self),
            ),
    ;
}

/// The reader-writer lock of `spin`.
#[verifier::external_type_specification]
#[verifier::external_body]
#[verifier::reject_recursive_types(T)]
#[verifier::reject_recursive_types(R)]
pub struct ExRwLock<T: ?Sized, R>(spin::rwlock::RwLock<T, R>);

/// The waiting strategy of the locks of `spin` that spins.
#[verifier::external_type_specification]
#[verifier::external_body]
pub struct ExSpin(spin::relax::Spin);

/// What a lock holds.
pub uninterp spec fn held(lock: spin::RwLock<Vec<(String, ScriptingValue)>>) -> Seq<
    (String, ScriptingValue),
>;

/// `RwLock::new` of `spin`: a lock that holds the data it is given.
#[verifier::external_body]
fn lock_new(data: Vec<(String, ScriptingValue)>) -> (lock: spin::RwLock<
    Vec<(String, ScriptingValue)>,
>)
    ensures
        held(lock) == data@,
{
    spin::RwLock::new(data)
}

/// `RwLock::read` of `spin`: shared access to what the lock holds, of which
/// a copy is handed back. The call waits while a writer has the lock; no
/// access of this library outlasts its call.
#[verifier::external_body]
fn lock_read(lock: &spin::RwLock<Vec<(String, ScriptingValue)>>) -> (data: Vec<
    (String, ScriptingValue),
>)
    ensures
        data@ == held(*lock),
{
    lock.read().clone()
}

/// `RwLock::write` of `spin`: exclusive access to what the lock holds, in
/// whose place the data is put. The call waits while others have the lock;
/// no access of this library outlasts its call.
#[verifier::external_body]
fn lock_write(lock: &mut spin::RwLock<Vec<(String, ScriptingValue)>>, data: Vec<
    (String, ScriptingValue),
>)
    ensures
        held(*final(lock)) == data@,
{
    *lock.write() = data;
}

/// A simple variable store: every name can be defined, with every value.
#[derive(Debug)]
pub struct DefaultEnvironment {
    storage: spin::RwLock<Vec<(String, ScriptingValue)>>,
}

impl View for DefaultEnvironment {
    type V = Map<Seq<char>, Value>;

    closed spec fn view(&self) -> Map<Seq<char>, Value> {
        Map::new(
            |name: Seq<char>| lookup(held(self.storage), name) is Some,
            |name: Seq<char>| lookup(held(self.storage), name)->0@,
        )
    }
}

impl Default for DefaultEnvironment {
    fn default() -> (store: DefaultEnvironment)
        ensures
            store@ == Map::<Seq<char>, Value>::empty(),
    {
        let store = DefaultEnvironment { storage: lock_new(Vec::new()) };
        assert(store@ =~= Map::<Seq<char>, Value>::empty());
        store
    }
}

impl Environment for DefaultEnvironment {
    /// This store takes every definition, and knows the variables that
    /// were defined.
    open spec fn serves(&self, request: RequestView, reply: ReplyView, after: &Self) -> bool {
        match request {
            RequestView::Define { name, value } => {
                &&& reply == ReplyView::Done
                &&& after@ == self@.insert(name, value)
            },
            RequestView::Get { name } => {
                &&& after@ == self@
                &&& reply == if self@.contains_key(name) {
                    ReplyView::Value(self@[name])
                } else {
                    ReplyView::Failed(Fault::EnvVarNotDefined { name })
                }
            },
            RequestView::Assign { name, value } => if self@.contains_key(name) {
                &&& reply == ReplyView::Done
                &&& after@ == self@.insert(name, value)
            } else {
                &&& reply == ReplyView::Failed(Fault::EnvVarNotDefined { name })
                &&& after@ == self@
            },
            _ => false,
        }
    }

    /// Creates the variable or overwrites it: this store takes every value.
    fn define_env(&mut self, key: &str, value: ScriptingValue) -> (result: Result<(), Error>)
        ensures
            result is Ok,
            final(self)@ == old(self)@.insert(key@, value@),
    {
        let mut entries = lock_read(&self.storage);
        put(&mut entries, String::from_str(key), value);
        lock_write(&mut self.storage, entries);
        assert(self@ =~= old(self)@.insert(key@, value@));
        Ok(())
    }

    /// The value of the variable, if it is defined.
    fn get_env(&self, key: &str) -> (result: Result<ScriptingValue, Error>)
        ensures
            match result {
                Ok(value) => self@.contains_key(key@) && value@ == self@[key@],
                Err(error) => !self@.contains_key(key@) && error@ == (Fault::EnvVarNotDefined {
                    name: key@,
                }),
            },
    {
        let entries = lock_read(&self.storage);
        let name = String::from_str(key);
        match find(&entries, &name) {
            Some(i) => Ok(entries[i].1.clone()),
            None => Err(Error::EnvVarNotDefined { name }),
        }
    }

    /// Overwrites the variable, if it is defined.
    fn set_env(&mut self, key: &str, value: ScriptingValue) -> (result: Result<(), Error>)
        ensures
            match result {
                Ok(()) => old(self)@.contains_key(key@) && final(self)@ == old(self)@.insert(
                    key@,
                    value@,
                ),
                Err(error) => {
                    &&& !old(self)@.contains_key(key@)
                    &&& error@ == (Fault::EnvVarNotDefined { name: key@ })
                    &&& final(self)@ == old(self)@
                },
            },
    {
        let mut entries = lock_read(&self.storage);
        let name = String::from_str(key);
        match find(&entries, &name) {
            Some(_) => {
                put(&mut entries, name, value);
                lock_write(&mut self.storage, entries);
                assert(self@ =~= old(self)@.insert(key@, value@));
                Ok(())
            },
            None => Err(Error::EnvVarNotDefined { name }),
        }
    }
}

impl Fault {
    /// The message that tells of the error.
    pub open spec fn message(self) -> Seq<char> {
        match self {
            Fault::EnvVarExceedsLimits { name } => "the environment variable "@ + name + " exceeds the limits of its defined type"@,
            Fault::EnvVarNotDefined { name } => "the environment variable "@ + name + " has not been defined"@,
            Fault::EnvVarUnknownType { name } => "the environment variable "@ + name + " has an unknown type"@,
            Fault::EnvVarWrongType { name } => "the type of the environment variable "@ + name + " does not match its former definition"@,
            Fault::EnvVarSet { name, cause } => "setting environment variable "@ + name + " failed: "@ + cause,
            Fault::EnvVarTypeCast { name, var_type } => "cast of variable "@ + name + " to "@ + var_type + " failed"@,
        }
    }
}

impl Error {
    /// The message that tells of the error.
    pub fn to_string(&self) -> (text: String)
        ensures
            text@ == self@.message(),
    {
        match self {
            Error::EnvVarExceedsLimits { name } => {
                let text = String::from_str("the environment variable ");
                let text = text.concat(name.as_str());
                let text = text.concat(" exceeds the limits of its defined type");
                text
            },
            Error::EnvVarNotDefined { name } => {
                let text = String::from_str("the environment variable ");
                let text = text.concat(name.as_str());
                let text = text.concat(" has not been defined");
                text
            },
            Error::EnvVarUnknownType { name } => {
                let text = String::from_str("the environment variable ");
                let text = text.concat(name.as_str());
                let text = text.concat(" has an unknown type");
                text
            },
            Error::EnvVarWrongType { name } => {
                let text = String::from_str("the type of the environment variable ");
                let text = text.concat(name.as_str());
                let text = text.concat(" does not match its former definition");
                text
            },
            Error::EnvVarSet { name, cause } => {
                let text = String::from_str("setting environment variable ");
                let text = text.concat(name.as_str());
                let text = text.concat(" failed: ");
                let text = text.concat(cause.as_str());
                text
            },
            Error::EnvVarTypeCast { name, var_type } => {
                let text = String::from_str("cast of variable ");
                let text = text.concat(name.as_str());
                let text = text.concat(" to ");
                let text = text.concat(var_type.as_str());
                let text = text.concat(" failed");
                text
            },
        }
    }
}

} // verus!
