//! Variable stores of the host.
use tinyscript::environment::Error as StoreError;
use tinyscript::execution::{ExecutionError, Step};
use tinyscript::{Environment, Error, Runtime, ScriptingValue};

/// A store with one variable, `count`, which takes integers only, and
/// which counts what it is asked.
#[derive(Default)]
struct Counter {
    count: i64,
    asked: usize,
}

impl Environment for Counter {
    fn define_env(&mut self, key: &str, value: ScriptingValue) -> Result<(), StoreError> {
        self.asked += 1;
        match (key, value) {
            ("count", ScriptingValue::Int64(i)) => {
                self.count = i;
                Ok(())
            }
            ("count", _) => Err(StoreError::EnvVarWrongType { name: key.to_string() }),
            _ => Err(StoreError::EnvVarSet { name: key.to_string(), cause: "one variable only".to_string() }),
        }
    }

    fn get_env(&self, key: &str) -> Result<ScriptingValue, StoreError> {
        if key == "count" {
            Ok(ScriptingValue::Int64(self.count))
        } else {
            Err(StoreError::EnvVarNotDefined { name: key.to_string() })
        }
    }

    fn set_env(&mut self, key: &str, value: ScriptingValue) -> Result<(), StoreError> {
        self.define_env(key, value)
    }
}

#[test]
fn a_store_of_the_host_is_asked() {
    let mut store = Counter::default();
    let mut runtime = Runtime::default();
    match runtime.run("count := 3; count += 4; count = count * 2; print count;", &mut store) {
        Ok(Step::Finished(_)) => {}
        other => panic!("{other:?}"),
    }
    assert_eq!(store.count, 14);
    assert_eq!(store.asked, 3);
    assert_eq!(runtime.stdout().as_slice(), b"14\n");
}

#[test]
fn what_a_store_refuses_ends_the_run() {
    let mut store = Counter::default();
    let mut runtime = Runtime::default();
    match runtime.run("print 1; count := 'text'; print 2;", &mut store) {
        Err(Error::Execution {
            source: ExecutionError::Environment { source: StoreError::EnvVarWrongType { name } },
        }) => assert_eq!(name, "count"),
        other => panic!("{other:?}"),
    }
    assert_eq!(runtime.stdout().as_slice(), b"1\n");
    match runtime.run("other := 1", &mut store) {
        Err(Error::Execution {
            source: ExecutionError::Environment { source: StoreError::EnvVarSet { name, cause } },
        }) => {
            assert_eq!(name, "other");
            assert_eq!(cause, "one variable only");
        }
        other => panic!("{other:?}"),
    }
    match runtime.run("print other", &mut store) {
        Err(Error::Execution {
            source: ExecutionError::Environment { source: StoreError::EnvVarNotDefined { name } },
        }) => assert_eq!(name, "other"),
        other => panic!("{other:?}"),
    }
}
